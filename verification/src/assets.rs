//! Static assets and in-memory response bodies that are streamed to the
//! client chunk by chunk.
use std::collections::VecDeque;
use vstd::prelude::*;

verus! {

/// The chunks `data.chunks(size)` cuts `data` into: pieces of `size` bytes
/// in order, the last one shorter when `size` does not divide the length.
pub open spec fn spec_chunks(data: Seq<u8>, size: nat) -> Seq<Seq<u8>>
    decreases data.len(),
{
    if data.len() == 0 || size == 0 {
        seq![]
    } else if data.len() <= size {
        seq![data]
    } else {
        seq![data.take(size as int)] + spec_chunks(data.skip(size as int), size)
    }
}

/// The bytes of a sequence of chunks, one after the other.
pub open spec fn flatten(chunks: Seq<Seq<u8>>) -> Seq<u8>
    decreases chunks.len(),
{
    if chunks.len() == 0 {
        seq![]
    } else {
        chunks[0] + flatten(chunks.drop_first())
    }
}

/// Cutting data into chunks of a positive size loses and reorders nothing:
/// the chunks, one after the other, are the data again. Every chunk is
/// non-empty and at most `size` bytes long, and every chunk but the last is
/// exactly `size` bytes long.
pub proof fn lemma_chunks_rebuild_data(data: Seq<u8>, size: nat)
    requires
        size > 0,
    ensures
        flatten(spec_chunks(data, size)) == data,
        forall|i: int|
            0 <= i < spec_chunks(data, size).len() ==> 0 < #[trigger] spec_chunks(data, size)[i].len() <= size,
        forall|i: int|
            0 <= i < spec_chunks(data, size).len() - 1 ==> #[trigger] spec_chunks(data, size)[i].len() == size,
    decreases data.len(),
{
    let c = spec_chunks(data, size);
    if data.len() == 0 {
    } else if data.len() <= size {
        assert(c.drop_first() =~= Seq::<Seq<u8>>::empty());
        assert(flatten(Seq::<Seq<u8>>::empty()) == Seq::<u8>::empty());
        assert(data + Seq::<u8>::empty() =~= data);
    } else {
        let rest = data.skip(size as int);
        lemma_chunks_rebuild_data(rest, size);
        assert(c.drop_first() =~= spec_chunks(rest, size));
        assert(data =~= data.take(size as int) + rest);
        assert forall|i: int| 0 <= i < c.len() implies 0 < #[trigger] c[i].len() <= size by {
            if i > 0 {
                assert(c[i] == spec_chunks(rest, size)[i - 1]);
            }
        }
        assert forall|i: int| 0 <= i < c.len() - 1 implies #[trigger] c[i].len() == size by {
            if i > 0 {
                assert(c[i] == spec_chunks(rest, size)[i - 1]);
            }
        }
    }
}

/// One step of the cutting: the chunks of the rest of the data after
/// position `i` begin with the piece from `i` to `end` and go on with the
/// chunks of what follows `end`.
proof fn lemma_chunks_step(data: Seq<u8>, size: nat, i: int, end: int)
    requires
        size > 0,
        0 <= i < data.len(),
        end == (if data.len() - i <= size { data.len() as int } else { i + size }),
    ensures
        spec_chunks(data.skip(i), size) == seq![data.subrange(i, end)] + spec_chunks(data.skip(end), size),
{
    let rest = data.skip(i);
    if rest.len() <= size {
        assert(data.skip(end).len() == 0);
        assert(spec_chunks(data.skip(end), size) =~= seq![]);
        assert(rest =~= data.subrange(i, end));
    } else {
        assert(rest.take(size as int) =~= data.subrange(i, end));
        assert(rest.skip(size as int) =~= data.skip(end));
    }
}

/// Where and how static files are served: the route path, the directory
/// the files come from, the file served for a directory, and whether a
/// directory without that file is listed.
pub struct AssetsRoute {
    pub path: String,
    pub dir: String,
    pub default_file: String,
    pub listing: bool,
}

/// The static files of `pub_dir`, served under `public/`, with
/// `index.html` for a directory and a listing where `listing` asks for one.
pub fn common_assets(pub_dir: String, listing: bool) -> (r: AssetsRoute)
    ensures
        r.path@ == "public/<**path>"@,
        r.dir@ == pub_dir@,
        r.default_file@ == "index.html"@,
        r.listing == listing,
{
    AssetsRoute {
        path: String::from_str("public/<**path>"),
        dir: pub_dir,
        default_file: String::from_str("index.html"),
        listing,
    }
}

/// The route path of the site's icon and the file it is answered with.
pub fn favicon_ico() -> (r: (String, String))
    ensures
        r.0@ == "favicon.ico"@,
        r.1@ == "./favicon.ico"@,
{
    (String::from_str("favicon.ico"), String::from_str("./favicon.ico"))
}

/// A response body held in memory and handed to the client chunk by chunk.
pub struct MemoryStream(VecDeque<Vec<u8>>);

impl View for MemoryStream {
    type V = Seq<Seq<u8>>;

    /// The chunks still to be sent, in order.
    closed spec fn view(&self) -> Seq<Seq<u8>> {
        self.0@.map_values(|chunk: Vec<u8>| chunk@)
    }
}

impl MemoryStream {
    /// A stream of `data` cut into chunks of `chunk_size` bytes (the last
    /// one may be shorter). The size must be positive.
    pub fn new(data: Vec<u8>, chunk_size: usize) -> (r: Self)
        requires
            chunk_size > 0,
        ensures
            r@ == spec_chunks(data@, chunk_size as nat),
    {
        let mut chunks: VecDeque<Vec<u8>> = VecDeque::new();
        let len = data.len();
        let mut i: usize = 0;
        assert(data@.skip(0) =~= data@);
        while i < len
            invariant
                chunk_size > 0,
                len == data@.len(),
                i <= len,
                spec_chunks(data@, chunk_size as nat) == chunks@.map_values(|chunk: Vec<u8>| chunk@)
                    + spec_chunks(data@.skip(i as int), chunk_size as nat),
            decreases len - i,
        {
            let end: usize = if len - i <= chunk_size { len } else { i + chunk_size };
            proof {
                lemma_chunks_step(data@, chunk_size as nat, i as int, end as int);
            }
            let piece = vstd::slice::slice_to_vec(&data.as_slice()[i..end]);
            let ghost before = chunks@;
            chunks.push_back(piece);
            assert(chunks@.map_values(|chunk: Vec<u8>| chunk@) =~= before.map_values(
                |chunk: Vec<u8>| chunk@,
            ).push(piece@));
            i = end;
        }
        assert(data@.skip(len as int) =~= seq![]);
        assert(chunks@.map_values(|chunk: Vec<u8>| chunk@) + seq![] =~= chunks@.map_values(
            |chunk: Vec<u8>| chunk@,
        ));
        MemoryStream(chunks)
    }

    /// The next chunk to send, taken off the stream, or `None` once every
    /// chunk has been sent.
    pub fn next_chunk(&mut self) -> (r: Option<Vec<u8>>)
        ensures
            old(self)@.len() == 0 ==> r is None && final(self)@ == old(self)@,
            old(self)@.len() > 0 ==> (r matches Some(chunk) && chunk@ == old(self)@[0]
                && final(self)@ == old(self)@.drop_first()),
    {
        let r = self.0.pop_front();
        proof {
            if old(self)@.len() > 0 {
                assert(self@ =~= old(self)@.drop_first());
            }
        }
        r
    }
}

} // verus!
