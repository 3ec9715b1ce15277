//! Routes: the paths the `router!` forms mount a controller under, and the
//! cross-origin policy of `build_cros`.
use vstd::prelude::*;

verus! {

/// The segments joined by `/`: `a/b/c`.
pub open spec fn join_path(segs: Seq<Seq<char>>) -> Seq<char>
    decreases segs.len(),
{
    if segs.len() == 0 {
        seq![]
    } else if segs.len() == 1 {
        segs[0]
    } else {
        join_path(segs.drop_last()) + "/"@ + segs.last()
    }
}

/// Each segment followed by `/`: `a/b/`.
pub open spec fn prefix_path(segs: Seq<Seq<char>>) -> Seq<char>
    decreases segs.len(),
{
    if segs.len() == 0 {
        seq![]
    } else {
        prefix_path(segs.drop_last()) + segs.last() + "/"@
    }
}

/// The wildcard tail `/<**rest>` that catches the rest of the path, or
/// nothing.
pub open spec fn wildcard_tail(rest: Option<Seq<char>>) -> Seq<char> {
    match rest {
        Some(name) => "/<**"@ + name + ">"@,
        None => seq![],
    }
}

/// The texts of a list of strings.
pub open spec fn texts(v: Seq<String>) -> Seq<Seq<char>> {
    v.map_values(|s: String| s@)
}

/// Which form of `router!` mounts the controller.
pub enum RouteStyle {
    /// `@a::b::show`: mounted under the controller's own name, `show`.
    Handler,
    /// `...@a::b::show`: mounted under its whole module path, `a/b/show`.
    FullPath,
    /// `p1/p2/@a::show`: mounted under the given prefix and its own name,
    /// `p1/p2/show`.
    Prefixed(Vec<String>),
}

/// The path a `router!` form mounts the controller `controller` (its
/// module path, ending with its name) under, with the wildcard tail when
/// `rest` names one.
pub open spec fn spec_router_path(style: RouteStyle, controller: Seq<Seq<char>>, rest: Option<Seq<char>>) -> Seq<char> {
    match style {
        RouteStyle::Handler => controller.last() + wildcard_tail(rest),
        RouteStyle::FullPath => join_path(controller) + wildcard_tail(rest),
        RouteStyle::Prefixed(prefix) => prefix_path(texts(prefix@)) + controller.last() + wildcard_tail(rest),
    }
}

/// Each segment followed by `/`.
spec fn with_slashes(segs: Seq<Seq<char>>) -> Seq<Seq<char>> {
    segs.map_values(|seg: Seq<char>| seg + "/"@)
}

proof fn lemma_prefix_path_flattens(segs: Seq<Seq<char>>)
    ensures
        prefix_path(segs) == with_slashes(segs).flatten(),
    decreases segs.len(),
{
    with_slashes(segs).lemma_flatten_and_flatten_alt_are_equivalent();
    if segs.len() > 0 {
        lemma_prefix_path_flattens(segs.drop_last());
        with_slashes(segs.drop_last()).lemma_flatten_and_flatten_alt_are_equivalent();
        assert(with_slashes(segs).drop_last() =~= with_slashes(segs.drop_last()));
        assert(prefix_path(segs) =~= prefix_path(segs.drop_last()) + (segs.last() + "/"@));
    }
}

proof fn lemma_join_path_flattens(segs: Seq<Seq<char>>)
    requires
        segs.len() > 0,
    ensures
        join_path(segs) == with_slashes(segs.drop_last()).flatten() + segs.last(),
    decreases segs.len(),
{
    lemma_prefix_path_flattens(segs.drop_last());
    if segs.len() == 1 {
        assert(segs.drop_last() =~= Seq::<Seq<char>>::empty());
        assert(prefix_path(segs.drop_last()) =~= Seq::<char>::empty());
        assert(join_path(segs) =~= prefix_path(segs.drop_last()) + segs.last());
    } else {
        lemma_join_path_flattens(segs.drop_last());
        lemma_prefix_path_flattens(segs.drop_last().drop_last());
        assert(segs.drop_last().drop_last() == segs.drop_last().drop_last());
        assert(prefix_path(segs.drop_last()) =~= prefix_path(segs.drop_last().drop_last())
            + segs.drop_last().last() + "/"@);
        assert(join_path(segs) =~= prefix_path(segs.drop_last()) + segs.last());
    }
}

/// The paths of the three forms, segment by segment: the handler form is
/// the controller's name; the full form is every module of the controller's
/// path followed by `/`, then its name; the prefixed form is every prefix
/// segment, in order, followed by `/`, then the controller's name. Each
/// ends with the wildcard tail `/<**rest>` when there is one.
pub proof fn lemma_router_path_segments(prefix: Vec<String>, controller: Seq<Seq<char>>, rest: Option<Seq<char>>)
    requires
        controller.len() > 0,
    ensures
        spec_router_path(RouteStyle::Handler, controller, rest) == controller.last() + wildcard_tail(rest),
        spec_router_path(RouteStyle::FullPath, controller, rest) == controller.drop_last().map_values(
            |seg: Seq<char>| seg + "/"@,
        ).flatten() + controller.last() + wildcard_tail(rest),
        spec_router_path(RouteStyle::Prefixed(prefix), controller, rest) == prefix@.map_values(
            |seg: String| seg@ + "/"@,
        ).flatten() + controller.last() + wildcard_tail(rest),
        rest matches Some(name) ==> wildcard_tail(rest) == "/<**"@ + name + ">"@,
        rest is None ==> wildcard_tail(rest) == Seq::<char>::empty(),
{
    lemma_prefix_path_flattens(texts(prefix@));
    lemma_join_path_flattens(controller);
    assert(prefix@.map_values(|seg: String| seg@ + "/"@) =~= with_slashes(texts(prefix@)));
    assert(controller.drop_last().map_values(|seg: Seq<char>| seg + "/"@) =~= with_slashes(
        controller.drop_last(),
    ));
}

fn append_wildcard(text: &mut String, rest: Option<&str>)
    ensures
        final(text)@ == old(text)@ + wildcard_tail(
            match rest {
                Some(r) => Some(r@),
                None => None,
            },
        ),
{
    match rest {
        Some(name) => {
            text.append("/<**");
            text.append(name);
            text.append(">");
        },
        None => {
            assert(old(text)@ + seq![] =~= old(text)@);
        },
    }
}

/// The path of a route, as the `router!` form `style` writes it for the
/// controller path `controller` (at least its name) and an optional
/// wildcard name.
pub fn router_path(style: &RouteStyle, controller: &Vec<String>, rest: Option<&str>) -> (r: String)
    requires
        controller@.len() > 0,
    ensures
        r@ == spec_router_path(
            *style,
            texts(controller@),
            match rest {
                Some(s) => Some(s@),
                None => None,
            },
        ),
{
    let ghost segs = texts(controller@);
    let n = controller.len();
    let mut text = String::new();
    match style {
        RouteStyle::Handler => {
            text.append(controller[n - 1].as_str());
            assert(text@ =~= segs.last());
        },
        RouteStyle::FullPath => {
            let mut i: usize = 0;
            while i < n
                invariant
                    n == controller@.len(),
                    segs == texts(controller@),
                    i <= n,
                    text@ == join_path(segs.take(i as int)),
                decreases n - i,
            {
                let ghost before = text@;
                if i > 0 {
                    text.append("/");
                }
                text.append(controller[i].as_str());
                proof {
                    let t = segs.take(i + 1);
                    assert(t.drop_last() =~= segs.take(i as int));
                    if i == 0 {
                        assert(before =~= seq![]);
                        assert(text@ =~= t[0]);
                    }
                }
                i = i + 1;
            }
            assert(segs.take(n as int) =~= segs);
        },
        RouteStyle::Prefixed(prefix) => {
            let ghost pre = texts(prefix@);
            let m = prefix.len();
            let mut i: usize = 0;
            assert(pre.take(0) =~= seq![]);
            while i < m
                invariant
                    m == prefix@.len(),
                    pre == texts(prefix@),
                    i <= m,
                    text@ == prefix_path(pre.take(i as int)),
                decreases m - i,
            {
                text.append(prefix[i].as_str());
                text.append("/");
                proof {
                    let t = pre.take(i + 1);
                    assert(t.drop_last() =~= pre.take(i as int));
                }
                i = i + 1;
            }
            assert(pre.take(m as int) =~= pre);
            text.append(controller[n - 1].as_str());
        },
    }
    append_wildcard(&mut text, rest);
    text
}

/// The methods a cross-origin request may use.
#[derive(Clone, Copy, Debug, PartialEq, Eq, Structural)]
pub enum CorsMethod {
    Get,
    Post,
    Delete,
    Put,
    Patch,
}

/// A cross-origin policy: which origins, and which methods.
pub struct CorsPolicy {
    pub allow_origin: String,
    pub allow_methods: Vec<CorsMethod>,
}

/// The cross-origin policy of the middleware: the given origins, and the
/// methods GET, POST, DELETE, PUT and PATCH.
pub fn build_cros(allow_origin: &str) -> (r: CorsPolicy)
    ensures
        r.allow_origin@ == allow_origin@,
        r.allow_methods@ == seq![
            CorsMethod::Get,
            CorsMethod::Post,
            CorsMethod::Delete,
            CorsMethod::Put,
            CorsMethod::Patch,
        ],
{
    let allow_methods = vec![
        CorsMethod::Get,
        CorsMethod::Post,
        CorsMethod::Delete,
        CorsMethod::Put,
        CorsMethod::Patch,
    ];
    CorsPolicy { allow_origin: allow_origin.to_owned(), allow_methods }
}

/// The greeting of the `hello` route for the `id` it was given.
pub fn hello_text(id: &str) -> (r: String)
    ensures
        r@ == "hello, "@ + id@,
{
    let mut text = String::from_str("hello, ");
    text.append(id);
    text
}

/// How the `hello` route answers: the greeting for the `id` it was given,
/// or, without one, 400 with the failure message `id not found`.
pub fn hello_reply(id: Option<String>) -> (r: Result<String, (u16, String)>)
    ensures
        id matches Some(p) ==> (r matches Ok(text) && text@ == "hello, "@ + p@),
        id is None ==> (r matches Err(e) && e.0 == 400 && e.1@ == "id not found"@),
{
    match id {
        Some(p) => Ok(hello_text(p.as_str())),
        None => Err((400, String::from_str("id not found"))),
    }
}

/// How the `login` route answers, given the token it signed (`None` when
/// the request carries no configuration, `Err` with the signing error's
/// text when signing failed): the token, or 400 with the failure message
/// `config not found` or the signing error's text.
pub fn login_reply(token: Option<Result<String, String>>) -> (r: Result<String, (u16, String)>)
    ensures
        token is None ==> (r matches Err(e) && e.0 == 400 && e.1@ == "config not found"@),
        token matches Some(Ok(t)) ==> (r matches Ok(text) && text@ == t@),
        token matches Some(Err(msg)) ==> (r matches Err(e) && e.0 == 400 && e.1@ == msg@),
{
    match token {
        None => Err((400, String::from_str("config not found"))),
        Some(Ok(t)) => Ok(t),
        Some(Err(msg)) => Err((400, msg)),
    }
}

} // verus!
