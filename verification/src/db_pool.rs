//! The pool of database connections, looked up by the name each database
//! has in the configuration.
use vstd::prelude::*;
use crate::error_catch::{AnyHttpError, AnyResult};

verus! {

/// The map that a list of named entries stands for: each entry binds its
/// name, a later entry overriding an earlier one of the same name.
pub open spec fn entries_map<C>(entries: Seq<(String, C)>) -> Map<Seq<char>, C>
    decreases entries.len(),
{
    if entries.len() == 0 {
        Map::empty()
    } else {
        entries_map(entries.drop_last()).insert(entries.last().0@, entries.last().1)
    }
}

/// Where no entry from position `j` on has the name `key`, the map of all
/// the entries and the map of the first `j` agree on `key`.
proof fn lemma_entries_prefix<C>(entries: Seq<(String, C)>, j: int, key: Seq<char>)
    requires
        0 <= j <= entries.len(),
        forall|i: int| j <= i < entries.len() ==> (#[trigger] entries[i]).0@ != key,
    ensures
        entries_map(entries).dom().contains(key) == entries_map(entries.take(j)).dom().contains(key),
        entries_map(entries).dom().contains(key) ==> entries_map(entries)[key] == entries_map(
            entries.take(j),
        )[key],
    decreases entries.len() - j,
{
    if j < entries.len() {
        let shorter = entries.drop_last();
        assert(forall|i: int| j <= i < shorter.len() ==> (#[trigger] shorter[i]) == entries[i]);
        lemma_entries_prefix(shorter, j, key);
        assert(shorter.take(j) =~= entries.take(j));
    } else {
        assert(entries.take(j) =~= entries);
    }
}

/// Named connections: what `HashMap<String, C>::insert` and `get` give, with
/// a later connection of a name replacing an earlier one.
pub struct ConnectionPool<C> {
    entries: Vec<(String, C)>,
}

impl<C> View for ConnectionPool<C> {
    type V = Map<Seq<char>, C>;

    closed spec fn view(&self) -> Map<Seq<char>, C> {
        entries_map(self.entries@)
    }
}

impl<C> ConnectionPool<C> {
    /// A pool with no connection.
    pub fn new() -> (r: Self)
        ensures
            r@ == Map::<Seq<char>, C>::empty(),
    {
        ConnectionPool { entries: Vec::new() }
    }

    /// The pool of a list of named connections, in the order they were
    /// opened: each name is bound to its last connection in the list.
    pub fn from_entries(entries: Vec<(String, C)>) -> (r: Self)
        ensures
            r@ == entries_map(entries@),
    {
        ConnectionPool { entries }
    }

    /// Binds `name` to `conn`, replacing the connection that had that name.
    pub fn insert(&mut self, name: String, conn: C)
        ensures
            final(self)@ == old(self)@.insert(name@, conn),
    {
        let ghost before = self.entries@;
        self.entries.push((name, conn));
        assert(self.entries@.drop_last() =~= before);
    }

    /// The connection bound to `key`, if any.
    pub fn get(&self, key: &str) -> (r: Option<&C>)
        ensures
            r matches Some(c) ==> self@.dom().contains(key@) && *c == self@[key@],
            r is None ==> !self@.dom().contains(key@),
    {
        let wanted = key.to_owned();
        let mut j = self.entries.len();
        while j > 0
            invariant
                j <= self.entries@.len(),
                wanted@ == key@,
                forall|i: int| j <= i < self.entries@.len() ==> (#[trigger] self.entries@[i]).0@ != key@,
            decreases j,
        {
            let entry = &self.entries[j - 1];
            if entry.0 == wanted {
                proof {
                    lemma_entries_prefix(self.entries@, j as int, key@);
                    let prefix = self.entries@.take(j as int);
                    assert(prefix.drop_last() =~= self.entries@.take(j - 1));
                }
                return Some(&entry.1);
            }
            j = j - 1;
        }
        proof {
            lemma_entries_prefix(self.entries@, 0, key@);
            assert(self.entries@.take(0) =~= Seq::<(String, C)>::empty());
        }
        None
    }
}

/// A read gives back what the last write of that name wrote, and a write
/// under one name leaves every other name as it was.
pub proof fn lemma_pool_read_after_write<C>(pool: Map<Seq<char>, C>, name: Seq<char>, conn: C, other: Seq<char>)
    requires
        other != name,
    ensures
        pool.insert(name, conn).dom().contains(name),
        pool.insert(name, conn)[name] == conn,
        pool.insert(name, conn).dom().contains(other) == pool.dom().contains(other),
        pool.dom().contains(other) ==> pool.insert(name, conn)[other] == pool[other],
{
}

/// In a pool built from a list, a name gives the connection of the last
/// entry of that name, and any name of the list is found.
pub proof fn lemma_last_entry_wins<C>(entries: Seq<(String, C)>, i: int)
    requires
        0 <= i < entries.len(),
        forall|j: int| i < j < entries.len() ==> (#[trigger] entries[j]).0@ != entries[i].0@,
    ensures
        entries_map(entries).dom().contains(entries[i].0@),
        entries_map(entries)[entries[i].0@] == entries[i].1,
{
    let key = entries[i].0@;
    lemma_entries_prefix(entries, i + 1, key);
    let prefix = entries.take(i + 1);
    assert(prefix.drop_last() =~= entries.take(i));
    assert(prefix.last() == entries[i]);
}

/// The connection named `key` in the pool, or the error that `if_error`
/// builds when the pool is not set up or holds no such name. The error is
/// built eagerly: `if_error` is called before the pool is read and, when
/// there is a pool, once more before the name is looked up; the error
/// returned is the one of the last call.
pub fn get_db_pool<'a, C, F: Fn() -> AnyHttpError>(
    pool: Option<&'a ConnectionPool<C>>,
    key: &String,
    if_error: F,
) -> (r: AnyResult<&'a C>)
    requires
        call_requires(if_error, ()),
    ensures
        r matches Ok(c) ==> pool matches Some(p) && p@.dom().contains(key@) && *c == p@[key@],
        r is Err <==> (pool is None || !pool->Some_0@.dom().contains(key@)),
        r matches Err(e) ==> call_ensures(if_error, (), e),
{
    let missing_pool = if_error();
    match pool {
        None => Err(missing_pool),
        Some(p) => {
            let missing_key = if_error();
            match p.get(key.as_str()) {
                Some(c) => Ok(c),
                None => Err(missing_key),
            }
        },
    }
}

} // verus!
