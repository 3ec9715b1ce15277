//! Looking up a database connection by the `name` of its `[[database]]`
//! entry in the configuration.
use vstd::prelude::*;
use crate::db_pool::ConnectionPool;

verus! {

/// Why a connection could not be had from the pool.
#[derive(Debug)]
pub enum PoolError {
    /// The pool was never set up when the program started.
    NotInitialized,
    /// The pool holds no connection of this name.
    NotFound(String),
}

/// The text of the error for a missing pool.
pub open spec fn not_initialized_text() -> Seq<char> {
    "Database Connection Pool wasn't initialized when the program startup"@
}

/// The text of the error for a name the pool does not hold.
pub open spec fn not_found_text(key: Seq<char>) -> Seq<char> {
    "`"@ + key + "` is not found in Database Connection Pool"@
}

impl PoolError {
    /// The text of the error, as the pool reports it.
    pub open spec fn spec_message(&self) -> Seq<char> {
        match self {
            PoolError::NotInitialized => not_initialized_text(),
            PoolError::NotFound(key) => not_found_text(key@),
        }
    }

    /// The text of the error, as the pool reports it.
    pub fn message(&self) -> (r: String)
        ensures
            r@ == self.spec_message(),
    {
        match self {
            PoolError::NotInitialized => {
                proof {
                    reveal_strlit("Database Connection Pool wasn't initialized when the program startup");
                }
                String::from_str("Database Connection Pool wasn't initialized when the program startup")
            },
            PoolError::NotFound(key) => {
                let mut text = String::from_str("`");
                text.append(key.as_str());
                text.append("` is not found in Database Connection Pool");
                text
            },
        }
    }
}

/// The connection named `key`: `NotInitialized` when there is no pool,
/// `NotFound(key)` when the pool holds no connection of that name.
pub fn get<'a, C>(pool: Option<&'a ConnectionPool<C>>, key: &str) -> (r: Result<&'a C, PoolError>)
    ensures
        pool is None ==> r == Err::<&'a C, PoolError>(PoolError::NotInitialized),
        pool matches Some(p) ==> (p@.dom().contains(key@) <==> r is Ok),
        pool matches Some(p) ==> (r matches Ok(c) ==> *c == p@[key@]),
        pool matches Some(p) ==> (r matches Err(e) ==> e matches PoolError::NotFound(k) && k@ == key@),
{
    match pool {
        None => Err(PoolError::NotInitialized),
        Some(p) => match p.get(key) {
            Some(c) => Ok(c),
            None => Err(PoolError::NotFound(key.to_owned())),
        },
    }
}

} // verus!
