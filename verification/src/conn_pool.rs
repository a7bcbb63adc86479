use vstd::prelude::*;

verus! {

/// The database connection pool, as the library sees it: the URL of the
/// database that the pool connects to.
pub struct ConnPool {
    pub database_url: String,
}

impl Clone for ConnPool {
    fn clone(&self) -> (r: Self)
        ensures
            r == *self,
    {
        ConnPool { database_url: self.database_url.clone() }
    }
}

/// Whether mysql_async reads `url` as the options of a MySQL connection
/// (`Opts::from_url` succeeds). It depends on the text alone.
pub uninterp spec fn mysql_url_ok(url: Seq<char>) -> bool;

/// `mysql_async::Opts::from_url(url).is_ok()`: the check that
/// `Pool::from_url` makes before it builds a pool. Trusted: the result is
/// `mysql_url_ok(url@)`.
#[verifier::external_body]
fn mysql_url_valid(url: &str) -> (r: bool)
    ensures
        r == mysql_url_ok(url@),
{
    mysql_async::Opts::from_url(url).is_ok()
}

impl ConnPool {
    /// The pool of the database at `database_url`, a URL that mysql_async
    /// reads (the pool is not built on any other).
    pub fn from_url(database_url: &str) -> (p: ConnPool)
        requires
            mysql_url_ok(database_url@),
        ensures
            p.database_url@ == database_url@,
    {
        ConnPool { database_url: String::from_str(database_url) }
    }

    /// The pool of the database at `database_url` when mysql_async reads it
    /// as a MySQL URL; `None` otherwise.
    pub fn try_from_url(database_url: &str) -> (r: Option<ConnPool>)
        ensures
            r is Some <==> mysql_url_ok(database_url@),
            r matches Some(p) ==> p.database_url@ == database_url@,
    {
        if mysql_url_valid(database_url) {
            Some(ConnPool::from_url(database_url))
        } else {
            None
        }
    }
}

} // verus!
