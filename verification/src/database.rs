//! Which database a server connects to.
use vstd::prelude::*;

verus! {

/// No database was named, and there is none to fall back to.
#[derive(Clone, Copy, Debug, PartialEq, Eq, Structural)]
pub struct MissingUrl;

impl MissingUrl {
    /// The sentence that reports the error.
    pub fn message(&self) -> (r: &'static str)
        ensures
            r@
                == "No database URL was provided. Use db-sqlite driver for an in-memory database."@,
    {
        "No database URL was provided. Use db-sqlite driver for an in-memory database."
    }
}

/// The database to connect to: the one that was named, or else one in memory where there is a
/// driver for that.
pub fn database_url(url: Option<String>, has_sqlite: bool) -> (r: Result<String, MissingUrl>)
    ensures
        match url {
            Some(url) => r == Ok::<String, MissingUrl>(url),
            None => if has_sqlite {
                r matches Ok(url) && url@ == "sqlite::memory:"@
            } else {
                r is Err
            },
        },
{
    match url {
        Some(url) => Ok(url),
        None => if has_sqlite {
            Ok("sqlite::memory:".to_owned())
        } else {
            Err(MissingUrl)
        },
    }
}

/// A step of connecting to a database.
#[derive(Clone, Copy, Debug, PartialEq, Eq, Structural)]
pub enum DatabaseStep {
    Connect,
    PushSchema,
}

impl DatabaseStep {
    /// The sentence that reports that the step failed.
    pub fn failure(&self) -> (r: &'static str)
        ensures
            r@ == match self {
                DatabaseStep::Connect => "Failed to connect to database"@,
                DatabaseStep::PushSchema => "Failed to push schema to database"@,
            },
    {
        match self {
            DatabaseStep::Connect => "Failed to connect to database",
            DatabaseStep::PushSchema => "Failed to push schema to database",
        }
    }
}

/// A database that is named is the one that is used. Where none is named, one in memory is used if
/// there is a driver for it, and none otherwise.
pub proof fn law_named_database_is_used(
    url: Option<String>,
    has_sqlite: bool,
    r: Result<String, MissingUrl>,
)
    requires
        call_ensures(database_url, (url, has_sqlite), r),
    ensures
        url matches Some(named) ==> r == Ok::<String, MissingUrl>(named),
        r is Err <==> url is None && !has_sqlite,
        url is None && has_sqlite ==> r->Ok_0@ == "sqlite::memory:"@,
{
}

} // verus!
