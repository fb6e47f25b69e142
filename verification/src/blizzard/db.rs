//! The database connection.

use vstd::prelude::*;

verus! {

/// Database engines.
#[derive(Debug, Clone, Copy, PartialEq, Eq, Structural)]
pub enum Backend {
    Postgres,
    Sqlite,
    MySql,
}

/// The name logged for a connected database engine.
pub fn backend_name(b: Backend) -> (s: &'static str)
    ensures
        s@ == match b {
            Backend::Postgres => "postgres"@,
            Backend::Sqlite => "sqlite"@,
            Backend::MySql => "unknown"@,
        },
{
    match b {
        Backend::Postgres => "postgres",
        Backend::Sqlite => "sqlite",
        Backend::MySql => "unknown",
    }
}

} // verus!
