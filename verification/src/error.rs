//! The loader's error type. Each variant stands for the failure of one
//! collaborator: the content cache, the SQL engine, or the filesystem.

use vstd::prelude::*;

verus! {

/// Why a loader operation failed. No failure is retried or recovered from;
/// every one propagates to the caller at once.
#[derive(Clone, Copy, Debug, PartialEq, Eq, Structural)]
pub enum Error {
    /// The remote resource could not be resolved or fetched by the cache.
    NotFound,
    /// The SQL engine rejected a statement.
    RusqliteError,
    /// A filesystem operation (directory creation, unpack, metadata read,
    /// database file deletion) failed.
    IOError,
}

/// The description of an error, by variant.
pub open spec fn spec_message(e: Error) -> Seq<char> {
    match e {
        Error::NotFound => "dump not found"@,
        Error::RusqliteError => "failed to create virtual table"@,
        Error::IOError => "failed to unpack dump"@,
    }
}

impl Error {
    /// A short human-readable description of the error.
    pub fn message(&self) -> (r: String)
        ensures
            r@ == spec_message(*self),
    {
        match self {
            Error::NotFound => "dump not found".to_owned(),
            Error::RusqliteError => "failed to create virtual table".to_owned(),
            Error::IOError => "failed to unpack dump".to_owned(),
        }
    }
}

} // verus!
