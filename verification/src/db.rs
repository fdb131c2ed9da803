//! The SQL-engine collaborator: an embedded SQLite database reached through
//! `rusqlite`. Every call into it goes through one of the trusted wrappers
//! below; whether a call succeeds depends on the database file and the
//! statements' standing against it, so none of them promises success.

use vstd::prelude::*;

verus! {

#[verifier::external_type_specification]
#[verifier::external_body]
pub struct ExConnection(rusqlite::Connection);

/// Relies on `rusqlite::Connection::open`: opens the database file at `path`,
/// creating it when none exists, and fails when SQLite cannot open it.
#[verifier::external_body]
pub(crate) fn open_connection(path: &str) -> (r: Result<rusqlite::Connection, ()>) {
    match rusqlite::Connection::open(path) {
        Ok(c) => Ok(c),
        Err(_) => Err(()),
    }
}

/// Relies on `rusqlite::vtab::csvtab::load_module`: registers the `csv`
/// virtual-table module on the connection, so that CSV-backed virtual tables
/// can be created and queried on it.
#[verifier::external_body]
pub(crate) fn load_csv_module(db: &rusqlite::Connection) -> (r: Result<(), ()>) {
    match rusqlite::vtab::csvtab::load_module(db) {
        Ok(u) => Ok(u),
        Err(_) => Err(()),
    }
}

/// Relies on `rusqlite::Connection::execute_batch`: runs the statements of
/// `sql` in order, stopping at the first that fails; the ones before it stay
/// applied (there is no transaction around the batch).
#[verifier::external_body]
pub(crate) fn execute_batch(db: &rusqlite::Connection, sql: &str) -> (r: Result<(), ()>) {
    match db.execute_batch(sql) {
        Ok(u) => Ok(u),
        Err(_) => Err(()),
    }
}

} // verus!
