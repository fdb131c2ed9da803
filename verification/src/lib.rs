//! Loader for the crates.io database dump: fetches the published archive
//! through a content cache, extracts the requested table files, and exposes
//! them as CSV-backed virtual tables (optionally materialized into native
//! tables) in an embedded SQLite database.

pub mod db;
pub mod error;
pub mod fetch;
pub mod laws;
pub mod loader;
pub mod queries;
pub mod schema;
pub mod text;
