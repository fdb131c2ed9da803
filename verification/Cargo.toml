[package]
name = "crates_io_dump"
version = "0.1.0"
edition = "2021"
publish = false

[dependencies]
cached-path = "*"
flate2 = "*"
rusqlite = { version = "*", features = ["bundled", "csvtab", "vtab"] }
tar = "*"
