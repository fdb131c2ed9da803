use std::io::Write;

use crates_io_dump::loader::{open_db_plan, CratesIODumpLoader};

/// A gzip-compressed tar archive holding one file `test.csv` with a header
/// row `id,name` and one data row `3,awooo`.
fn gz_archive_bytes() -> Vec<u8> {
    let csv: &[u8] = b"id,name\n3,awooo\n";
    let mut header = tar::Header::new_gnu();
    header.set_size(csv.len() as u64);
    header.set_mode(0o644);
    header.set_cksum();
    let mut builder = tar::Builder::new(Vec::new());
    builder.append_data(&mut header, "test.csv", csv).unwrap();
    let tar_bytes = builder.into_inner().unwrap();
    let mut enc = flate2::write::GzEncoder::new(Vec::new(), flate2::Compression::default());
    enc.write_all(&tar_bytes).unwrap();
    enc.finish().unwrap()
}

/// Materializes the given files under `dir` by unpacking an in-memory tar
/// archive there (which also creates `dir` itself).
fn untar_to(dir: &str, entries: &[(&str, &[u8])]) {
    let mut builder = tar::Builder::new(Vec::new());
    for (name, data) in entries {
        let mut header = tar::Header::new_gnu();
        header.set_size(data.len() as u64);
        header.set_mode(0o644);
        header.set_cksum();
        builder.append_data(&mut header, name, *data).unwrap();
    }
    let bytes = builder.into_inner().unwrap();
    tar::Archive::new(&bytes[..]).unpack(dir).unwrap();
}

/// The extraction side of a refresh, fed from in-memory archive bytes:
/// walks the entries and unpacks each requested one to where the loader
/// says.
fn extract_from_bytes(gz: &[u8], loader: &CratesIODumpLoader) {
    untar_to(&loader.target_path, &[]);
    let dec = flate2::read::GzDecoder::new(gz);
    let mut ar = tar::Archive::new(dec);
    for entry in ar.entries().unwrap() {
        let mut e = entry.unwrap();
        let name = match e.path().unwrap().file_name() {
            Some(n) => n.to_string_lossy().into_owned(),
            None => String::new(),
        };
        if let Some(dest) = loader.unpack_target(&name) {
            e.unpack(dest).unwrap();
        }
    }
}

fn configured_loader(dir: &str) -> CratesIODumpLoader {
    let mut l = CratesIODumpLoader::default();
    l.preload(true)
        .resource(&format!("{}/test.tar.gz", dir))
        .target_path(&format!("{}/extracted", dir))
        .tables(&["test"])
        .table_schema("test", "CREATE TABLE x(renamed_id INT, name TEXT);");
    l.cache(cached_path::Cache::builder()).unwrap();
    l
}

#[test]
fn test_basic_csvtab() {
    let dir = "/tmp/crates_io_dump_testdata_csvtab";
    let gz = gz_archive_bytes();
    untar_to(dir, &[("test.tar.gz", &gz)]);

    let db = rusqlite::Connection::open_in_memory().unwrap();
    rusqlite::vtab::csvtab::load_module(&db).unwrap();

    let mut l = configured_loader(dir);
    let archive = l.resolve_archive().unwrap();
    assert_eq!(archive, format!("{}/test.tar.gz", dir));
    extract_from_bytes(&gz, &l);
    l.load_dump_into(&db).unwrap();

    let mut s = db.prepare("SELECT renamed_id FROM test WHERE name = ?").unwrap();
    let dummy = s.query_row(["awooo"], |row| row.get::<_, i64>(0)).unwrap();
    assert_eq!(3, dummy);
}

#[test]
fn test_basic_csvtab_open() {
    let dir = "/tmp/crates_io_dump_testdata_open";
    let gz = gz_archive_bytes();
    untar_to(dir, &[("test.tar.gz", &gz)]);

    let mut l = configured_loader(dir);
    let archive = l.resolve_archive().unwrap();
    extract_from_bytes(&gz, &l);
    assert_eq!(archive, format!("{}/test.tar.gz", dir));

    // A missing database file means the policy loads; loading is also what
    // resets any database file left behind by an earlier run.
    let plan = open_db_plan(false, true, 0, 0);
    assert!(plan.load && !plan.delete_first);
    let db = l.connect_and_load(plan.load).unwrap();

    let mut s = db.prepare("SELECT renamed_id FROM test WHERE name = ?").unwrap();
    let dummy = s.query_row(["awooo"], |row| row.get::<_, i64>(0)).unwrap();
    assert_eq!(3, dummy);
}

#[test]
fn test_open_existing_db_skips_load() {
    let dir = "/tmp/crates_io_dump_testdata_noload";
    let gz = gz_archive_bytes();
    untar_to(dir, &[("test.tar.gz", &gz)]);

    let mut l = configured_loader(dir);
    extract_from_bytes(&gz, &l);

    let db = l.connect_and_load(true).unwrap();
    let count: i64 = db.query_row("SELECT COUNT(*) FROM test", [], |r| r.get(0)).unwrap();
    assert_eq!(count, 1);
    // Change the materialized table by hand, then reopen without loading:
    // no statement may run again, so the change must survive.
    db.execute("INSERT INTO test (renamed_id, name) VALUES (4, 'later')", []).unwrap();
    drop(db);
    let db = l.connect_and_load(false).unwrap();
    let count: i64 = db.query_row("SELECT COUNT(*) FROM test", [], |r| r.get(0)).unwrap();
    assert_eq!(count, 2);
}

#[test]
fn test_preload_creates_staging_and_plain_tables() {
    let dir = "/tmp/crates_io_dump_testdata_pair";
    let gz = gz_archive_bytes();
    untar_to(dir, &[("test.tar.gz", &gz)]);

    let db = rusqlite::Connection::open_in_memory().unwrap();
    rusqlite::vtab::csvtab::load_module(&db).unwrap();

    let mut l = configured_loader(dir);
    extract_from_bytes(&gz, &l);
    l.load_dump_into(&db).unwrap();

    // Both the staging table and the materialized plain table exist, and
    // they hold the same rows.
    let staged: i64 = db.query_row("SELECT COUNT(*) FROM temp_test", [], |r| r.get(0)).unwrap();
    let plain: i64 = db.query_row("SELECT COUNT(*) FROM test", [], |r| r.get(0)).unwrap();
    assert_eq!(staged, 1);
    assert_eq!(plain, 1);
    let a: (i64, String) = db
        .query_row("SELECT CAST(renamed_id AS INT), name FROM temp_test", [], |r| {
            Ok((r.get(0)?, r.get(1)?))
        })
        .unwrap();
    let b: (i64, String) = db
        .query_row("SELECT CAST(renamed_id AS INT), name FROM test", [], |r| {
            Ok((r.get(0)?, r.get(1)?))
        })
        .unwrap();
    assert_eq!(a, b);
}

#[test]
fn test_no_preload_creates_only_plain_virtual_table() {
    let dir = "/tmp/crates_io_dump_testdata_single";
    let gz = gz_archive_bytes();
    untar_to(dir, &[("test.tar.gz", &gz)]);

    let db = rusqlite::Connection::open_in_memory().unwrap();
    rusqlite::vtab::csvtab::load_module(&db).unwrap();

    // No schema override here: the engine infers the columns from the
    // header row.
    let mut l = CratesIODumpLoader::default();
    l.preload(false)
        .resource(&format!("{}/test.tar.gz", dir))
        .target_path(&format!("{}/extracted", dir))
        .tables(&["test"]);
    l.cache(cached_path::Cache::builder()).unwrap();
    extract_from_bytes(&gz, &l);
    l.load_dump_into(&db).unwrap();

    let plain: i64 = db.query_row("SELECT COUNT(*) FROM test", [], |r| r.get(0)).unwrap();
    assert_eq!(plain, 1);
    // No staging table was created.
    assert!(db.query_row("SELECT COUNT(*) FROM temp_test", [], |r| r.get::<_, i64>(0)).is_err());
    // Header-based inference applies: the column keeps its header name.
    let id: i64 = db
        .query_row("SELECT CAST(id AS INT) FROM test WHERE name = 'awooo'", [], |r| r.get(0))
        .unwrap();
    assert_eq!(id, 3);
}

#[test]
fn test_resolve_archive_missing_resource_is_not_found() {
    let mut l = CratesIODumpLoader::default();
    l.resource("/tmp/crates_io_dump_testdata_absent/no-such-file.tar.gz");
    l.cache(cached_path::Cache::builder()).unwrap();
    assert_eq!(l.resolve_archive().unwrap_err(), crates_io_dump::error::Error::NotFound);
}
