//! The dump loader itself: a fluent configuration (resource locator,
//! requested tables, destination, per-table schema overrides, a
//! materialization flag, and the content cache), the refresh and
//! database-rebuild decisions, and the batch load into the SQL engine.

use vstd::prelude::*;
use vstd::string::StringExecFns;

use crate::db::{execute_batch, load_csv_module, open_connection};
use crate::error::Error;
use crate::fetch::{build_cache, default_cache, resolve_resource};
use crate::queries::{spec_stem, spec_table_stmts, stem_of, table_stmts};
use crate::schema::{lemma_lookup_push, lookup_schema, spec_lookup};
use crate::text::{join_path, spec_file_of, spec_join, tables_to_files};

verus! {

/// Whether the archive must be unpacked again: it must unless the sentinel
/// file (the first requested table's extracted file) already exists and the
/// archive's creation time is not later than the sentinel's.
pub open spec fn spec_needs_extraction(
    sentinel_exists: bool,
    archive_created: u64,
    sentinel_created: u64,
) -> bool {
    !(sentinel_exists && archive_created <= sentinel_created)
}

/// The staleness check of a refresh, over plain facts read off the
/// filesystem: whether the sentinel file exists, and the creation times of
/// the cached archive and of the sentinel (in any fixed unit, as long as the
/// two are encoded alike).
pub fn needs_extraction(sentinel_exists: bool, archive_created: u64, sentinel_created: u64) -> (r:
    bool)
    ensures
        r == spec_needs_extraction(sentinel_exists, archive_created, sentinel_created),
{
    !(sentinel_exists && archive_created <= sentinel_created)
}

/// What acquiring the database must do first: delete the stale database
/// file, load the dump into a fresh one, both, or neither.
#[derive(Clone, Copy, Debug, PartialEq, Eq, Structural)]
pub struct OpenDbPlan {
    /// Delete the existing database file before opening it.
    pub delete_first: bool,
    /// Run the batch load after opening.
    pub load: bool,
}

/// The database-acquisition policy. A missing database file always means a
/// load. An existing one is rebuilt (deleted, then loaded afresh) exactly
/// when the sentinel extracted file exists and the database file's creation
/// time is not later than the sentinel's: the extracted data is then at
/// least as new as the database built from it. Otherwise the database is
/// opened as it stands and nothing is loaded.
pub open spec fn spec_open_db_plan(
    db_exists: bool,
    sentinel_exists: bool,
    db_created: u64,
    sentinel_created: u64,
) -> OpenDbPlan {
    if !db_exists {
        OpenDbPlan { delete_first: false, load: true }
    } else if sentinel_exists && db_created <= sentinel_created {
        OpenDbPlan { delete_first: true, load: true }
    } else {
        OpenDbPlan { delete_first: false, load: false }
    }
}

/// Decides what acquiring the database must do, over plain facts read off
/// the filesystem; the policy is [`spec_open_db_plan`].
pub fn open_db_plan(
    db_exists: bool,
    sentinel_exists: bool,
    db_created: u64,
    sentinel_created: u64,
) -> (r: OpenDbPlan)
    ensures
        r == spec_open_db_plan(db_exists, sentinel_exists, db_created, sentinel_created),
{
    if !db_exists {
        OpenDbPlan { delete_first: false, load: true }
    } else if sentinel_exists && db_created <= sentinel_created {
        OpenDbPlan { delete_first: true, load: true }
    } else {
        OpenDbPlan { delete_first: false, load: false }
    }
}

/// The loader's configuration and state. Built by the fluent setters below,
/// then used to refresh the extracted files and to load them into the
/// database.
pub struct CratesIODumpLoader {
    /// The resource locator of the dump archive.
    pub resource: String,
    /// The requested table files (`<table>.csv`), in order; the first one is
    /// the staleness sentinel.
    pub files: Vec<String>,
    /// The content cache that resolves the resource, once one is built.
    pub cache: Option<cached_path::Cache>,
    /// The directory the table files are extracted into.
    pub target_path: String,
    /// Whether each virtual table is materialized into a native table.
    pub preload: bool,
    /// The registered per-table schema overrides; a later registration for
    /// the same table shadows an earlier one.
    pub table_schema: Vec<(String, String)>,
}

/// The default requested files: one `<table>.csv` per table of the dump.
pub open spec fn spec_default_files() -> Seq<Seq<char>> {
    seq![
        "badges.csv"@,
        "categories.csv"@,
        "crate_owners.csv"@,
        "crates.csv"@,
        "crates_categories.csv"@,
        "crates_keywords.csv"@,
        "dependencies.csv"@,
        "keywords.csv"@,
        "metadata.csv"@,
        "reserved_crate_names.csv"@,
        "teams.csv"@,
        "users.csv"@,
        "version_authors.csv"@,
        "version_downloads.csv"@,
        "versions.csv"@,
    ]
}

impl Default for CratesIODumpLoader {
    /// The published dump URL, the full table set, destination `data`, no
    /// schema overrides, no materialization, and no cache built yet.
    fn default() -> (r: Self)
        ensures
            r.resource@ == "https://static.crates.io/db-dump.tar.gz"@,
            r.files.deep_view() == spec_default_files(),
            r.cache is None,
            r.target_path@ == "data"@,
            r.preload == false,
            r.table_schema@ == Seq::<(String, String)>::empty(),
    {
        let mut files: Vec<String> = Vec::new();
        files.push("badges.csv".to_owned());
        files.push("categories.csv".to_owned());
        files.push("crate_owners.csv".to_owned());
        files.push("crates.csv".to_owned());
        files.push("crates_categories.csv".to_owned());
        files.push("crates_keywords.csv".to_owned());
        files.push("dependencies.csv".to_owned());
        files.push("keywords.csv".to_owned());
        files.push("metadata.csv".to_owned());
        files.push("reserved_crate_names.csv".to_owned());
        files.push("teams.csv".to_owned());
        files.push("users.csv".to_owned());
        files.push("version_authors.csv".to_owned());
        files.push("version_downloads.csv".to_owned());
        files.push("versions.csv".to_owned());
        proof {
            assert(files.deep_view() =~= spec_default_files());
        }
        let r = CratesIODumpLoader {
            resource: "https://static.crates.io/db-dump.tar.gz".to_owned(),
            files,
            cache: None,
            target_path: "data".to_owned(),
            preload: false,
            table_schema: Vec::new(),
        };
        proof {
            assert(r.table_schema@ =~= Seq::<(String, String)>::empty());
        }
        r
    }
}

impl CratesIODumpLoader {
    /// The query text emitted for one requested file: the statements of
    /// [`spec_table_stmts`] for its table, its destination path, its
    /// registered schema override (if any), and the materialization flag.
    pub open spec fn spec_file_query(self, file: Seq<char>) -> Seq<char> {
        spec_table_stmts(
            spec_stem(file),
            spec_join(self.target_path@, file),
            spec_lookup(self.table_schema@, spec_stem(file)),
            self.preload,
        )
    }

    /// The whole batch: the per-file query of every requested file in order,
    /// each followed by a line break.
    pub open spec fn spec_batch(self, files: Seq<String>) -> Seq<char>
        decreases files.len(),
    {
        if files.len() == 0 {
            Seq::empty()
        } else {
            self.spec_batch(files.drop_last()) + self.spec_file_query(files.last()@) + "\n"@
        }
    }

    /// Sets the resource locator of the dump archive.
    pub fn resource(&mut self, path: &str) -> (r: &mut Self)
        ensures
            r.resource@ == path@,
            r.files == old(self).files,
            r.cache == old(self).cache,
            r.target_path == old(self).target_path,
            r.preload == old(self).preload,
            r.table_schema == old(self).table_schema,
            *final(self) == *final(r),
    {
        self.resource = path.to_owned();
        self
    }

    /// Sets the requested files as given.
    pub fn files(&mut self, files: Vec<String>) -> (r: &mut Self)
        ensures
            r.files == files,
            r.resource == old(self).resource,
            r.cache == old(self).cache,
            r.target_path == old(self).target_path,
            r.preload == old(self).preload,
            r.table_schema == old(self).table_schema,
            *final(self) == *final(r),
    {
        self.files = files;
        self
    }

    /// Sets the requested files from table names, as `<table>.csv` each.
    pub fn tables(&mut self, tables: &[&str]) -> (r: &mut Self)
        ensures
            r.files@.len() == tables@.len(),
            forall|i: int|
                0 <= i < tables@.len() ==> r.files@[i]@ == spec_file_of(tables@[i]@),
            r.resource == old(self).resource,
            r.cache == old(self).cache,
            r.target_path == old(self).target_path,
            r.preload == old(self).preload,
            r.table_schema == old(self).table_schema,
            *final(self) == *final(r),
    {
        self.files = tables_to_files(tables);
        self
    }

    /// Registers an explicit column schema for one table; a generated
    /// virtual table for it will carry the schema string verbatim.
    pub fn table_schema(&mut self, table: &str, schema: &str) -> (r: &mut Self)
        ensures
            spec_lookup(r.table_schema@, table@) == Some(schema@),
            forall|k: Seq<char>|
                k != table@ ==> spec_lookup(r.table_schema@, k) == spec_lookup(
                    old(self).table_schema@,
                    k,
                ),
            r.resource == old(self).resource,
            r.files == old(self).files,
            r.cache == old(self).cache,
            r.target_path == old(self).target_path,
            r.preload == old(self).preload,
            *final(self) == *final(r),
    {
        let pair = (table.to_owned(), schema.to_owned());
        let ghost gpair = pair;
        let ghost before = self.table_schema@;
        self.table_schema.push(pair);
        proof {
            lemma_lookup_push(before, gpair, table@);
            assert forall|k: Seq<char>| k != table@ implies spec_lookup(
                self.table_schema@,
                k,
            ) == spec_lookup(before, k) by {
                lemma_lookup_push(before, gpair, k);
            }
        }
        self
    }

    /// Sets the destination directory the table files are extracted into.
    pub fn target_path(&mut self, path: &str) -> (r: &mut Self)
        ensures
            r.target_path@ == path@,
            r.resource == old(self).resource,
            r.files == old(self).files,
            r.cache == old(self).cache,
            r.preload == old(self).preload,
            r.table_schema == old(self).table_schema,
            *final(self) == *final(r),
    {
        self.target_path = path.to_owned();
        self
    }

    /// Builds the content cache from the given builder and installs it.
    pub fn cache(&mut self, builder: cached_path::CacheBuilder) -> (r: Result<(), Error>)
        ensures
            final(self).resource == old(self).resource,
            final(self).files == old(self).files,
            final(self).target_path == old(self).target_path,
            final(self).preload == old(self).preload,
            final(self).table_schema == old(self).table_schema,
            r matches Ok(u) ==> final(self).cache is Some,
            r matches Err(e) ==> e == Error::NotFound && final(self).cache == old(self).cache,
    {
        match build_cache(builder) {
            Ok(c) => {
                self.cache = Some(c);
                Ok(())
            },
            Err(_) => Err(Error::NotFound),
        }
    }

    /// Turns materialization of each virtual table into a native table on or
    /// off.
    pub fn preload(&mut self, should: bool) -> (r: &mut Self)
        ensures
            r.preload == should,
            r.resource == old(self).resource,
            r.files == old(self).files,
            r.cache == old(self).cache,
            r.target_path == old(self).target_path,
            r.table_schema == old(self).table_schema,
            *final(self) == *final(r),
    {
        self.preload = should;
        self
    }

    /// Restricts the requested tables to the minimal useful set: `crates`,
    /// `dependencies` and `versions`.
    pub fn minimal(&mut self) -> (r: &mut Self)
        ensures
            r.files.deep_view() == seq!["crates.csv"@, "dependencies.csv"@, "versions.csv"@],
            r.resource == old(self).resource,
            r.cache == old(self).cache,
            r.target_path == old(self).target_path,
            r.preload == old(self).preload,
            r.table_schema == old(self).table_schema,
            *final(self) == *final(r),
    {
        let mut files: Vec<String> = Vec::new();
        files.push("crates.csv".to_owned());
        files.push("dependencies.csv".to_owned());
        files.push("versions.csv".to_owned());
        proof {
            assert(files.deep_view() =~= seq!["crates.csv"@, "dependencies.csv"@, "versions.csv"@]);
        }
        self.files = files;
        self
    }

    /// The path of the database file: `<destination>/db.sqlite`.
    pub fn sqlite_path(&self) -> (r: String)
        ensures
            r@ == spec_join(self.target_path@, "db.sqlite"@),
    {
        join_path(self.target_path.as_str(), "db.sqlite")
    }

    /// The path of the staleness sentinel: the first requested file's
    /// destination.
    pub fn sentinel_path(&self) -> (r: String)
        requires
            self.files@.len() > 0,
        ensures
            r@ == spec_join(self.target_path@, self.files@[0]@),
    {
        join_path(self.target_path.as_str(), self.files[0].as_str())
    }

    /// Where an archive entry with base file name `entry_name` must be
    /// unpacked to: its destination under the target directory if it is one
    /// of the requested files, and nowhere otherwise.
    pub fn unpack_target(&self, entry_name: &String) -> (r: Option<String>)
        ensures
            match r {
                Some(p) => (exists|i: int|
                    0 <= i < self.files@.len() && self.files@[i]@ == entry_name@) && p@
                    == spec_join(self.target_path@, entry_name@),
                None => forall|i: int|
                    0 <= i < self.files@.len() ==> self.files@[i]@ != entry_name@,
            },
    {
        let mut i: usize = 0;
        while i < self.files.len()
            invariant
                i <= self.files@.len(),
                forall|j: int| 0 <= j < i ==> self.files@[j]@ != entry_name@,
            decreases self.files@.len() - i,
        {
            if self.files[i] == *entry_name {
                return Some(join_path(self.target_path.as_str(), entry_name.as_str()));
            }
            i = i + 1;
        }
        None
    }

    /// Resolves the configured resource through the content cache to the
    /// path of a local copy of the archive, building a default cache first
    /// when none was configured. Failure to build the cache or to resolve
    /// the resource is a `NotFound` error.
    pub fn resolve_archive(&mut self) -> (r: Result<String, Error>)
        ensures
            final(self).resource == old(self).resource,
            final(self).files == old(self).files,
            final(self).target_path == old(self).target_path,
            final(self).preload == old(self).preload,
            final(self).table_schema == old(self).table_schema,
            r matches Ok(p) ==> final(self).cache is Some,
            old(self).cache is Some ==> final(self).cache == old(self).cache,
            r matches Err(e) ==> e == Error::NotFound,
    {
        if self.cache.is_none() {
            match default_cache() {
                Ok(c) => {
                    self.cache = Some(c);
                },
                Err(_) => {
                    return Err(Error::NotFound);
                },
            }
        }
        let cache = self.cache.as_ref().unwrap();
        match resolve_resource(cache, self.resource.as_str()) {
            Ok(p) => Ok(p),
            Err(_) => Err(Error::NotFound),
        }
    }

    /// The query text emitted for one requested file.
    pub fn file_to_query(&self, file: &String) -> (r: String)
        ensures
            r@ == self.spec_file_query(file@),
    {
        let table = stem_of(file.as_str());
        let actual = join_path(self.target_path.as_str(), file.as_str());
        let schema = lookup_schema(&self.table_schema, &table);
        match schema {
            Some(s) => table_stmts(table.as_str(), actual.as_str(), Some(&s), self.preload),
            None => table_stmts(table.as_str(), actual.as_str(), None, self.preload),
        }
    }

    /// The whole statement batch for the requested files, in order.
    pub fn full_query(&self) -> (r: String)
        ensures
            r@ == self.spec_batch(self.files@),
    {
        let mut q = String::new();
        let mut i: usize = 0;
        proof {
            assert(self.files@.take(0) =~= Seq::<String>::empty());
        }
        while i < self.files.len()
            invariant
                i <= self.files@.len(),
                q@ == self.spec_batch(self.files@.take(i as int)),
            decreases self.files@.len() - i,
        {
            let fq = self.file_to_query(&self.files[i]);
            q.append(fq.as_str());
            q.append("\n");
            proof {
                let t1 = self.files@.take(i as int + 1);
                assert(t1.drop_last() =~= self.files@.take(i as int));
                assert(t1.last() == self.files@[i as int]);
            }
            i = i + 1;
        }
        proof {
            assert(self.files@.take(self.files@.len() as int) =~= self.files@);
        }
        q
    }

    /// Executes the whole statement batch of [`Self::full_query`] against
    /// the given handle in one multi-statement execution. A failing
    /// statement aborts the batch and surfaces as `RusqliteError`; earlier
    /// statements of the batch stay applied (nothing is rolled back).
    pub fn load_dump_into(&mut self, db: &rusqlite::Connection) -> (r: Result<(), Error>)
        ensures
            *final(self) == *old(self),
            r matches Err(e) ==> e == Error::RusqliteError,
    {
        let q = self.full_query();
        match execute_batch(db, q.as_str()) {
            Ok(u) => Ok(()),
            Err(_) => Err(Error::RusqliteError),
        }
    }

    /// Opens the database file at [`Self::sqlite_path`] (creating it when
    /// missing), activates the CSV virtual-table module on the handle, and,
    /// when `should_load` holds, loads the whole dump into it. Every failure
    /// here comes from the SQL engine.
    pub fn connect_and_load(&mut self, should_load: bool) -> (r: Result<
        rusqlite::Connection,
        Error,
    >)
        ensures
            *final(self) == *old(self),
            r matches Err(e) ==> e == Error::RusqliteError,
    {
        let path = self.sqlite_path();
        let db = match open_connection(path.as_str()) {
            Ok(d) => d,
            Err(_) => {
                return Err(Error::RusqliteError);
            },
        };
        match load_csv_module(&db) {
            Ok(u) => (),
            Err(_) => {
                return Err(Error::RusqliteError);
            },
        };
        if should_load {
            match self.load_dump_into(&db) {
                Ok(u) => (),
                Err(e) => {
                    return Err(e);
                },
            };
        }
        Ok(db)
    }
}

} // verus!
