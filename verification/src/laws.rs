//! The properties the loader keeps, stated over the same spec functions its
//! contracts use and proved once and for all.

use vstd::prelude::*;

use crate::loader::{spec_needs_extraction, spec_open_db_plan, CratesIODumpLoader, OpenDbPlan};
use crate::queries::{
    spec_create_virtual_stmt, spec_drop_stmt, spec_materialize_stmts, spec_table_stmts,
    spec_vtable_name,
};

verus! {

/// One block per requested file, in order: the batch for an empty request is
/// empty, and extending the request by one file extends the batch by exactly
/// that file's statements followed by a line break. So the batch holds
/// exactly one statement block per entry of the requested list.
pub proof fn lemma_batch_one_block_per_file(c: CratesIODumpLoader, files: Seq<String>, f: String)
    ensures
        c.spec_batch(Seq::empty()) == Seq::<char>::empty(),
        c.spec_batch(files.push(f)) == c.spec_batch(files) + c.spec_file_query(f@) + "\n"@,
{
    assert(files.push(f).drop_last() =~= files);
    assert(files.push(f).last() == f);
}

/// A second refresh right after a first one is a no-op: once the sentinel
/// file exists and the cached archive is not newer than it — which is how a
/// completed extraction leaves the destination while the remote resource is
/// unchanged — the staleness check says no extraction is needed.
pub proof fn lemma_second_update_skips(archive_created: u64, sentinel_created: u64)
    requires
        archive_created <= sentinel_created,
    ensures
        !spec_needs_extraction(true, archive_created, sentinel_created),
{
}

/// A registered schema override appears verbatim in the generated
/// virtual-table creation: the statement is a fixed prefix, then the
/// override string itself, then a fixed tail, and the override can be read
/// back out of the statement unchanged.
pub proof fn lemma_schema_override_verbatim(name: Seq<char>, file: Seq<char>, s: Seq<char>)
    ensures
        ({
            let pre = "CREATE VIRTUAL TABLE "@ + name + " USING csv(filename='"@ + file
                + "',header=yes,schema='"@;
            &&& spec_create_virtual_stmt(name, file, Some(s)) == pre + s + "');\n"@
            &&& spec_create_virtual_stmt(name, file, Some(s)).subrange(
                pre.len() as int,
                pre.len() + s.len() as int,
            ) == s
        }),
{
    let pre = "CREATE VIRTUAL TABLE "@ + name + " USING csv(filename='"@ + file
        + "',header=yes,schema='"@;
    assert(spec_create_virtual_stmt(name, file, Some(s)) == pre + s + "');\n"@);
    assert((pre + s + "');\n"@).subrange(pre.len() as int, pre.len() + s.len() as int) =~= s);
}

/// The staging table never collides with the materialized table: with
/// materialization on, the virtual table's name is the plain name under the
/// staging prefix, and that is never the plain name itself; with it off, the
/// virtual table carries the plain name.
pub proof fn lemma_staging_never_collides(table: Seq<char>)
    ensures
        spec_vtable_name(table, true) == "temp_"@ + table,
        spec_vtable_name(table, true) != table,
        spec_vtable_name(table, false) == table,
{
    reveal_strlit("temp_");
    assert(spec_vtable_name(table, true).len() == table.len() + 5);
}

/// With materialization on, one table's statements are exactly a drop/create
/// pair for the staging virtual table followed by a drop/create pair that
/// materializes it under the plain name, and the two names differ; with it
/// off, they are exactly the one drop/create pair for the plain-named
/// virtual table.
pub proof fn lemma_preload_emits_pair(table: Seq<char>, file: Seq<char>, schema: Option<Seq<char>>)
    ensures
        spec_table_stmts(table, file, schema, true) == spec_drop_stmt("temp_"@ + table)
            + spec_create_virtual_stmt("temp_"@ + table, file, schema) + spec_materialize_stmts(
            table,
            "temp_"@ + table,
        ),
        spec_table_stmts(table, file, schema, false) == spec_drop_stmt(table)
            + spec_create_virtual_stmt(table, file, schema),
        "temp_"@ + table != table,
{
    lemma_staging_never_collides(table);
}

/// The database-acquisition policy: a missing database file always means a
/// load; an existing database file that is strictly newer than the sentinel
/// (or whose sentinel is gone) is opened as it stands, with nothing deleted
/// and nothing loaded; an existing database file that is not newer than an
/// existing sentinel is deleted and loaded afresh.
pub proof fn lemma_open_db_policy(sentinel_exists: bool, db_created: u64, sentinel_created: u64)
    ensures
        spec_open_db_plan(false, sentinel_exists, db_created, sentinel_created) == (OpenDbPlan {
            delete_first: false,
            load: true,
        }),
        !(sentinel_exists && db_created <= sentinel_created) ==> spec_open_db_plan(
            true,
            sentinel_exists,
            db_created,
            sentinel_created,
        ) == (OpenDbPlan { delete_first: false, load: false }),
        sentinel_exists && db_created <= sentinel_created ==> spec_open_db_plan(
            true,
            sentinel_exists,
            db_created,
            sentinel_created,
        ) == (OpenDbPlan { delete_first: true, load: true }),
{
}

} // verus!
