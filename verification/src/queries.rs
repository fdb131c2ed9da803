//! Generation of the SQL batch that exposes the extracted files: for each
//! table a `DROP TABLE IF EXISTS` plus a CSV-backed virtual-table creation,
//! and, when materialization is on, a second drop/create pair that copies the
//! staging table's rows into a native table of the plain name.

use vstd::prelude::*;
use vstd::string::StringExecFns;

verus! {

/// Whether `name` contains a `.` anywhere.
pub open spec fn spec_has_dot(name: Seq<char>) -> bool {
    exists|i: int| 0 <= i < name.len() && name[i] == '.'
}

/// The file name with its extension stripped: the part before the final `.`,
/// or the whole name when it holds no `.`.
pub open spec fn spec_stem(name: Seq<char>) -> Seq<char>
    decreases name.len(),
{
    if !spec_has_dot(name) {
        name
    } else if name.last() == '.' {
        name.drop_last()
    } else {
        spec_stem(name.drop_last())
    }
}

proof fn lemma_stem_at(name: Seq<char>, k: int)
    requires
        0 <= k < name.len(),
        name[k] == '.',
        forall|i: int| k < i < name.len() ==> name[i] != '.',
    ensures
        spec_stem(name) == name.take(k),
    decreases name.len(),
{
    assert(spec_has_dot(name));
    if k == name.len() - 1 {
        assert(name.last() == '.');
        assert(name.drop_last() =~= name.take(k));
    } else {
        assert(name.last() != '.');
        let d = name.drop_last();
        assert(d[k] == '.');
        assert(forall|i: int| k < i < d.len() ==> d[i] != '.');
        lemma_stem_at(d, k);
        assert(d.take(k) =~= name.take(k));
    }
}

proof fn lemma_stem_no_dot(name: Seq<char>)
    requires
        forall|i: int| 0 <= i < name.len() ==> name[i] != '.',
    ensures
        spec_stem(name) == name,
{
    assert(!spec_has_dot(name));
}

/// The part of `name` before its final `.`, or all of `name` if it has none.
pub fn stem_of(name: &str) -> (r: String)
    ensures
        r@ == spec_stem(name@),
{
    let n = name.unicode_len();
    let mut j: usize = n;
    while j > 0
        invariant
            j <= n,
            n == name@.len(),
            forall|i: int| j <= i < name@.len() ==> name@[i] != '.',
        decreases j,
    {
        if name.get_char(j - 1) == '.' {
            let stem = name.substring_char(0, j - 1);
            proof {
                lemma_stem_at(name@, j as int - 1);
            }
            return stem.to_owned();
        }
        j = j - 1;
    }
    proof {
        lemma_stem_no_dot(name@);
    }
    name.to_owned()
}

/// The name under which the CSV-backed virtual table is created: when
/// materialization is on it carries a staging prefix, so that it never
/// collides with the native table of the plain name.
pub open spec fn spec_vtable_name(table: Seq<char>, preload: bool) -> Seq<char> {
    if preload {
        "temp_"@ + table
    } else {
        table
    }
}

/// `DROP TABLE IF EXISTS <name>;` on a line of its own.
pub open spec fn spec_drop_stmt(name: Seq<char>) -> Seq<char> {
    "DROP TABLE IF EXISTS "@ + name + ";\n"@
}

/// The creation of the CSV-backed virtual table `name` over the file at
/// `file`, with header-row interpretation on, and with the explicit column
/// schema passed verbatim when one is registered.
pub open spec fn spec_create_virtual_stmt(
    name: Seq<char>,
    file: Seq<char>,
    schema: Option<Seq<char>>,
) -> Seq<char> {
    let head = "CREATE VIRTUAL TABLE "@ + name + " USING csv(filename='"@ + file;
    match schema {
        Some(s) => head + "',header=yes,schema='"@ + s + "');\n"@,
        None => head + "',header=yes);\n"@,
    }
}

/// The pair of statements that materializes the staging table `vname` into a
/// native table of the plain name `table`.
pub open spec fn spec_materialize_stmts(table: Seq<char>, vname: Seq<char>) -> Seq<char> {
    spec_drop_stmt(table) + "CREATE TABLE "@ + table + " AS SELECT * FROM "@ + vname + ";\n"@
}

/// All statements emitted for one table: drop and create the virtual table,
/// then, when materialization is on, drop and re-create the native table
/// from it.
pub open spec fn spec_table_stmts(
    table: Seq<char>,
    file: Seq<char>,
    schema: Option<Seq<char>>,
    preload: bool,
) -> Seq<char> {
    let vname = spec_vtable_name(table, preload);
    let virt = spec_drop_stmt(vname) + spec_create_virtual_stmt(vname, file, schema);
    if preload {
        virt + spec_materialize_stmts(table, vname)
    } else {
        virt
    }
}

/// Emits `DROP TABLE IF EXISTS <name>;`.
fn drop_stmt(name: &str) -> (r: String)
    ensures
        r@ == spec_drop_stmt(name@),
{
    let mut q = "DROP TABLE IF EXISTS ".to_owned();
    q.append(name);
    q.append(";\n");
    proof {
        assert(q@ =~= spec_drop_stmt(name@));
    }
    q
}

/// Emits the CSV-backed virtual-table creation for `name` over `file`.
fn create_virtual_stmt(name: &str, file: &str, schema: Option<&String>) -> (r: String)
    ensures
        r@ == spec_create_virtual_stmt(
            name@,
            file@,
            match schema {
                Some(s) => Some(s@),
                None => None,
            },
        ),
{
    let mut q = "CREATE VIRTUAL TABLE ".to_owned();
    q.append(name);
    q.append(" USING csv(filename='");
    q.append(file);
    proof {
        assert(q@ =~= "CREATE VIRTUAL TABLE "@ + name@ + " USING csv(filename='"@ + file@);
    }
    match schema {
        Some(s) => {
            q.append("',header=yes,schema='");
            q.append(s.as_str());
            q.append("');\n");
            proof {
                assert(q@ =~= spec_create_virtual_stmt(name@, file@, Some(s@)));
            }
        },
        None => {
            q.append("',header=yes);\n");
            proof {
                assert(q@ =~= spec_create_virtual_stmt(name@, file@, None));
            }
        },
    }
    q
}

/// Emits the drop/create pair that copies the staging table `vname` into a
/// native table of the plain name `table`.
fn materialize_stmts(table: &str, vname: &str) -> (r: String)
    ensures
        r@ == spec_materialize_stmts(table@, vname@),
{
    let mut q = drop_stmt(table);
    q.append("CREATE TABLE ");
    q.append(table);
    q.append(" AS SELECT * FROM ");
    q.append(vname);
    q.append(";\n");
    proof {
        assert(q@ =~= spec_materialize_stmts(table@, vname@));
    }
    q
}

/// Emits the statements for one table, exactly as [`spec_table_stmts`]
/// describes them.
pub fn table_stmts(table: &str, file: &str, schema: Option<&String>, preload: bool) -> (r: String)
    ensures
        r@ == spec_table_stmts(
            table@,
            file@,
            match schema {
                Some(s) => Some(s@),
                None => None,
            },
            preload,
        ),
{
    let mut vname = String::new();
    if preload {
        vname.append("temp_");
    }
    vname.append(table);
    proof {
        assert(vname@ =~= spec_vtable_name(table@, preload));
    }

    let mut q = drop_stmt(vname.as_str());
    let create = create_virtual_stmt(vname.as_str(), file, schema);
    q.append(create.as_str());
    if preload {
        let mat = materialize_stmts(table, vname.as_str());
        q.append(mat.as_str());
    }
    q
}

} // verus!
