//! Small string helpers: destination paths, file-name stems, and the
//! table-name to file-name mapping.

use vstd::prelude::*;
use vstd::string::StringExecFns;

verus! {

/// `base + "/" + name`: the path of a file `name` inside the directory `base`.
pub open spec fn spec_join(base: Seq<char>, name: Seq<char>) -> Seq<char> {
    base + "/"@ + name
}

/// Joins a directory path and a file name with a single separator.
pub fn join_path(base: &str, name: &str) -> (r: String)
    ensures
        r@ == spec_join(base@, name@),
{
    let mut s = base.to_owned();
    s.append("/");
    s.append(name);
    proof {
        assert(s@ =~= spec_join(base@, name@));
    }
    s
}

/// The file name a table is expected under inside the archive and the
/// destination directory: the table name with a `.csv` extension.
pub open spec fn spec_file_of(table: Seq<char>) -> Seq<char> {
    table + ".csv"@
}

/// Maps each requested table name to its expected file name (`<table>.csv`).
pub fn tables_to_files(tables: &[&str]) -> (r: Vec<String>)
    ensures
        r@.len() == tables@.len(),
        forall|i: int| 0 <= i < tables@.len() ==> r@[i]@ == spec_file_of(tables@[i]@),
{
    let mut r: Vec<String> = Vec::new();
    let mut i: usize = 0;
    while i < tables.len()
        invariant
            i <= tables@.len(),
            r@.len() == i,
            forall|j: int| 0 <= j < i ==> r@[j]@ == spec_file_of(tables@[j]@),
        decreases tables@.len() - i,
    {
        let mut f = tables[i].to_owned();
        f.append(".csv");
        r.push(f);
        i = i + 1;
    }
    r
}

} // verus!
