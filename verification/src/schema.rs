//! The per-table schema-override map: table name to explicit column schema.
//!
//! The map is held as a list of pairs; a later registration for the same
//! table shadows an earlier one, so registering behaves like a map insert.

use vstd::prelude::*;

verus! {

/// The schema registered for `key`, if any: the value of the latest pair
/// whose first component is `key`.
pub open spec fn spec_lookup(m: Seq<(String, String)>, key: Seq<char>) -> Option<Seq<char>>
    decreases m.len(),
{
    if m.len() == 0 {
        None
    } else if m.last().0@ == key {
        Some(m.last().1@)
    } else {
        spec_lookup(m.drop_last(), key)
    }
}

/// Appending a pair registers its schema for its table and changes no other
/// table's registration.
pub proof fn lemma_lookup_push(m: Seq<(String, String)>, p: (String, String), key: Seq<char>)
    ensures
        key == p.0@ ==> spec_lookup(m.push(p), key) == Some(p.1@),
        key != p.0@ ==> spec_lookup(m.push(p), key) == spec_lookup(m, key),
{
    assert(m.push(p).last() == p);
    assert(m.push(p).drop_last() =~= m);
}

/// Looks `key` up in the override list, latest registration first.
pub fn lookup_schema(m: &Vec<(String, String)>, key: &String) -> (r: Option<String>)
    ensures
        match r {
            Some(s) => spec_lookup(m@, key@) == Some(s@),
            None => spec_lookup(m@, key@) is None,
        },
{
    let mut j: usize = m.len();
    proof {
        assert(m@.take(j as int) =~= m@);
    }
    while j > 0
        invariant
            j <= m@.len(),
            spec_lookup(m@, key@) == spec_lookup(m@.take(j as int), key@),
        decreases j,
    {
        let pair = &m[j - 1];
        if pair.0 == *key {
            proof {
                assert(m@.take(j as int).last() == m@[j - 1]);
            }
            return Some(pair.1.clone());
        }
        proof {
            assert(m@.take(j as int).drop_last() =~= m@.take(j as int - 1));
        }
        j = j - 1;
    }
    proof {
        assert(m@.take(j as int) =~= Seq::<(String, String)>::empty());
    }
    None
}

} // verus!
