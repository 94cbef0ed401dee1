use vstd::prelude::*;

use std::collections::HashSet;

verus! {

broadcast use vstd::std_specs::hash::group_hash_axioms;

/// A set of integers into which `v` has been inserted twice: the second
/// insertion finds `v` already there, so the set holds `v` alone.
pub fn insert_twice(v: i32) -> (r: HashSet<i32>)
    ensures
        r@ == set![v],
        r@.len() == 1,
{
    let mut set: HashSet<i32> = HashSet::new();
    set.insert(v);
    set.insert(v);
    assert(set@ =~= set![v]);
    set
}

} // verus!
