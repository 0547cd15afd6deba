//! Code-point classifiers of the Mongolian, Z52 and ZVVNMOD blocks.
use vstd::prelude::*;

pub mod mgl;
pub mod z52;
pub mod zvvnmod;

verus! {

/// Membership of `c` in a set of code points held as a slice.
pub fn sorted_contains(slice: &[char], c: char) -> (r: bool)
    ensures
        r == slice@.contains(c),
{
    for i in 0..slice.len()
        invariant
            forall|j: int| 0 <= j < i ==> slice@[j] != c,
    {
        if slice[i] == c {
            assert(slice@[i as int] == c);
            return true;
        }
    }
    false
}

} // verus!
