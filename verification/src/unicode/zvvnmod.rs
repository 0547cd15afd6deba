//! ZVVNMOD hub code-point predicates.
use crate::tables::zvvnmod_birga::{MENK_SHAPE_BIRGAS, ZVVNMOD_BIRGAS};
use crate::tables::zvvnmod_block::{
    TO_Z52_PUNCTUATIONS, ZVVNMOD_CODES, ZVVNMOD_PUNCTUATIONS, ZVVNMOD_TAIL_CODES,
};
use crate::unicode::sorted_contains;
use vstd::prelude::*;

verus! {

/// A ZVVNMOD glyph code.
pub open spec fn zvvnmod_code(c: char) -> bool {
    ZVVNMOD_CODES@.contains(c)
}

/// A ZVVNMOD code that ends a letter with a tail.
pub open spec fn zvvnmod_tail_code(c: char) -> bool {
    ZVVNMOD_TAIL_CODES@.contains(c)
}

/// Hub punctuation: the hub Birgas, and the punctuation set except the MenkShape Birgas.
pub open spec fn zvvnmod_punctuation(c: char) -> bool {
    ZVVNMOD_BIRGAS@.contains(c) || (!MENK_SHAPE_BIRGAS@.contains(c) && ZVVNMOD_PUNCTUATIONS@.contains(c))
}

/// Hub punctuation that the historical Z52 rule wrote with Z52 positions.
pub open spec fn to_z52_punctuation(c: char) -> bool {
    TO_Z52_PUNCTUATIONS@.contains(c)
}

/// Whether `c` is a ZVVNMOD glyph code.
pub fn is_zvvnmod_code(c: char) -> (r: bool)
    ensures
        r == zvvnmod_code(c),
{
    sorted_contains(ZVVNMOD_CODES.as_slice(), c)
}

/// Whether `c` is a ZVVNMOD code with a tail.
pub fn is_zvvnmod_tail_code(c: char) -> (r: bool)
    ensures
        r == zvvnmod_tail_code(c),
{
    sorted_contains(ZVVNMOD_TAIL_CODES.as_slice(), c)
}

/// Whether `c` is hub punctuation. The hub Birgas are; the MenkShape private-use Birgas are not.
pub fn is_zvvnmod_punctuation(c: char) -> (r: bool)
    ensures
        r == zvvnmod_punctuation(c),
{
    if sorted_contains(ZVVNMOD_BIRGAS.as_slice(), c) {
        return true;
    }
    if sorted_contains(MENK_SHAPE_BIRGAS.as_slice(), c) {
        return false;
    }
    sorted_contains(ZVVNMOD_PUNCTUATIONS.as_slice(), c)
}

/// Whether `c` is one of the four marks the historical Z52 rule encoded: ⁈ ⁉ ! ?.
pub fn is_to_z52_punctuation(c: char) -> (r: bool)
    ensures
        r == to_z52_punctuation(c),
{
    sorted_contains(TO_Z52_PUNCTUATIONS.as_slice(), c)
}

} // verus!
