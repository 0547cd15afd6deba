//! Z52 code-point predicates.
use crate::tables::z52_block::{Z52_CODES, Z52_CODE_PUNCTUATIONS};
use crate::unicode::sorted_contains;
use vstd::prelude::*;

verus! {

/// A Z52 glyph code point.
pub open spec fn z52_code(c: char) -> bool {
    Z52_CODES@.contains(c)
}

/// One of Z52's own punctuation positions.
pub open spec fn z52_code_punctuation(c: char) -> bool {
    Z52_CODE_PUNCTUATIONS@.contains(c)
}

/// Whether `c` is a Z52 glyph code point.
pub fn is_z52_code(c: char) -> (r: bool)
    ensures
        r == z52_code(c),
{
    sorted_contains(Z52_CODES.as_slice(), c)
}

/// Whether `c` is one of Z52's own punctuation positions.
pub fn is_z52_code_punctuation(c: char) -> (r: bool)
    ensures
        r == z52_code_punctuation(c),
{
    sorted_contains(Z52_CODE_PUNCTUATIONS.as_slice(), c)
}

} // verus!
