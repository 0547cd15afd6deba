//! Whether a neighbouring code point belongs to the word being shaped.
use vstd::prelude::*;

verus! {

/// Classifies a code point as part of a Mongolian word or not; decides the padding of a
/// fragment's lookup key.
#[derive(Copy, Clone, PartialEq, Eq, Debug, Structural)]
pub enum CharType {
    Mongolian,
    Other,
}

} // verus!
