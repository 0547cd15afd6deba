//! Vowel-harmony nature of a Mongolian letter.
use vstd::prelude::*;

verus! {

/// The vowel-harmony class of a letter, fragment or word.
#[derive(Copy, Clone, PartialEq, Eq, Debug, Structural)]
pub enum Nature {
    /// Masculine.
    Chagh,
    /// Feminine.
    Hundii,
    /// Neutral: the default, which latches to the first non-neutral nature seen.
    Saarmag,
}

} // verus!
