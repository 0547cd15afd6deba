//! The ZVVNMOD -> MenkLetter mappers.
use vstd::prelude::*;

verus! {

/// ZVVNMOD key to MenkLetter text, whatever the word's nature.
pub const TO_MENK_LETTER: [(&'static str, &'static str); 0] = [];

/// ZVVNMOD key to MenkLetter text in a feminine word.
pub const TO_MENK_LETTER_HUNDII: [(&'static str, &'static str); 0] = [];

/// ZVVNMOD key to MenkLetter text in a masculine word.
pub const TO_MENK_LETTER_CHAGH: [(&'static str, &'static str); 0] = [];

} // verus!
