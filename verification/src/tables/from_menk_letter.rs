//! The MenkLetter -> ZVVNMOD mappers.
use vstd::prelude::*;

verus! {

/// MenkLetter locate key to ZVVNMOD text, whatever the word's nature.
pub const FROM_MENK_LETTER: [(&'static str, &'static str); 0] = [];

/// MenkLetter locate key to ZVVNMOD text in a masculine word.
pub const FROM_MENK_LETTER_CHAGH: [(&'static str, &'static str); 0] = [];

/// MenkLetter locate key to ZVVNMOD text in a feminine word.
pub const FROM_MENK_LETTER_HUNDII: [(&'static str, &'static str); 0] = [];

/// MenkLetter locate key to ZVVNMOD text in a neutral word.
pub const FROM_MENK_LETTER_SAARMAG: [(&'static str, &'static str); 0] = [];

/// MenkLetter keys holding U+1838 after a vowel, to ZVVNMOD text.
pub const FROM_MENK_LETTER_W_WITH_EHSHIG: [(&'static str, &'static str); 0] = [];

} // verus!
