//! The word model shared by the translators: a word is a sequence of fragments, each the longest
//! run of code points that a table maps as one key.

pub mod char_type;
pub mod letter_word;
pub mod nature;
pub mod shape_word;
