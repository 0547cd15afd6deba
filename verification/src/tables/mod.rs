//! Lookup tables: the code-point sets of each encoding and the mappers between each encoding and
//! the ZVVNMOD hub.
//!
//! The mappers hold the entries for punctuation, digits, the nirugu and the Birgas only; the
//! letter and glyph entries are not included, and the code-point sets are limited in the same
//! way. A letter with no entry passes through the translators unchanged.

pub mod from_delehi;
pub mod from_menk_letter;
pub mod from_menk_shape;
pub mod from_z52;
pub mod menk_shape_block;
pub mod to_delehi;
pub mod to_menk_letter;
pub mod to_menk_shape;
pub mod to_z52;
pub mod z52_block;
pub mod z52_punctuation;
pub mod zvvnmod_birga;
pub mod zvvnmod_block;
