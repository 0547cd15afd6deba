//! Conversion between the encodings of traditional Mongolian text.
//!
//! Every conversion passes through the ZVVNMOD hub: the source is read into the hub and the hub
//! written in the target. The shape encodings (MenkShape, Z52) go by glyph tables, the letter
//! encodings (Delehi, MenkLetter) by letter tables with vowel harmony, and UTN #57 by the
//! `zvvnmod-utn57` crate.

pub mod bindings;
pub mod code_mapper;
pub mod code_type;
pub mod dispatch;
pub mod error;
pub mod letter;
pub mod numbers;
pub mod repair;
pub mod router;
pub mod shape;
pub mod strings;
pub mod tables;
pub mod text;
pub mod unicode;
pub mod utn57;
pub mod utn57_shape;
pub mod word;

pub use code_type::{CodeSeries, CodeType};
pub use error::MongolConvertError;
pub use router::{translate, translate_with_options, translate_with_warnings, Translation, TranslationOptions, Warning};

use shape::softbank_emoji::{restore_menk_shape, restored};
use vstd::prelude::*;

verus! {

/// Restores legacy SoftBank/iOS emoji that collide with MenkShape's private-use code points.
///
/// A normalisation helper for paste paths: it does not decode MenkShape, it only maps modern
/// Unicode emoji back to the MenkShape code points whose collision is known.
pub fn restore_menk_shape_emoji(input: &str) -> (r: String)
    ensures
        r@ == restored(input@),
{
    restore_menk_shape(input)
}

/// The crate version.
pub fn version() -> (r: &'static str)
    ensures
        r@ == "0.7.1"@,
{
    "0.7.1"
}

} // verus!
