//! Z52 -> ZVVNMOD. Keys on the padded locate key.
use crate::code_mapper::{lookup, table_view, StaticMap};
use crate::tables::from_z52::FROM_Z52;
use crate::unicode::z52;
use crate::word::char_type::CharType;
use crate::word::shape_word::{padded_key, ShapeFragView, ShapeWordFragment};
use vstd::prelude::*;

verus! {

/// The Z52 -> ZVVNMOD mapper as character sequences.
pub open spec fn from_z52_map() -> Seq<(Seq<char>, Seq<char>)> {
    table_view(FROM_Z52@)
}

/// The rule reading Z52 text.
pub struct Z52From;

impl Z52From {
    /// Z52 glyph codes and Z52 punctuation take part in shaping.
    pub fn is_translate_code_point(&self, c: char) -> (r: bool)
        ensures
            r == (z52::z52_code(c) || z52::z52_code_punctuation(c)),
    {
        z52::is_z52_code(c) || z52::is_z52_code_punctuation(c)
    }

    /// Whether the fragment's locate key is mapped.
    pub fn contains(&self, fragment: &ShapeWordFragment) -> (r: bool)
        ensures
            r == (lookup(from_z52_map(), padded_key(fragment@.head, fragment@.tail, fragment@.content)) is Some),
    {
        StaticMap::new(&FROM_Z52).contains_key(fragment.get_locate_key().as_str())
    }

    /// The hub text of the fragment's locate key.
    pub fn get_mapper_code(&self, fragment: &ShapeWordFragment) -> (r: Option<&'static str>)
        ensures
            r matches Some(v) ==> lookup(from_z52_map(), padded_key(fragment@.head, fragment@.tail, fragment@.content)) == Some(v@),
            r is None <==> lookup(from_z52_map(), padded_key(fragment@.head, fragment@.tail, fragment@.content)) is None,
    {
        StaticMap::new(&FROM_Z52).get(fragment.get_locate_key().as_str())
    }

    /// A Z52 glyph code is Mongolian; anything else is not.
    pub fn get_char_type(&self, c: char) -> (r: Option<CharType>)
        ensures
            r == Some(if z52::z52_code(c) { CharType::Mongolian } else { CharType::Other }),
    {
        Some(if z52::is_z52_code(c) { CharType::Mongolian } else { CharType::Other })
    }
}

} // verus!
