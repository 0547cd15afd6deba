//! ZVVNMOD -> strict Z52. Keys on the raw content. The 21 punctuation positions come from the
//! strict punctuation table, the glyphs from the mapper.
use crate::code_mapper::{lookup, table_view, StaticMap};
use crate::tables::to_z52::TO_Z52;
use crate::tables::z52_punctuation;
use crate::unicode::zvvnmod;
use crate::word::char_type::CharType;
use crate::word::shape_word::ShapeWordFragment;
use vstd::prelude::*;

verus! {

/// The ZVVNMOD -> Z52 mapper as character sequences.
pub open spec fn to_z52_map() -> Seq<(Seq<char>, Seq<char>)> {
    table_view(TO_Z52@)
}

/// The Z52 spelling of a hub key: its strict punctuation position, else the mapper's value.
pub open spec fn z52_for_key(key: Seq<char>) -> Option<Seq<char>> {
    match z52_punctuation::z52_punctuation_for_key(key) {
        Some(v) => Some(v),
        None => lookup(to_z52_map(), key),
    }
}

/// The rule writing Z52 text.
pub struct Z52To;

impl Z52To {
    /// Hub glyph codes and the marks with a strict Z52 position take part in shaping.
    pub fn is_translate_code_point(&self, c: char) -> (r: bool)
        ensures
            r == (zvvnmod::zvvnmod_code(c) || z52_punctuation::z52_punctuation_of(c) is Some),
    {
        zvvnmod::is_zvvnmod_code(c) || z52_punctuation::contains(c)
    }

    /// Whether the fragment's key has a Z52 spelling.
    pub fn contains(&self, fragment: &ShapeWordFragment) -> (r: bool)
        ensures
            r == (z52_for_key(fragment@.content) is Some),
    {
        let key = fragment.get_key();
        z52_punctuation::get(key.as_str()).is_some() || StaticMap::new(&TO_Z52).contains_key(key.as_str())
    }

    /// The Z52 spelling of the fragment's key.
    pub fn get_mapper_code(&self, fragment: &ShapeWordFragment) -> (r: Option<&'static str>)
        ensures
            r matches Some(v) ==> z52_for_key(fragment@.content) == Some(v@),
            r is None <==> z52_for_key(fragment@.content) is None,
    {
        let key = fragment.get_key();
        match z52_punctuation::get(key.as_str()) {
            Some(v) => Some(v),
            None => StaticMap::new(&TO_Z52).get(key.as_str()),
        }
    }

    /// The to-shape rules key on unpadded content and classify nothing.
    pub fn get_char_type(&self, _c: char) -> (r: Option<CharType>)
        ensures
            r == None::<CharType>,
    {
        None
    }
}

} // verus!
