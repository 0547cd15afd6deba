//! ZVVNMOD -> MenkShape. Keys on the raw content. The one stateful shape rule: the final A `E00D`
//! is written `E26A` right after a fragment that ended in a tail code.
use crate::code_mapper::{lookup, table_view, StaticMap};
use crate::tables::to_menk_shape::TO_MENK_SHAPE;
use crate::tables::zvvnmod_birga::{hub_birga_menk, zvvnmod_birga_to_menk_shape};
use crate::text::str_eq;
use crate::unicode::zvvnmod;
use crate::word::char_type::CharType;
use crate::word::shape_word::ShapeWordFragment;
use vstd::prelude::*;

verus! {

broadcast use vstd::string::group_string_axioms;

/// The ZVVNMOD -> MenkShape mapper as character sequences.
pub open spec fn to_menk_shape_map() -> Seq<(Seq<char>, Seq<char>)> {
    table_view(TO_MENK_SHAPE@)
}

/// `E00D` after a tail code is `E26A`.
pub open spec fn tsatslaga(pre: Seq<char>, key: Seq<char>) -> Option<Seq<char>> {
    if key == "\u{e00d}"@ && pre.len() > 0 && zvvnmod::zvvnmod_tail_code(pre.last()) {
        Some("\u{e26a}"@)
    } else {
        None
    }
}

/// Whether a hub key has a MenkShape spelling.
pub open spec fn menk_shape_has_key(key: Seq<char>) -> bool {
    hub_birga_menk(key) is Some || lookup(to_menk_shape_map(), key) is Some
}

/// The MenkShape spelling of a hub key after the hub text `pre` of the same word.
pub open spec fn menk_shape_for_key(pre: Seq<char>, key: Seq<char>) -> Option<Seq<char>> {
    if hub_birga_menk(key) is Some {
        hub_birga_menk(key)
    } else if tsatslaga(pre, key) is Some {
        tsatslaga(pre, key)
    } else {
        lookup(to_menk_shape_map(), key)
    }
}

/// The rule writing MenkShape text.
pub struct MenkShapeTo;

impl MenkShapeTo {
    /// Hub glyph codes and hub punctuation take part in shaping.
    pub fn is_translate_code_point(&self, c: char) -> (r: bool)
        ensures
            r == (zvvnmod::zvvnmod_code(c) || zvvnmod::zvvnmod_punctuation(c)),
    {
        zvvnmod::is_zvvnmod_code(c) || zvvnmod::is_zvvnmod_punctuation(c)
    }

    /// Whether the fragment's key is a Birga or mapped.
    pub fn contains(&self, fragment: &ShapeWordFragment) -> (r: bool)
        ensures
            r == menk_shape_has_key(fragment@.content),
    {
        let key = fragment.get_key();
        zvvnmod_birga_to_menk_shape(key.as_str()).is_some() || StaticMap::new(&TO_MENK_SHAPE).contains_key(
            key.as_str(),
        )
    }

    /// The MenkShape spelling of the fragment after the hub text `pre` of the same word.
    pub fn get_mapper_code(&self, pre: &Vec<char>, fragment: &ShapeWordFragment) -> (r: Option<&'static str>)
        ensures
            r matches Some(v) ==> menk_shape_for_key(pre@, fragment@.content) == Some(v@),
            r is None <==> menk_shape_for_key(pre@, fragment@.content) is None,
    {
        let key = fragment.get_key();
        if let Some(menk_shape) = zvvnmod_birga_to_menk_shape(key.as_str()) {
            return Some(menk_shape);
        }
        if let Some(r) = reslove_tsatslaga(pre, key.as_str()) {
            return Some(r);
        }
        StaticMap::new(&TO_MENK_SHAPE).get(key.as_str())
    }

    /// The to-shape rules key on unpadded content and classify nothing.
    pub fn get_char_type(&self, _c: char) -> (r: Option<CharType>)
        ensures
            r == None::<CharType>,
    {
        None
    }
}

/// `E26A` for the key `E00D` right after a tail code.
pub fn reslove_tsatslaga(pre: &Vec<char>, key: &str) -> (r: Option<&'static str>)
    ensures
        r matches Some(v) ==> tsatslaga(pre@, key@) == Some(v@),
        r is None <==> tsatslaga(pre@, key@) is None,
{
    if !str_eq(key, "\u{e00d}") || pre.len() == 0 {
        return None;
    }
    let last = pre[pre.len() - 1];
    if zvvnmod::is_zvvnmod_tail_code(last) {
        Some("\u{e26a}")
    } else {
        None
    }
}

} // verus!
