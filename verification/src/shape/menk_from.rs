//! MenkShape -> ZVVNMOD. Keys on the padded locate key; the four Birgas map to the hub's
//! Supplement scalars.
use crate::code_mapper::{lookup, table_view, StaticMap};
use crate::tables::from_menk_shape::FROM_MENK_SHAPE;
use crate::tables::menk_shape_block::MENK_SHAPE_NOT_SUPPORT;
use crate::tables::zvvnmod_birga::{menk_birga_hub, menk_shape_birga_to_zvvnmod};
use crate::unicode::sorted_contains;
use crate::word::char_type::CharType;
use crate::word::shape_word::{padded_key, ShapeWordFragment};
use vstd::prelude::*;

verus! {

/// The MenkShape -> ZVVNMOD mapper as character sequences.
pub open spec fn from_menk_shape_map() -> Seq<(Seq<char>, Seq<char>)> {
    table_view(FROM_MENK_SHAPE@)
}

/// The MenkShape code points that take part in shaping.
pub open spec fn menk_shape_translates(c: char) -> bool {
    !MENK_SHAPE_NOT_SUPPORT@.contains(c) && (('\u{e263}' <= c && c <= '\u{e34a}') || ('\u{e234}' <= c
        && c <= '\u{e261}'))
}

/// The MenkShape letters: U+E264..=U+E34F.
pub open spec fn menk_shape_word_char(c: char) -> bool {
    '\u{e264}' <= c && c <= '\u{e34f}'
}

/// The hub text of a MenkShape fragment: a lone Birga's scalar, else the mapper's value of the
/// locate key.
pub open spec fn menk_shape_fragment_hub(head: Option<CharType>, tail: Option<CharType>, content: Seq<char>) -> Option<Seq<char>> {
    if content.len() == 1 && menk_birga_hub(content[0]) is Some {
        menk_birga_hub(content[0])
    } else {
        lookup(from_menk_shape_map(), padded_key(head, tail, content))
    }
}

/// The rule reading MenkShape text.
pub struct MenkShapeFrom;

impl MenkShapeFrom {
    /// The two MenkShape ranges, minus the code points the encoding does not use.
    pub fn is_translate_code_point(&self, c: char) -> (r: bool)
        ensures
            r == menk_shape_translates(c),
    {
        if sorted_contains(MENK_SHAPE_NOT_SUPPORT.as_slice(), c) {
            return false;
        }
        ('\u{e263}' <= c && c <= '\u{e34a}') || ('\u{e234}' <= c && c <= '\u{e261}')
    }

    /// Whether the fragment's locate key is mapped.
    pub fn contains(&self, fragment: &ShapeWordFragment) -> (r: bool)
        ensures
            r == (lookup(from_menk_shape_map(), padded_key(fragment@.head, fragment@.tail, fragment@.content)) is Some),
    {
        StaticMap::new(&FROM_MENK_SHAPE).contains_key(fragment.get_locate_key().as_str())
    }

    /// The hub text of the fragment.
    pub fn get_mapper_code(&self, fragment: &ShapeWordFragment) -> (r: Option<&'static str>)
        ensures
            r matches Some(v) ==> menk_shape_fragment_hub(fragment@.head, fragment@.tail, fragment@.content) == Some(v@),
            r is None <==> menk_shape_fragment_hub(fragment@.head, fragment@.tail, fragment@.content) is None,
    {
        let content = fragment.content();
        if content.len() == 1 {
            if let Some(zvvnmod) = menk_shape_birga_to_zvvnmod(content[0]) {
                return Some(zvvnmod);
            }
        }
        StaticMap::new(&FROM_MENK_SHAPE).get(fragment.get_locate_key().as_str())
    }

    /// A MenkShape letter is Mongolian; anything else is not.
    pub fn get_char_type(&self, c: char) -> (r: Option<CharType>)
        ensures
            r == Some(if menk_shape_word_char(c) { CharType::Mongolian } else { CharType::Other }),
    {
        Some(if '\u{e264}' <= c && c <= '\u{e34f}' { CharType::Mongolian } else { CharType::Other })
    }
}

} // verus!
