//! The four shape rules, each direction of MenkShape and Z52.
use crate::shape::menk_from::{menk_shape_fragment_hub, menk_shape_translates, menk_shape_word_char, MenkShapeFrom, from_menk_shape_map};
use crate::shape::menk_to::{menk_shape_for_key, menk_shape_has_key, MenkShapeTo};
use crate::shape::z52_from::{from_z52_map, Z52From};
use crate::shape::z52_to::{z52_for_key, Z52To};
use crate::code_mapper::lookup;
use crate::tables::z52_punctuation::z52_punctuation_of;
use crate::unicode::{z52, zvvnmod};
use crate::word::char_type::CharType;
use crate::word::shape_word::{padded_key, ShapeFragView, ShapeWordFragment};
use vstd::prelude::*;

verus! {

/// A shape rule: how text of one shape encoding is read into the hub, or the hub written out.
#[derive(Copy, Clone, PartialEq, Eq, Debug, Structural)]
pub enum ShapeRule {
    Z52From,
    Z52To,
    MenkShapeFrom,
    MenkShapeTo,
}

/// Whether `c` takes part in the rule's shaping (rather than passing through).
pub open spec fn rule_translates(rule: ShapeRule, c: char) -> bool {
    match rule {
        ShapeRule::Z52From => z52::z52_code(c) || z52::z52_code_punctuation(c),
        ShapeRule::Z52To => zvvnmod::zvvnmod_code(c) || z52_punctuation_of(c) is Some,
        ShapeRule::MenkShapeFrom => menk_shape_translates(c),
        ShapeRule::MenkShapeTo => zvvnmod::zvvnmod_code(c) || zvvnmod::zvvnmod_punctuation(c),
    }
}

/// The context a neighbouring code point gives a fragment.
pub open spec fn rule_char_type(rule: ShapeRule, c: char) -> Option<CharType> {
    match rule {
        ShapeRule::Z52From => Some(if z52::z52_code(c) { CharType::Mongolian } else { CharType::Other }),
        ShapeRule::MenkShapeFrom => Some(
            if menk_shape_word_char(c) {
                CharType::Mongolian
            } else {
                CharType::Other
            },
        ),
        _ => None,
    }
}

/// Whether the rule maps the fragment.
pub open spec fn rule_contains(rule: ShapeRule, f: ShapeFragView) -> bool {
    match rule {
        ShapeRule::Z52From => lookup(from_z52_map(), padded_key(f.head, f.tail, f.content)) is Some,
        ShapeRule::Z52To => z52_for_key(f.content) is Some,
        ShapeRule::MenkShapeFrom => lookup(from_menk_shape_map(), padded_key(f.head, f.tail, f.content)) is Some,
        ShapeRule::MenkShapeTo => menk_shape_has_key(f.content),
    }
}

/// The text the rule writes for a fragment after the text `pre` of the same word.
pub open spec fn rule_mapped(rule: ShapeRule, pre: Seq<char>, f: ShapeFragView) -> Option<Seq<char>> {
    match rule {
        ShapeRule::Z52From => lookup(from_z52_map(), padded_key(f.head, f.tail, f.content)),
        ShapeRule::Z52To => z52_for_key(f.content),
        ShapeRule::MenkShapeFrom => menk_shape_fragment_hub(f.head, f.tail, f.content),
        ShapeRule::MenkShapeTo => menk_shape_for_key(pre, f.content),
    }
}

impl ShapeRule {
    /// Whether `c` takes part in this rule's shaping.
    pub fn is_translate_code_point(&self, c: char) -> (r: bool)
        ensures
            r == rule_translates(*self, c),
    {
        match self {
            ShapeRule::Z52From => Z52From.is_translate_code_point(c),
            ShapeRule::Z52To => Z52To.is_translate_code_point(c),
            ShapeRule::MenkShapeFrom => MenkShapeFrom.is_translate_code_point(c),
            ShapeRule::MenkShapeTo => MenkShapeTo.is_translate_code_point(c),
        }
    }

    /// Whether this rule maps the fragment.
    pub fn contains(&self, fragment: &ShapeWordFragment) -> (r: bool)
        ensures
            r == rule_contains(*self, fragment@),
    {
        match self {
            ShapeRule::Z52From => Z52From.contains(fragment),
            ShapeRule::Z52To => Z52To.contains(fragment),
            ShapeRule::MenkShapeFrom => MenkShapeFrom.contains(fragment),
            ShapeRule::MenkShapeTo => MenkShapeTo.contains(fragment),
        }
    }

    /// The text this rule writes for a fragment after the text `pre` of the same word.
    pub fn get_mapper_code(&self, pre: &Vec<char>, fragment: &ShapeWordFragment) -> (r: Option<&'static str>)
        ensures
            r matches Some(v) ==> rule_mapped(*self, pre@, fragment@) == Some(v@),
            r is None <==> rule_mapped(*self, pre@, fragment@) is None,
    {
        match self {
            ShapeRule::Z52From => Z52From.get_mapper_code(fragment),
            ShapeRule::Z52To => Z52To.get_mapper_code(fragment),
            ShapeRule::MenkShapeFrom => MenkShapeFrom.get_mapper_code(fragment),
            ShapeRule::MenkShapeTo => MenkShapeTo.get_mapper_code(pre, fragment),
        }
    }

    /// The context a neighbouring code point gives a fragment.
    pub fn get_char_type(&self, c: char) -> (r: Option<CharType>)
        ensures
            r == rule_char_type(*self, c),
    {
        match self {
            ShapeRule::Z52From => Z52From.get_char_type(c),
            ShapeRule::Z52To => Z52To.get_char_type(c),
            ShapeRule::MenkShapeFrom => MenkShapeFrom.get_char_type(c),
            ShapeRule::MenkShapeTo => MenkShapeTo.get_char_type(c),
        }
    }
}

} // verus!
