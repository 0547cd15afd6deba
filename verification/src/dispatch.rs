//! Which rule reads or writes each encoding.
use crate::code_type::CodeType;
use crate::error::{ErrorView, MongolConvertError};
use crate::letter::rule::{LetterFromRule, LetterToRule};
use crate::shape::rule::ShapeRule;
use vstd::prelude::*;

verus! {

/// The shape rule reading an encoding, if it is one of the shape encodings.
pub open spec fn shape_from_rule_of(ct: CodeType) -> Option<ShapeRule> {
    match ct {
        CodeType::Z52 => Some(ShapeRule::Z52From),
        CodeType::MenkShape => Some(ShapeRule::MenkShapeFrom),
        _ => None,
    }
}

/// The shape rule writing an encoding, if it is one of the shape encodings.
pub open spec fn shape_to_rule_of(ct: CodeType) -> Option<ShapeRule> {
    match ct {
        CodeType::Z52 => Some(ShapeRule::Z52To),
        CodeType::MenkShape => Some(ShapeRule::MenkShapeTo),
        _ => None,
    }
}

/// The letter rule reading an encoding, if it is Delehi or MenkLetter.
pub open spec fn letter_from_rule_of(ct: CodeType) -> Option<LetterFromRule> {
    match ct {
        CodeType::Delehi => Some(LetterFromRule::Delehi),
        CodeType::MenkLetter => Some(LetterFromRule::MenkLetter),
        _ => None,
    }
}

/// The letter rule writing an encoding, if it is Delehi or MenkLetter.
pub open spec fn letter_to_rule_of(ct: CodeType) -> Option<LetterToRule> {
    match ct {
        CodeType::Delehi => Some(LetterToRule::Delehi),
        CodeType::MenkLetter => Some(LetterToRule::MenkLetter),
        _ => None,
    }
}

/// The shape rule reading `ct`; no rule for any other encoding.
pub fn shape_from_rule(ct: CodeType) -> (r: Result<ShapeRule, MongolConvertError>)
    ensures
        shape_from_rule_of(ct) matches Some(rule) ==> r == Ok::<ShapeRule, MongolConvertError>(rule),
        shape_from_rule_of(ct) is None ==> (r matches Err(e) && e@ == ErrorView::MissTranslateRule(ct)),
{
    match ct {
        CodeType::Z52 => Ok(ShapeRule::Z52From),
        CodeType::MenkShape => Ok(ShapeRule::MenkShapeFrom),
        _ => Err(MongolConvertError::MissTranslateRule(ct)),
    }
}

/// The shape rule writing `ct`; no rule for any other encoding.
pub fn shape_to_rule(ct: CodeType) -> (r: Result<ShapeRule, MongolConvertError>)
    ensures
        shape_to_rule_of(ct) matches Some(rule) ==> r == Ok::<ShapeRule, MongolConvertError>(rule),
        shape_to_rule_of(ct) is None ==> (r matches Err(e) && e@ == ErrorView::MissTranslateRule(ct)),
{
    match ct {
        CodeType::Z52 => Ok(ShapeRule::Z52To),
        CodeType::MenkShape => Ok(ShapeRule::MenkShapeTo),
        _ => Err(MongolConvertError::MissTranslateRule(ct)),
    }
}

/// The letter rule reading `ct`; no rule for any other encoding.
pub fn letter_from_rule(ct: CodeType) -> (r: Result<LetterFromRule, MongolConvertError>)
    ensures
        letter_from_rule_of(ct) matches Some(rule) ==> r == Ok::<LetterFromRule, MongolConvertError>(rule),
        letter_from_rule_of(ct) is None ==> (r matches Err(e) && e@ == ErrorView::MissTranslateRule(ct)),
{
    match ct {
        CodeType::Delehi => Ok(LetterFromRule::Delehi),
        CodeType::MenkLetter => Ok(LetterFromRule::MenkLetter),
        _ => Err(MongolConvertError::MissTranslateRule(ct)),
    }
}

/// The letter rule writing `ct`; no rule for any other encoding.
pub fn letter_to_rule(ct: CodeType) -> (r: Result<LetterToRule, MongolConvertError>)
    ensures
        letter_to_rule_of(ct) matches Some(rule) ==> r == Ok::<LetterToRule, MongolConvertError>(rule),
        letter_to_rule_of(ct) is None ==> (r matches Err(e) && e@ == ErrorView::MissTranslateRule(ct)),
{
    match ct {
        CodeType::Delehi => Ok(LetterToRule::Delehi),
        CodeType::MenkLetter => Ok(LetterToRule::MenkLetter),
        _ => Err(MongolConvertError::MissTranslateRule(ct)),
    }
}

} // verus!
