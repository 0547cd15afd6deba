//! The error type of every conversion.
use crate::code_type::{debug_name, debug_name_of, CodeType};
use crate::text::{debug_quoted, debug_quoted_text, owned, push_str};
use vstd::prelude::*;

verus! {

/// Why a conversion could not be carried out.
///
/// A code point that no table maps is not an error: it passes through unchanged. `translate`
/// fails on a structural problem (an unsupported encoding, an unknown encoding name), when the
/// UTN #57 backend reports a failure, or with [`MongolConvertError::NotFoundInMapper`] where a
/// fragment the translators put together has no entry in the tables this crate holds.
#[derive(Debug, Clone, PartialEq, Eq)]
pub enum MongolConvertError {
    /// No translate rule is registered for this code.
    MissTranslateRule(CodeType),
    /// A fragment was popped while empty.
    NothingToPop,
    /// A key was not found in a mapper table.
    NotFoundInMapper(String),
    /// A code's series was neither letter nor shape.
    NotSupportedCodeSeries(CodeType),
    /// A string could not be parsed into a [`CodeType`].
    UnsupportedEnumType(String),
    /// Conversion involving this code is not supported.
    Unsupported(CodeType),
    /// Suffix separator repair accepts MenkLetter and Delehi source text only.
    UnsupportedInputRepair(CodeType),
    /// A UTN #57 conversion, either direction, failed.
    Utn57(String),
}

/// The mathematical value of a [`MongolConvertError`]: its strings as character sequences.
pub enum ErrorView {
    MissTranslateRule(CodeType),
    NothingToPop,
    NotFoundInMapper(Seq<char>),
    NotSupportedCodeSeries(CodeType),
    UnsupportedEnumType(Seq<char>),
    Unsupported(CodeType),
    UnsupportedInputRepair(CodeType),
    Utn57(Seq<char>),
}

impl View for MongolConvertError {
    type V = ErrorView;

    open spec fn view(&self) -> ErrorView {
        match self {
            MongolConvertError::MissTranslateRule(c) => ErrorView::MissTranslateRule(*c),
            MongolConvertError::NothingToPop => ErrorView::NothingToPop,
            MongolConvertError::NotFoundInMapper(k) => ErrorView::NotFoundInMapper(k@),
            MongolConvertError::NotSupportedCodeSeries(c) => ErrorView::NotSupportedCodeSeries(*c),
            MongolConvertError::UnsupportedEnumType(s) => ErrorView::UnsupportedEnumType(s@),
            MongolConvertError::Unsupported(c) => ErrorView::Unsupported(*c),
            MongolConvertError::UnsupportedInputRepair(c) => ErrorView::UnsupportedInputRepair(*c),
            MongolConvertError::Utn57(s) => ErrorView::Utn57(s@),
        }
    }
}

/// The human-readable message of an error.
pub open spec fn error_message(e: ErrorView) -> Seq<char> {
    match e {
        ErrorView::MissTranslateRule(c) => "missing translate rule for "@ + debug_name_of(c),
        ErrorView::NothingToPop => "nothing to pop"@,
        ErrorView::NotFoundInMapper(k) => "key not found in mapper: "@ + debug_quoted_text(k),
        ErrorView::NotSupportedCodeSeries(c) => "unsupported code series for "@ + debug_name_of(c),
        ErrorView::UnsupportedEnumType(s) => "unsupported encoding name: "@ + debug_quoted_text(s),
        ErrorView::Unsupported(c) => "conversion not supported for "@ + debug_name_of(c),
        ErrorView::UnsupportedInputRepair(c) => "suffix separator repair requires menk_letter or delehi input, got "@
            + debug_name_of(c),
        ErrorView::Utn57(s) => "UTN #57 conversion failed: "@ + s,
    }
}

impl MongolConvertError {
    /// The human-readable message of this error (what `Display` would write).
    pub fn to_string(&self) -> (r: String)
        ensures
            r@ == error_message(self@),
    {
        let (head, tail): (&str, String) = match self {
            MongolConvertError::MissTranslateRule(c) => ("missing translate rule for ", owned(debug_name(*c))),
            MongolConvertError::NothingToPop => ("nothing to pop", String::new()),
            MongolConvertError::NotFoundInMapper(k) => ("key not found in mapper: ", debug_quoted(k.as_str())),
            MongolConvertError::NotSupportedCodeSeries(c) => ("unsupported code series for ", owned(debug_name(*c))),
            MongolConvertError::UnsupportedEnumType(s) => ("unsupported encoding name: ", debug_quoted(s.as_str())),
            MongolConvertError::Unsupported(c) => ("conversion not supported for ", owned(debug_name(*c))),
            MongolConvertError::UnsupportedInputRepair(c) => (
                "suffix separator repair requires menk_letter or delehi input, got ",
                owned(debug_name(*c)),
            ),
            MongolConvertError::Utn57(s) => ("UTN #57 conversion failed: ", owned(s.as_str())),
        };
        let mut r = owned(head);
        push_str(&mut r, tail.as_str());
        r
    }
}

} // verus!

verus! {

/// The value of a conversion result: the text as characters, or the error's view.
pub open spec fn text_result(r: Result<String, MongolConvertError>) -> Result<Seq<char>, ErrorView> {
    match r {
        Ok(s) => Ok(s@),
        Err(e) => Err(e@),
    }
}

} // verus!
