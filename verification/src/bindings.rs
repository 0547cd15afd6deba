//! The interface the foreign-language bindings (WebAssembly, Swift/Kotlin, C) present: encodings
//! named by strings, errors as their messages, and the repairs reported apart from the other
//! warnings.
use crate::code_type::{ascii_lower, code_named, CodeType};
use crate::error::{error_message, ErrorView};
use crate::router::{
    conversion, conversion_with_options, warning_message, warning_views, TranslationOptions, TranslationView,
    WarningView,
};
use crate::text::owned;
use vstd::prelude::*;

verus! {

/// An encoding name read as an encoding, or the message of the error naming it.
pub open spec fn named(name: Seq<char>) -> Result<CodeType, Seq<char>> {
    match code_named(ascii_lower(name)) {
        Some(ct) => Ok(ct),
        None => Err(error_message(ErrorView::UnsupportedEnumType(name))),
    }
}

/// Reads an encoding name; an unknown name is an error carrying its message.
pub fn parse_name(name: &str) -> (r: Result<CodeType, String>)
    ensures
        match named(name@) {
            Ok(ct) => r == Ok::<CodeType, String>(ct),
            Err(m) => r matches Err(e) && e@ == m,
        },
{
    match CodeType::get(name) {
        Ok(ct) => Ok(ct),
        Err(e) => Err(e.to_string()),
    }
}

/// What a conversion between named encodings gives: the text, or an error message.
pub open spec fn named_text(from: Seq<char>, to: Seq<char>, input: Seq<char>) -> Result<Seq<char>, Seq<char>> {
    match named(from) {
        Err(m) => Err(m),
        Ok(f) => match named(to) {
            Err(m) => Err(m),
            Ok(t) => match conversion(f, t, input, true) {
                Ok(v) => Ok(v.text),
                Err(e) => Err(error_message(e)),
            },
        },
    }
}

/// Converts `input` between two encodings given by name; errors come back as their messages.
pub fn translate(from: &str, to: &str, input: &str) -> (r: Result<String, String>)
    ensures
        match named_text(from@, to@, input@) {
            Ok(t) => r matches Ok(s) && s@ == t,
            Err(m) => r matches Err(e) && e@ == m,
        },
{
    let from = parse_name(from)?;
    let to = parse_name(to)?;
    match crate::router::translate(from, to, input) {
        Ok(text) => Ok(text),
        Err(e) => Err(e.to_string()),
    }
}

/// A finished conversion as the bindings present it: the text, the messages of the warnings,
/// and apart from them the messages of the repairs.
pub struct Translation {
    pub text: String,
    pub warnings: Vec<String>,
    pub repairs: Vec<String>,
}

/// The messages of the warnings that are not repairs, in order.
pub open spec fn other_messages(ws: Seq<WarningView>) -> Seq<Seq<char>>
    decreases ws.len(),
{
    if ws.len() == 0 {
        Seq::empty()
    } else if ws.last() is RepairedSuffixSeparator {
        other_messages(ws.drop_last())
    } else {
        other_messages(ws.drop_last()).push(warning_message(ws.last()))
    }
}

/// The messages of the repairs, in order.
pub open spec fn repair_messages(ws: Seq<WarningView>) -> Seq<Seq<char>>
    decreases ws.len(),
{
    if ws.len() == 0 {
        Seq::empty()
    } else if ws.last() is RepairedSuffixSeparator {
        repair_messages(ws.drop_last()).push(warning_message(ws.last()))
    } else {
        repair_messages(ws.drop_last())
    }
}

/// A list of strings as character sequences.
pub open spec fn messages_view(v: Seq<String>) -> Seq<Seq<char>> {
    v.map_values(|s: String| s@)
}

/// The bindings' view of a conversion: the repairs set apart from the other warnings.
pub open spec fn presented(t: TranslationView) -> (Seq<char>, Seq<Seq<char>>, Seq<Seq<char>>) {
    (t.text, other_messages(t.warnings), repair_messages(t.warnings))
}

/// Sets the repairs apart from the other warnings, each as its message.
pub fn finish(translation: crate::router::Translation) -> (r: Translation)
    ensures
        (r.text@, messages_view(r.warnings@), messages_view(r.repairs@)) == presented(translation@),
{
    let ghost ws = warning_views(translation.warnings@);
    let mut warnings: Vec<String> = Vec::new();
    let mut repairs: Vec<String> = Vec::new();
    for k in 0..translation.warnings.len()
        invariant
            ws == warning_views(translation.warnings@),
            messages_view(warnings@) == other_messages(ws.take(k as int)),
            messages_view(repairs@) == repair_messages(ws.take(k as int)),
    {
        let w = &translation.warnings[k];
        assert(ws.take(k + 1).drop_last() =~= ws.take(k as int));
        assert(ws.take(k + 1).last() == w@);
        let message = w.to_string();
        match w {
            crate::router::Warning::RepairedSuffixSeparator { .. } => {
                let ghost before = messages_view(repairs@);
                repairs.push(message);
                assert(messages_view(repairs@) =~= before.push(message@));
            },
            _ => {
                let ghost before = messages_view(warnings@);
                warnings.push(message);
                assert(messages_view(warnings@) =~= before.push(message@));
            },
        }
    }
    assert(ws.take(translation.warnings.len() as int) =~= ws);
    Translation { text: translation.text, warnings, repairs }
}

/// What a conversion between named encodings with the two switches gives: its presented view,
/// or an error message.
pub open spec fn named_translation(
    from: Seq<char>,
    to: Seq<char>,
    input: Seq<char>,
    options: TranslationOptions,
) -> Result<(Seq<char>, Seq<Seq<char>>, Seq<Seq<char>>), Seq<char>> {
    match named(from) {
        Err(m) => Err(m),
        Ok(f) => match named(to) {
            Err(m) => Err(m),
            Ok(t) => match conversion_with_options(f, t, input, options) {
                Ok(v) => Ok(presented(v)),
                Err(e) => Err(error_message(e)),
            },
        },
    }
}

/// Converts between named encodings with both input switches, the repairs set apart.
pub fn translate_with_all_options(
    from: &str,
    to: &str,
    input: &str,
    repair_suffix_separators: bool,
    restore_menk_shape_emoji: bool,
) -> (r: Result<Translation, String>)
    ensures
        match named_translation(
            from@,
            to@,
            input@,
            TranslationOptions { repair_suffix_separators, restore_menk_shape_emoji },
        ) {
            Ok(p) => r matches Ok(t) && (t.text@, messages_view(t.warnings@), messages_view(t.repairs@)) == p,
            Err(m) => r matches Err(e) && e@ == m,
        },
{
    let from = parse_name(from)?;
    let to = parse_name(to)?;
    let options = TranslationOptions { repair_suffix_separators, restore_menk_shape_emoji };
    match crate::router::translate_with_options(from, to, input, &options) {
        Ok(translation) => Ok(finish(translation)),
        Err(e) => Err(e.to_string()),
    }
}

/// Converts between named encodings, repairing the input when asked, the repairs set apart.
pub fn translate_with_options(from: &str, to: &str, input: &str, repair_suffix_separators: bool) -> (r: Result<
    Translation,
    String,
>)
    ensures
        match named_translation(
            from@,
            to@,
            input@,
            TranslationOptions { repair_suffix_separators, restore_menk_shape_emoji: true },
        ) {
            Ok(p) => r matches Ok(t) && (t.text@, messages_view(t.warnings@), messages_view(t.repairs@)) == p,
            Err(m) => r matches Err(e) && e@ == m,
        },
{
    translate_with_all_options(from, to, input, repair_suffix_separators, true)
}

/// Converts between named encodings and reports the warnings.
pub fn translate_with_warnings(from: &str, to: &str, input: &str) -> (r: Result<Translation, String>)
    ensures
        match named_translation(
            from@,
            to@,
            input@,
            TranslationOptions { repair_suffix_separators: false, restore_menk_shape_emoji: true },
        ) {
            Ok(p) => r matches Ok(t) && (t.text@, messages_view(t.warnings@), messages_view(t.repairs@)) == p,
            Err(m) => r matches Err(e) && e@ == m,
        },
{
    translate_with_all_options(from, to, input, false, true)
}

/// The library version, owned.
pub fn version() -> (r: String)
    ensures
        r@ == "0.7.1"@,
{
    owned(crate::version())
}

} // verus!
