//! The UTN #57 backend: the `zvvnmod-utn57` crate and the `mongol-norm` shaper it re-exports.
//!
//! Each item here makes one call into those crates. What the calls compute takes their own pages
//! of tables to state, and depends on nothing but the arguments, so each result is given a name;
//! errors come back as the crate's own message.
use vstd::prelude::*;
use zvvnmod_utn57::mongol_norm::{Locale, Shaper, WrittenUnit};

verus! {

/// A text result as character sequences.
pub open spec fn string_result(r: Result<String, String>) -> Result<Seq<char>, Seq<char>> {
    match r {
        Ok(s) => Ok(s@),
        Err(e) => Err(e@),
    }
}

/// A list of strings as character sequences.
pub open spec fn strings_view(v: Seq<String>) -> Seq<Seq<char>> {
    v.map_values(|s: String| s@)
}

/// A result holding a list of names, as character sequences.
pub open spec fn names_result(r: Result<Vec<String>, String>) -> Result<Seq<Seq<char>>, Seq<char>> {
    match r {
        Ok(v) => Ok(strings_view(v@)),
        Err(e) => Err(e@),
    }
}

/// A conversion result with its warnings, as character sequences.
pub open spec fn conversion_result(r: Result<(String, Vec<String>), String>) -> Result<(Seq<char>, Seq<Seq<char>>), Seq<char>> {
    match r {
        Ok((t, w)) => Ok((t@, strings_view(w@))),
        Err(e) => Err(e@),
    }
}

/// The characters `mongol-norm` counts as part of a Mongolian word: the Mongolian block
/// U+180A..=U+18AF without its digits U+1810..=U+1819 (that is, letters, nirugu, variation
/// selectors and vowel separator), and ZWJ and NNBSP. The punctuation U+1800..=U+1809 is out.
pub open spec fn mongolian_word_char(c: char) -> bool {
    ('\u{180A}' <= c && c <= '\u{18AF}' && !('\u{1810}' <= c && c <= '\u{1819}')) || c == '\u{200D}' || c == '\u{202F}'
}

/// `mongol_norm::is_mongolian_word_char`: a Mongolian letter (any code of U+1800..=U+18AF that
/// is not punctuation U+1800..=U+1809, nirugu, a selector, the vowel separator or a digit), a
/// selector FVS1..FVS4, the vowel separator, NNBSP, the nirugu or ZWJ. The contract restates that
/// classification over code-point ranges.
#[verifier::external_body]
pub(crate) fn is_mongolian_word_char(c: char) -> (r: bool)
    ensures
        r == mongolian_word_char(c),
{
    zvvnmod_utn57::mongol_norm::is_mongolian_word_char(c)
}

/// What `zvvnmod_utn57::convert_utn57_to_zvvnmod` makes of a text: the hub text, or the
/// crate's error message.
pub uninterp spec fn utn57_to_hub(s: Seq<char>) -> Result<Seq<char>, Seq<char>>;

/// `zvvnmod_utn57::convert_utn57_to_zvvnmod`: UTN #57 text to the hub, its error as its message.
/// The contract names the result; nothing else about it is stated.
#[verifier::external_body]
pub(crate) fn convert_utn57_to_zvvnmod(s: &str) -> (r: Result<String, String>)
    ensures
        string_result(r) == utn57_to_hub(s@),
{
    match zvvnmod_utn57::convert_utn57_to_zvvnmod(s) {
        Ok(text) => Ok(text),
        Err(error) => Err(error.to_string()),
    }
}

/// What `zvvnmod_utn57::convert_zvvnmod_to_utn57_with_warnings` makes of a hub text: the UTN #57
/// text with each warning's message, or the crate's error message.
pub uninterp spec fn hub_to_utn57(s: Seq<char>) -> Result<(Seq<char>, Seq<Seq<char>>), Seq<char>>;

/// `zvvnmod_utn57::convert_zvvnmod_to_utn57_with_warnings`: the hub to UTN #57 text, with the
/// messages of its warnings in order; its error as its message. The contract names the result.
#[verifier::external_body]
pub(crate) fn convert_zvvnmod_to_utn57_with_warnings(s: &str) -> (r: Result<(String, Vec<String>), String>)
    ensures
        conversion_result(r) == hub_to_utn57(s@),
{
    match zvvnmod_utn57::convert_zvvnmod_to_utn57_with_warnings(s) {
        Ok(conversion) => {
            let mut warnings = Vec::new();
            for warning in conversion.warnings.iter() {
                warnings.push(warning.to_string());
            }
            Ok((conversion.text, warnings))
        },
        Err(error) => Err(error.to_string()),
    }
}

/// What the Hudum (`Locale::Mng`) shaper's `shape` makes of a word: the names of its written
/// units, or the shaper's error message.
pub uninterp spec fn written_units_of(word: Seq<char>) -> Result<Seq<Seq<char>>, Seq<char>>;

/// `mongol_norm::Shaper::shape` on a Hudum shaper: the written units of a word, each by its name
/// (`WrittenUnit::as_str`); the error as its message. The contract names the result.
#[verifier::external_body]
pub(crate) fn shape_written_units(word: &str) -> (r: Result<Vec<String>, String>)
    ensures
        names_result(r) == written_units_of(word@),
{
    match Shaper::new(Locale::Mng).shape(word) {
        Ok(units) => {
            let mut names = Vec::new();
            for unit in units {
                names.push(unit.as_str().to_string());
            }
            Ok(names)
        },
        Err(error) => Err(error.to_string()),
    }
}

/// What the Hudum shaper's `parse_written_units` reads in a spelled word: the names of the
/// written units, or the shaper's error message.
pub uninterp spec fn parsed_unit_names(spelled: Seq<char>) -> Result<Seq<Seq<char>>, Seq<char>>;

/// `mongol_norm::Shaper::parse_written_units` on a Hudum shaper: a compact (`SAIIA`) or joined
/// (`S+A+I+I+A`) spelling read as written units, each by its name; the error as its message. The
/// contract names the result.
#[verifier::external_body]
pub(crate) fn parse_written_units(spelled: &str) -> (r: Result<Vec<String>, String>)
    ensures
        names_result(r) == parsed_unit_names(spelled@),
{
    match Shaper::new(Locale::Mng).parse_written_units(spelled) {
        Ok(units) => {
            let mut names = Vec::new();
            for unit in units {
                names.push(unit.as_str().to_string());
            }
            Ok(names)
        },
        Err(error) => Err(error.to_string()),
    }
}

/// What the Hudum shaper's `normalize_written_units` spells for the written units with these
/// names: the canonical UTN #57 text, or the error message.
pub uninterp spec fn canonical_spelling_of(names: Seq<Seq<char>>) -> Result<Seq<char>, Seq<char>>;

/// `mongol_norm::Shaper::normalize_written_units` on a Hudum shaper, the units given by their
/// names (each read back with `WrittenUnit`'s `FromStr`): the canonical UTN #57 spelling; an
/// error as its message. The contract names the result.
#[verifier::external_body]
pub(crate) fn normalize_written_units(names: &Vec<String>) -> (r: Result<String, String>)
    ensures
        string_result(r) == canonical_spelling_of(strings_view(names@)),
{
    let mut units: Vec<WrittenUnit> = Vec::new();
    for name in names.iter() {
        match name.parse::<WrittenUnit>() {
            Ok(unit) => units.push(unit),
            Err(error) => return Err(error.to_string()),
        }
    }
    match Shaper::new(Locale::Mng).normalize_written_units(&units) {
        Ok(text) => Ok(text),
        Err(error) => Err(error.to_string()),
    }
}

} // verus!
