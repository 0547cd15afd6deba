//! Mongolian Unicode block predicates.
use crate::word::nature::Nature;
use vstd::prelude::*;

verus! {

pub const MONGOLIAN_A: char = '\u{1820}';
pub const MONGOLIAN_ZRA: char = '\u{183F}';
pub const FREE_VARIATION_SELECTOR_ONE: char = '\u{180B}';
pub const FREE_VARIATION_SELECTOR_THREE: char = '\u{180D}';
pub const VOWEL_SEPARATOR: char = '\u{180E}';
pub const NIRUGU: char = '\u{180A}';

/// The masculine vowels a, o, u.
pub open spec fn chagh(ch: char) -> bool {
    ch == '\u{1820}' || ch == '\u{1823}' || ch == '\u{1824}'
}

/// The feminine vowels e, ö, ü.
pub open spec fn hundii(ch: char) -> bool {
    ch == '\u{1821}' || ch == '\u{1825}' || ch == '\u{1826}'
}

/// The seven traditional vowels U+1820..=U+1826.
pub open spec fn traditional_ehshig(ch: char) -> bool {
    '\u{1820}' <= ch && ch <= '\u{1826}'
}

/// The vowels: the seven traditional ones and U+1827.
pub open spec fn ehshig(ch: char) -> bool {
    '\u{1820}' <= ch && ch <= '\u{1827}'
}

/// The consonants U+1828..=U+1842.
pub open spec fn giiguulegch(ch: char) -> bool {
    '\u{1828}' <= ch && ch <= '\u{1842}'
}

/// The letters U+1820..=U+183F.
pub open spec fn normal_letter(ch: char) -> bool {
    MONGOLIAN_A <= ch && ch <= MONGOLIAN_ZRA
}

/// The free variation selectors FVS1..=FVS3.
pub open spec fn free_variation_selector(ch: char) -> bool {
    FREE_VARIATION_SELECTOR_ONE <= ch && ch <= FREE_VARIATION_SELECTOR_THREE
}

/// The nature of a letter.
pub open spec fn code_nature(ch: char) -> Nature {
    if chagh(ch) {
        Nature::Chagh
    } else if hundii(ch) {
        Nature::Hundii
    } else {
        Nature::Saarmag
    }
}

/// a, o or u.
pub fn is_chagh(ch: char) -> (r: bool)
    ensures
        r == chagh(ch),
{
    ch == '\u{1820}' || ch == '\u{1823}' || ch == '\u{1824}'
}

/// e, ö or ü.
pub fn is_hundii(ch: char) -> (r: bool)
    ensures
        r == hundii(ch),
{
    ch == '\u{1821}' || ch == '\u{1825}' || ch == '\u{1826}'
}

/// A letter U+1820..=U+183F.
pub fn is_normal_letter(ch: char) -> (r: bool)
    ensures
        r == normal_letter(ch),
{
    MONGOLIAN_A <= ch && ch <= MONGOLIAN_ZRA
}

/// FVS1, FVS2 or FVS3.
pub fn is_free_variation_selector(ch: char) -> (r: bool)
    ensures
        r == free_variation_selector(ch),
{
    FREE_VARIATION_SELECTOR_ONE <= ch && ch <= FREE_VARIATION_SELECTOR_THREE
}

/// The Mongolian vowel separator U+180E.
pub fn is_vowel_separator(ch: char) -> (r: bool)
    ensures
        r == (ch == VOWEL_SEPARATOR),
{
    ch == VOWEL_SEPARATOR
}

/// Masculine, feminine, or (for everything else) neutral.
pub fn get_code_nature(ch: char) -> (r: Nature)
    ensures
        r == code_nature(ch),
{
    if is_chagh(ch) {
        Nature::Chagh
    } else if is_hundii(ch) {
        Nature::Hundii
    } else {
        Nature::Saarmag
    }
}

/// One of the seven traditional vowels.
fn in_ehshig_set(ch: char) -> (r: bool)
    ensures
        r == traditional_ehshig(ch),
{
    ch == '\u{1820}' || ch == '\u{1821}' || ch == '\u{1822}' || ch == '\u{1823}' || ch == '\u{1824}' || ch == '\u{1825}'
        || ch == '\u{1826}'
}

/// A vowel: U+1820..=U+1827.
pub fn is_ehshig(ch: char) -> (r: bool)
    ensures
        r == ehshig(ch),
{
    in_ehshig_set(ch) || ch == '\u{1827}'
}

/// A traditional vowel: U+1820..=U+1826, without U+1827.
pub fn is_traditional_ehshig(ch: char) -> (r: bool)
    ensures
        r == traditional_ehshig(ch),
{
    in_ehshig_set(ch)
}

/// A consonant: U+1828..=U+1842.
pub fn is_giiguulegch(ch: char) -> (r: bool)
    ensures
        r == giiguulegch(ch),
{
    ch >= '\u{1828}' && ch <= '\u{1842}'
}

/// The nirugu U+180A.
pub fn other_mongolian_code(ch: char) -> (r: bool)
    ensures
        r == (ch == NIRUGU),
{
    ch == NIRUGU
}

} // verus!
