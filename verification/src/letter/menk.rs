//! MenkLetter <-> ZVVNMOD.
//!
//! The writing rule is the most stateful of the library: once a word has met the hub code
//! `E031`, the next mapped text holding FVS3 + i has that pair written as a plain i, and a word
//! text already ending in FVS3 + i loses the selector when `E031` arrives.
use crate::code_mapper::{lookup, table_view, StaticMap};
use crate::error::{ErrorView, MongolConvertError};
use crate::letter::rule::{
    concat_and_202f, concat_connector, is_padded_nirugu, is_word_connector, padded_nirugu, WORD_CONNECTOR,
};
use crate::tables::from_menk_letter::{
    FROM_MENK_LETTER, FROM_MENK_LETTER_CHAGH, FROM_MENK_LETTER_HUNDII, FROM_MENK_LETTER_SAARMAG,
    FROM_MENK_LETTER_W_WITH_EHSHIG,
};
use crate::tables::to_menk_letter::{TO_MENK_LETTER, TO_MENK_LETTER_CHAGH, TO_MENK_LETTER_HUNDII};
use crate::text::{chars_of, str_contains_char, str_eq};
use crate::unicode::{mgl, zvvnmod};
use crate::word::nature::Nature;
use crate::word::shape_word::{shape_frag_views, ShapeFragView, ShapeWord};
use vstd::prelude::*;

verus! {

broadcast use vstd::string::group_string_axioms;

/// The MenkLetter -> hub mapper for every nature.
pub open spec fn from_menk_letter_map() -> Seq<(Seq<char>, Seq<char>)> {
    table_view(FROM_MENK_LETTER@)
}

/// The MenkLetter -> hub mapper for words of nature `n`.
pub open spec fn from_menk_letter_nature_map(n: Nature) -> Seq<(Seq<char>, Seq<char>)> {
    match n {
        Nature::Chagh => table_view(FROM_MENK_LETTER_CHAGH@),
        Nature::Hundii => table_view(FROM_MENK_LETTER_HUNDII@),
        Nature::Saarmag => table_view(FROM_MENK_LETTER_SAARMAG@),
    }
}

/// The vowels a, e, o, u that make a following medial i a doubled hub i (i itself is not one).
pub open spec fn menk_double_i_vowel(c: char) -> bool {
    c == '\u{1820}' || c == '\u{1821}' || c == '\u{1823}' || c == '\u{1824}'
}

/// A medial i or the letter U+1836 after such a vowel: two hub i's, or nothing when it repeats an
/// i that already followed one.
pub open spec fn menk_devsger_i(pre: Seq<char>, key: Seq<char>) -> Option<Seq<char>> {
    if !(key == "\u{1836}"@ || key == "\u{1822}"@) || pre.len() == 0 {
        None
    } else if key == "\u{1822}"@ && (pre.last() == '\u{1822}' || pre.last() == '\u{1836}') && pre.len() > 2
        && menk_double_i_vowel(pre[pre.len() - 2]) {
        Some(""@)
    } else if menk_double_i_vowel(pre.last()) {
        Some("\u{e006}\u{e006}"@)
    } else {
        None
    }
}

/// A key holding w after a vowel: the mapper for w after a vowel.
pub open spec fn menk_w(pre: Seq<char>, key: Seq<char>) -> Option<Seq<char>> {
    if key.contains('\u{1838}') && pre.len() > 0 && mgl::ehshig(pre.last()) {
        lookup(table_view(FROM_MENK_LETTER_W_WITH_EHSHIG@), key)
    } else {
        None
    }
}

/// A lone t before a consonant is the hub's `E043`.
pub open spec fn menk_t(suf: Seq<char>, key: Seq<char>) -> Option<Seq<char>> {
    if key == "\u{1832}"@ && suf.len() > 0 && mgl::giiguulegch(suf[0]) {
        Some("\u{e043}"@)
    } else {
        None
    }
}

/// A lone g before a consonant: a doubled hub `E005` in a masculine word, else `E031`.
pub open spec fn menk_g(suf: Seq<char>, key: Seq<char>, n: Nature) -> Option<Seq<char>> {
    if key == "\u{182d}"@ && suf.len() > 0 && mgl::giiguulegch(suf[0]) {
        Some(if n == Nature::Chagh { "\u{e005}\u{e005}"@ } else { "\u{e031}"@ })
    } else {
        None
    }
}

/// The hub text for a MenkLetter locate key, between the letters `pre` before it and `suf` of the
/// next fragment, in a word of nature `n`.
pub open spec fn menk_from_mapped(pre: Seq<char>, suf: Seq<char>, key: Seq<char>, n: Nature) -> Option<Seq<char>> {
    if padded_nirugu(key) {
        Some("\u{180a}"@)
    } else if menk_devsger_i(pre, key) is Some {
        menk_devsger_i(pre, key)
    } else if menk_w(pre, key) is Some {
        menk_w(pre, key)
    } else if menk_t(suf, key) is Some {
        menk_t(suf, key)
    } else if menk_g(suf, key, n) is Some {
        menk_g(suf, key, n)
    } else if lookup(from_menk_letter_map(), key) is Some {
        lookup(from_menk_letter_map(), key)
    } else {
        lookup(from_menk_letter_nature_map(n), key)
    }
}

/// Whether a MenkLetter locate key can be mapped at all.
pub open spec fn menk_from_contains(key: Seq<char>) -> bool {
    lookup(from_menk_letter_map(), key) is Some || lookup(table_view(FROM_MENK_LETTER_CHAGH@), key) is Some
}

/// The rule reading MenkLetter text.
pub struct MenkLetterFrom;

impl MenkLetterFrom {
    /// The hub text for a locate key, between the letters `pre` before it and `suf` of the next
    /// fragment.
    pub fn get_mapper_code(&self, pre: &Vec<char>, suf: &[char], key: &str, nature: Nature) -> (r: Option<&'static str>)
        ensures
            r matches Some(v) ==> menk_from_mapped(pre@, suf@, key@, nature) == Some(v@),
            r is None <==> menk_from_mapped(pre@, suf@, key@, nature) is None,
    {
        if is_padded_nirugu(key) {
            return Some("\u{180a}");
        }
        if let Some(r) = resolve_devsger_i(pre, key) {
            return Some(r);
        }
        if let Some(r) = resolve_w(pre, key) {
            return Some(r);
        }
        if let Some(r) = resolve_t(suf, key) {
            return Some(r);
        }
        if let Some(r) = resolve_g(suf, key, nature) {
            return Some(r);
        }
        if let Some(r) = StaticMap::new(&FROM_MENK_LETTER).get(key) {
            return Some(r);
        }
        match nature {
            Nature::Chagh => StaticMap::new(&FROM_MENK_LETTER_CHAGH).get(key),
            Nature::Hundii => StaticMap::new(&FROM_MENK_LETTER_HUNDII).get(key),
            Nature::Saarmag => StaticMap::new(&FROM_MENK_LETTER_SAARMAG).get(key),
        }
    }

    /// Whether the key is mapped by the common or the masculine mapper.
    pub fn contains(&self, key: &str) -> (r: bool)
        ensures
            r == menk_from_contains(key@),
    {
        StaticMap::new(&FROM_MENK_LETTER).contains_key(key) || StaticMap::new(&FROM_MENK_LETTER_CHAGH).contains_key(
            key,
        )
    }

    /// The nature of a letter.
    pub fn get_code_nature(&self, c: char) -> (r: Nature)
        ensures
            r == mgl::code_nature(c),
    {
        mgl::get_code_nature(c)
    }

    /// Word characters and the word connector take part in translation.
    pub fn is_translate_code_point(&self, c: char) -> (r: bool)
        ensures
            r == (crate::letter::delehi::delehi_word_char(c) || c == WORD_CONNECTOR),
    {
        mgl::is_normal_letter(c) || mgl::is_free_variation_selector(c) || mgl::is_vowel_separator(c)
            || is_word_connector(c) || mgl::other_mongolian_code(c)
    }

    /// The characters that make up a word (the same set as Delehi's).
    pub fn is_word_code_point(&self, c: char) -> (r: bool)
        ensures
            r == crate::letter::delehi::delehi_word_char(c),
    {
        mgl::is_normal_letter(c) || mgl::is_free_variation_selector(c) || mgl::is_vowel_separator(c)
            || mgl::other_mongolian_code(c)
    }
}

/// Whether `c` is a, e, o or u.
fn is_menk_double_i_vowel(c: char) -> (r: bool)
    ensures
        r == menk_double_i_vowel(c),
{
    c == '\u{1820}' || c == '\u{1821}' || c == '\u{1823}' || c == '\u{1824}'
}

/// A medial i (or U+1836) after a, e, o or u.
pub fn resolve_devsger_i(pre: &Vec<char>, s: &str) -> (r: Option<&'static str>)
    ensures
        r matches Some(v) ==> menk_devsger_i(pre@, s@) == Some(v@),
        r is None <==> menk_devsger_i(pre@, s@) is None,
{
    let is_i = str_eq(s, "\u{1822}");
    if !str_eq(s, "\u{1836}") && !is_i {
        return None;
    }
    if pre.len() == 0 {
        return None;
    }
    let c = pre[pre.len() - 1];
    if is_i && (c == '\u{1822}' || c == '\u{1836}') && pre.len() > 2 {
        let pre2 = pre[pre.len() - 2];
        if is_menk_double_i_vowel(pre2) {
            return Some("");
        }
    }
    if is_menk_double_i_vowel(c) {
        return Some("\u{e006}\u{e006}");
    }
    None
}

/// A key with w after a vowel.
pub fn resolve_w(pre: &Vec<char>, s: &str) -> (r: Option<&'static str>)
    ensures
        r matches Some(v) ==> menk_w(pre@, s@) == Some(v@),
        r is None <==> menk_w(pre@, s@) is None,
{
    if !str_contains_char(s, '\u{1838}') {
        return None;
    }
    if pre.len() == 0 {
        return None;
    }
    let c = pre[pre.len() - 1];
    if mgl::is_ehshig(c) {
        return StaticMap::new(&FROM_MENK_LETTER_W_WITH_EHSHIG).get(s);
    }
    None
}

/// A lone t before a consonant.
pub fn resolve_t(suf: &[char], s: &str) -> (r: Option<&'static str>)
    ensures
        r matches Some(v) ==> menk_t(suf@, s@) == Some(v@),
        r is None <==> menk_t(suf@, s@) is None,
{
    if str_eq(s, "\u{1832}") && suf.len() > 0 && mgl::is_giiguulegch(suf[0]) {
        return Some("\u{e043}");
    }
    None
}

/// A lone g before a consonant.
pub fn resolve_g(suf: &[char], s: &str, nature: Nature) -> (r: Option<&'static str>)
    ensures
        r matches Some(v) ==> menk_g(suf@, s@, nature) == Some(v@),
        r is None <==> menk_g(suf@, s@, nature) is None,
{
    if str_eq(s, "\u{182d}") && suf.len() > 0 && mgl::is_giiguulegch(suf[0]) {
        return Some(
            if nature == Nature::Chagh {
                "\u{e005}\u{e005}"
            } else {
                "\u{e031}"
            },
        );
    }
    None
}

/// The common hub -> MenkLetter mapper.
pub open spec fn to_menk_letter_map() -> Seq<(Seq<char>, Seq<char>)> {
    table_view(TO_MENK_LETTER@)
}

/// The final `E00C` after the word text `pre`: `n` after a vowel, else a masculine or feminine a.
pub open spec fn menk_ue00c(pre: Seq<char>, key: Seq<char>, n: Nature) -> Option<Seq<char>> {
    if key != "\u{e00c}"@ {
        None
    } else if pre.len() > 0 && mgl::traditional_ehshig(pre.last()) {
        Some("\u{1828}"@)
    } else if n == Nature::Chagh {
        Some("\u{1820}"@)
    } else {
        Some("\u{1821}"@)
    }
}

/// `E011` right after a word text of one consonant: u, with FVS1 unless the consonant is t, d or
/// ch.
pub open spec fn menk_single_gii(pre: Seq<char>, key: Seq<char>) -> Option<Seq<char>> {
    if key == "\u{e011}"@ && pre.len() == 1 && mgl::giiguulegch(pre[0]) {
        Some(if '\u{1832}' <= pre[0] && pre[0] <= '\u{1834}' { "\u{1824}"@ } else { "\u{1824}\u{180b}"@ })
    } else {
        None
    }
}

/// The MenkLetter text of a hub key after the word text `pre`, in a word of nature `n`: the two
/// context rules, then the nature's mapper unless it has nothing (or only an empty text) for the
/// key, then the common mapper.
pub open spec fn menk_for_key(pre: Seq<char>, key: Seq<char>, n: Nature) -> Option<Seq<char>> {
    if menk_ue00c(pre, key, n) is Some {
        menk_ue00c(pre, key, n)
    } else if menk_single_gii(pre, key) is Some {
        menk_single_gii(pre, key)
    } else {
        let m = if n == Nature::Chagh {
            lookup(table_view(TO_MENK_LETTER_CHAGH@), key)
        } else {
            lookup(table_view(TO_MENK_LETTER_HUNDII@), key)
        };
        if m matches Some(v) && v.len() > 0 {
            m
        } else {
            lookup(to_menk_letter_map(), key)
        }
    }
}

/// FVS3 followed by i.
pub open spec fn fvs3_i_at(v: Seq<char>, i: int) -> bool {
    0 <= i && i + 1 < v.len() && v[i] == '\u{180d}' && v[i + 1] == '\u{1822}'
}

/// Whether `v` holds FVS3 + i somewhere.
pub open spec fn has_fvs3_i(v: Seq<char>) -> bool {
    exists|i: int| #[trigger] fvs3_i_at(v, i)
}

/// `v` with each FVS3 + i, read left to right, written as a plain i.
pub open spec fn replace_fvs3_i(v: Seq<char>) -> Seq<char>
    decreases v.len(),
{
    if v.len() == 0 {
        v
    } else if fvs3_i_at(v, 0) {
        seq!['\u{1822}'] + replace_fvs3_i(v.skip(2))
    } else {
        seq![v[0]] + replace_fvs3_i(v.skip(1))
    }
}

/// The MenkLetter text of a word's fragments from index `i` on, after the word text `s`, with
/// `ue031` set once the word has met `E031` and not yet rewritten an FVS3 + i.
pub open spec fn menk_word_from(f: Seq<ShapeFragView>, n: Nature, i: int, s: Seq<char>, ue031: bool) -> Result<Seq<char>, ErrorView>
    decreases f.len() - i,
{
    if i < 0 || i >= f.len() {
        Ok(s)
    } else {
        let key = f[i].content;
        let mapped = menk_for_key(s, key, n);
        let meets = key == "\u{e031}"@;
        let s1 = if meets && fvs3_i_at(s, s.len() - 2) {
            s.take(s.len() - 2).push('\u{1822}')
        } else {
            s
        };
        let flag = ue031 || meets;
        let rewrite = flag && (mapped matches Some(v) && has_fvs3_i(v));
        match mapped {
            Some(v) => menk_word_from(
                f,
                n,
                i + 1,
                concat_connector(s1, if rewrite { replace_fvs3_i(v) } else { v }),
                if rewrite { false } else { flag },
            ),
            None => Err(ErrorView::NotFoundInMapper(key)),
        }
    }
}

/// The MenkLetter text of a word of nature `n`.
pub open spec fn menk_word(f: Seq<ShapeFragView>, n: Nature) -> Result<Seq<char>, ErrorView> {
    menk_word_from(f, n, 0, Seq::empty(), false)
}

/// Whether the MenkLetter writer maps a hub key.
pub open spec fn menk_to_contains(key: Seq<char>) -> bool {
    lookup(table_view(TO_MENK_LETTER_CHAGH@), key) is Some || lookup(to_menk_letter_map(), key) is Some
}

/// The rule writing MenkLetter text.
pub struct MenkLetterTo;

impl MenkLetterTo {
    /// Writes the MenkLetter text of `word` after `builder`; its leading connector replaces a
    /// boundary at the end of `builder`.
    pub fn get_mapper_code(&self, builder: &mut Vec<char>, word: &ShapeWord) -> (r: Result<(), MongolConvertError>)
        ensures
            match menk_word(shape_frag_views(word.fragments@), word.nature) {
                Ok(s) => r is Ok && final(builder)@ == concat_connector(old(builder)@, s),
                Err(e) => r matches Err(x) && x@ == e && final(builder)@ == old(builder)@,
            },
    {
        let ghost f = shape_frag_views(word.fragments@);
        let mut s: Vec<char> = Vec::new();
        let mut ue031 = false;
        for idx in 0..word.fragments.len()
            invariant
                f == shape_frag_views(word.fragments@),
                menk_word(f, word.nature) == menk_word_from(f, word.nature, idx as int, s@, ue031),
        {
            let fragment = &word.fragments[idx];
            assert(f[idx as int] == fragment@);
            let key = fragment.get_key();
            let mapped = get_menk(&s, key.as_str(), word.nature);
            let mut s1: Option<Vec<char>> = match mapped {
                Some(v) => Some(chars_of(v)),
                None => None,
            };
            if str_eq(key.as_str(), "\u{e031}") {
                ue031 = true;
                let n = s.len();
                if n >= 2 && s[n - 2] == '\u{180d}' && s[n - 1] == '\u{1822}' {
                    let mut t: Vec<char> = Vec::new();
                    for k in 0..n - 2
                        invariant
                            n == s.len(),
                            n >= 2,
                            t@ == s@.take(k as int),
                    {
                        t.push(s[k]);
                        assert(s@.take(k + 1) == s@.take(k as int).push(s@[k as int]));
                    }
                    t.push('\u{1822}');
                    s = t;
                }
            }
            if ue031 {
                if let Some(v) = &s1 {
                    if contains_fvs3_i(v) {
                        ue031 = false;
                        s1 = Some(replace_fvs3_i_vec(v));
                    }
                }
            }
            let v = match s1 {
                Some(v) => v,
                None => return Err(MongolConvertError::NotFoundInMapper(key)),
            };
            s = concat_and_202f(&s, &v);
        }
        let merged = concat_and_202f(builder, &s);
        *builder = merged;
        Ok(())
    }

    /// Whether the hub key has a MenkLetter spelling.
    pub fn contains(&self, key: &str) -> (r: bool)
        ensures
            r == menk_to_contains(key@),
    {
        StaticMap::new(&TO_MENK_LETTER_CHAGH).contains_key(key) || StaticMap::new(&TO_MENK_LETTER).contains_key(key)
    }

    /// Hub glyph codes take part in translation.
    pub fn is_translate_code_point(&self, c: char) -> (r: bool)
        ensures
            r == zvvnmod::zvvnmod_code(c),
    {
        zvvnmod::is_zvvnmod_code(c)
    }
}

/// The MenkLetter text of one hub key after the word text `pre`.
pub fn get_menk(pre: &Vec<char>, s: &str, nature: Nature) -> (r: Option<&'static str>)
    ensures
        r matches Some(v) ==> menk_for_key(pre@, s@, nature) == Some(v@),
        r is None <==> menk_for_key(pre@, s@, nature) is None,
{
    if let Some(r) = resolve_ue00c_menk(pre, s, nature) {
        return Some(r);
    }
    if let Some(r) = resolve_single_gii_and_ue011(pre, s) {
        return Some(r);
    }
    let m = if nature == Nature::Chagh {
        StaticMap::new(&TO_MENK_LETTER_CHAGH).get(s)
    } else {
        StaticMap::new(&TO_MENK_LETTER_HUNDII).get(s)
    };
    match m {
        Some(v) if v.len() > 0 => Some(v),
        _ => StaticMap::new(&TO_MENK_LETTER).get(s),
    }
}

/// The final `E00C`: n after a vowel, else a or e by the word's nature.
pub fn resolve_ue00c_menk(pre: &Vec<char>, s: &str, nature: Nature) -> (r: Option<&'static str>)
    ensures
        r matches Some(v) ==> menk_ue00c(pre@, s@, nature) == Some(v@),
        r is None <==> menk_ue00c(pre@, s@, nature) is None,
{
    if !str_eq(s, "\u{e00c}") {
        return None;
    }
    if pre.len() > 0 && mgl::is_traditional_ehshig(pre[pre.len() - 1]) {
        Some("\u{1828}")
    } else if nature == Nature::Chagh {
        Some("\u{1820}")
    } else {
        Some("\u{1821}")
    }
}

/// `E011` after a lone consonant.
pub fn resolve_single_gii_and_ue011(pre: &Vec<char>, s: &str) -> (r: Option<&'static str>)
    ensures
        r matches Some(v) ==> menk_single_gii(pre@, s@) == Some(v@),
        r is None <==> menk_single_gii(pre@, s@) is None,
{
    if !str_eq(s, "\u{e011}") || pre.len() != 1 {
        return None;
    }
    let ch = pre[0];
    if mgl::is_giiguulegch(ch) {
        return Some(
            if '\u{1832}' <= ch && ch <= '\u{1834}' {
                "\u{1824}"
            } else {
                "\u{1824}\u{180b}"
            },
        );
    }
    None
}

/// Whether `v` holds FVS3 + i.
pub fn contains_fvs3_i(v: &Vec<char>) -> (r: bool)
    ensures
        r == has_fvs3_i(v@),
{
    if v.len() < 2 {
        assert(!has_fvs3_i(v@));
        return false;
    }
    for i in 0..v.len() - 1
        invariant
            v.len() >= 2,
            forall|j: int| 0 <= j < i ==> !#[trigger] fvs3_i_at(v@, j),
    {
        if v[i] == '\u{180d}' && v[i + 1] == '\u{1822}' {
            assert(fvs3_i_at(v@, i as int));
            return true;
        }
    }
    assert forall|j: int| !#[trigger] fvs3_i_at(v@, j) by {
        if 0 <= j < v.len() - 1 {
        }
    }
    false
}

/// `v` with each FVS3 + i written as a plain i.
pub fn replace_fvs3_i_vec(v: &Vec<char>) -> (r: Vec<char>)
    ensures
        r@ == replace_fvs3_i(v@),
{
    let mut out: Vec<char> = Vec::new();
    let mut j: usize = 0;
    assert(v@.skip(0) =~= v@);
    while j < v.len()
        invariant
            j <= v.len(),
            out@ + replace_fvs3_i(v@.skip(j as int)) == replace_fvs3_i(v@),
        decreases v.len() - j,
    {
        let ghost rest = v@.skip(j as int);
        if j + 1 < v.len() && v[j] == '\u{180d}' && v[j + 1] == '\u{1822}' {
            assert(fvs3_i_at(rest, 0));
            assert(rest.skip(2) =~= v@.skip(j + 2));
            out.push('\u{1822}');
            assert(out@ + replace_fvs3_i(v@.skip(j + 2)) =~= replace_fvs3_i(v@));
            j += 2;
        } else {
            assert(!fvs3_i_at(rest, 0));
            assert(rest.skip(1) =~= v@.skip(j + 1));
            assert(rest[0] == v@[j as int]);
            out.push(v[j]);
            assert(out@ + replace_fvs3_i(v@.skip(j + 1)) =~= replace_fvs3_i(v@));
            j += 1;
        }
    }
    assert(v@.skip(j as int) =~= Seq::<char>::empty());
    assert(out@ =~= out@ + replace_fvs3_i(v@.skip(j as int)));
    out
}

} // verus!
