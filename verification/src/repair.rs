//! Optional input repair, before source decoding.
//!
//! This is a spelling heuristic, not a morphological analyser: a single ordinary or no-break
//! space before one of a small allowlist of detached suffixes becomes the narrow no-break space
//! that marks a suffix boundary. Forms that are also independent words are accepted only in the
//! stem contexts where an ordinary space before them is almost always damage.
use crate::code_type::CodeType;
use crate::error::{ErrorView, MongolConvertError};
use crate::router::{warning_views, Warning, WarningView};
use crate::text::{char_byte_offsets, chars_of, is_whitespace, str_eq, string_of, utf8_offset, white_space};
use vstd::prelude::*;

verus! {

broadcast use vstd::string::group_string_axioms;

/// The recognised suffixes, in MenkLetter/Delehi letter spelling. No selector is stripped to make
/// a match: a selector may carry information this heuristic does not understand.
pub const SUFFIXES: [&'static str; 54] = [
    "\u{1836}\u{1822}\u{1828}",
    "\u{1824}\u{1828}",
    "\u{1826}\u{1828}",
    "\u{1824}",
    "\u{1826}", // genitive
    "\u{1836}\u{1822}",
    "\u{1822}", // accusative
    "\u{1833}\u{1824}",
    "\u{1833}\u{1826}",
    "\u{1832}\u{1824}",
    "\u{1832}\u{1826}",
    "\u{1833}\u{1824}\u{1837}",
    "\u{1833}\u{1826}\u{1837}",
    "\u{1832}\u{1824}\u{1837}",
    "\u{1832}\u{1826}\u{1837}", // dative
    "\u{1820}\u{1834}\u{1820}",
    "\u{1821}\u{1834}\u{1821}", // ablative
    "\u{1822}\u{1836}\u{1820}\u{1837}",
    "\u{1822}\u{1836}\u{1821}\u{1837}", // instrumental (bar/ber are listed below)
    "\u{1822}\u{1836}\u{1820}\u{1828}",
    "\u{1822}\u{1836}\u{1821}\u{1828}", // reflexive
    "\u{182F}\u{1824}\u{182D}\u{180E}\u{1820}",
    "\u{182F}\u{1826}\u{182D}\u{1821}", // comitative; the internal MVS of luγ-a is kept
    "\u{1828}\u{1824}\u{182D}\u{1824}\u{1833}",
    "\u{1828}\u{1826}\u{182D}\u{1826}\u{1833}",
    "\u{1824}\u{1833}",
    "\u{1826}\u{1833}", // plural
    "\u{1833}\u{1820}\u{182D}\u{1820}\u{1828}",
    "\u{1833}\u{1821}\u{182D}\u{1821}\u{1828}",
    "\u{1832}\u{1820}\u{182D}\u{1820}\u{1828}",
    "\u{1832}\u{1821}\u{182D}\u{1821}\u{1828}", // reflexive dative
    "\u{1836}\u{1824}\u{182D}\u{1820}\u{1828}",
    "\u{1836}\u{1826}\u{182D}\u{1821}\u{1828}", // reflexive accusative
    "\u{1820}\u{1834}\u{1820}\u{182D}\u{1820}\u{1828}",
    "\u{1821}\u{1834}\u{1821}\u{182D}\u{1821}\u{1828}", // reflexive ablative
    "\u{1833}\u{1824}\u{1828}\u{1822}",
    "\u{1833}\u{1826}\u{1828}\u{1822}",
    "\u{1832}\u{1824}\u{1828}\u{1822}",
    "\u{1832}\u{1826}\u{1828}\u{1822}", // possessive dative
    "\u{1833}\u{1820}\u{182C}\u{1822}",
    "\u{1833}\u{1821}\u{182C}\u{1822}",
    "\u{1832}\u{1820}\u{182C}\u{1822}",
    "\u{1832}\u{1821}\u{182C}\u{1822}", // locative attributive
    "\u{1832}\u{1821}\u{182C}\u{1821}\u{1828}", // tegen: feminine g and k share ink
    "\u{182A}\u{1820}\u{1837}",
    "\u{182A}\u{1821}\u{1837}", // instrumental after vowels
    "\u{182A}\u{1820}\u{1828}",
    "\u{182A}\u{1821}\u{1828}", // reflexive after vowels
    "\u{1832}\u{1820}\u{1822}",
    "\u{1832}\u{1821}\u{1822}", // comitative
    "\u{1828}\u{1820}\u{1837}",
    "\u{1828}\u{1821}\u{1837}", // plural
    "\u{1833}\u{1824}\u{182D}\u{1820}\u{1837}",
    "\u{1833}\u{1826}\u{182D}\u{1821}\u{1837}", // ordinal, not after Mongolian words
];

/// Final consonants that select the t-initial form of a suffix (tu, tur, taki, tegen, ...).
pub const T_SELECTING: [char; 15] = [
    '\u{182A}', '\u{182D}', '\u{182C}', '\u{1837}', '\u{1830}', '\u{1831}', '\u{1833}', '\u{1832}', '\u{1834}',
    '\u{183A}', '\u{182B}', '\u{1839}', '\u{183D}', '\u{183C}', '\u{183E}',
];

/// The narrow no-break space, the suffix boundary.
pub const SUFFIX_BOUNDARY: char = '\u{202F}';

/// A Mongolian letter U+1820..=U+1842.
pub open spec fn letter(c: char) -> bool {
    '\u{1820}' <= c && c <= '\u{1842}'
}

/// A character of a Mongolian word: a letter, a selector or the vowel separator, ZWNJ or ZWJ.
pub open spec fn word_char(c: char) -> bool {
    letter(c) || ('\u{180B}' <= c && c <= '\u{180F}') || c == '\u{200C}' || c == '\u{200D}'
}

/// Word characters only, and at least one letter.
pub open spec fn mongolian_word(s: Seq<char>) -> bool {
    (forall|j: int| 0 <= j < s.len() ==> word_char(#[trigger] s[j])) && (exists|j: int| 0 <= j < s.len() && letter(#[trigger] s[j]))
}

/// What `char::is_alphanumeric` says of a character (Unicode `Alphabetic` or `Numeric`).
pub uninterp spec fn unicode_alphanumeric(c: char) -> bool;

/// `char::is_alphanumeric`: whether the character has the Unicode `Alphabetic` or a `Numeric`
/// property. The contract names the result.
#[verifier::external_body]
fn is_alphanumeric(c: char) -> (r: bool)
    ensures
        r == unicode_alphanumeric(c),
{
    c.is_alphanumeric()
}

/// The closing marks, quotes, unit symbols and currency signs that can end a token taking a
/// suffix.
pub open spec fn closing_mark(c: char) -> bool {
    c == ')' || c == ']' || c == '}' || c == '"' || c == '\'' || c == '\u{2019}' || c == '\u{201D}' || c == '\u{00BB}'
        || c == '\u{203A}' || c == '\u{300B}' || c == '\u{300D}' || c == '\u{300F}' || c == '\u{3009}' || c == '\u{3011}'
        || c == '\u{3015}' || c == '\u{FF09}' || c == '\u{FF3D}' || c == '\u{FF5D}' || c == '\u{FE36}' || c == '\u{FE38}'
        || c == '\u{FE3A}' || c == '\u{FE3C}' || c == '\u{FE3E}' || c == '\u{FE40}' || c == '\u{FE42}' || c == '\u{FE44}'
        || c == '%' || c == '\u{FF05}' || c == '\u{2030}' || c == '\u{00B0}' || c == '\u{2103}' || c == '\u{2109}' || c == '+'
        || c == '$' || c == '\u{00A5}' || c == '\u{20AC}' || c == '\u{00A3}' || c == '\u{FFE5}' || c == '#' || c == '\u{2116}'
}

/// A character that can end a token taking a suffix: a letter or digit of any script, or a
/// closing mark. Sentence punctuation, opening brackets, spaces and controls cannot.
pub open spec fn token_end(c: char) -> bool {
    unicode_alphanumeric(c) || closing_mark(c)
}

/// Whether `c` can end a token taking a suffix.
pub fn is_token_end(c: char) -> (r: bool)
    ensures
        r == token_end(c),
{
    is_alphanumeric(c) || c == ')' || c == ']' || c == '}' || c == '"' || c == '\'' || c == '\u{2019}' || c == '\u{201D}'
        || c == '\u{00BB}' || c == '\u{203A}' || c == '\u{300B}' || c == '\u{300D}' || c == '\u{300F}' || c == '\u{3009}'
        || c == '\u{3011}' || c == '\u{3015}' || c == '\u{FF09}' || c == '\u{FF3D}' || c == '\u{FF5D}' || c == '\u{FE36}'
        || c == '\u{FE38}' || c == '\u{FE3A}' || c == '\u{FE3C}' || c == '\u{FE3E}' || c == '\u{FE40}' || c == '\u{FE42}'
        || c == '\u{FE44}' || c == '%' || c == '\u{FF05}' || c == '\u{2030}' || c == '\u{00B0}' || c == '\u{2103}'
        || c == '\u{2109}' || c == '+' || c == '$' || c == '\u{00A5}' || c == '\u{20AC}' || c == '\u{00A3}' || c == '\u{FFE5}'
        || c == '#' || c == '\u{2116}'
}

/// The last letter of `s`, looking back from index `i`.
pub open spec fn last_letter_before(s: Seq<char>, i: int) -> Option<char>
    decreases i,
{
    if i <= 0 || i > s.len() {
        None
    } else if letter(s[i - 1]) {
        Some(s[i - 1])
    } else {
        last_letter_before(s, i - 1)
    }
}

/// Whether a t-initial suffix, a stem consonant's choice, follows `c`.
pub open spec fn t_selecting(c: char) -> bool {
    exists|k: int| 0 <= k < 15 && T_SELECTING@[k] == c
}

/// Whether the suffix, after the Mongolian word `previous`, is a suffix rather than an
/// independent word: the ordinal dugar never is; tai/tei always is; a t-initial suffix only
/// after a consonant that selects it; bar/ber/ban/ben only after a vowel or a final y.
pub open spec fn suffix_context(previous: Seq<char>, suffix: Seq<char>) -> bool {
    let last = last_letter_before(previous, previous.len() as int);
    if suffix == "\u{1833}\u{1824}\u{182D}\u{1820}\u{1837}"@ || suffix == "\u{1833}\u{1826}\u{182D}\u{1821}\u{1837}"@ {
        false
    } else if suffix == "\u{1832}\u{1820}\u{1822}"@ || suffix == "\u{1832}\u{1821}\u{1822}"@ {
        true
    } else if suffix.len() > 0 && suffix[0] == '\u{1832}' {
        last matches Some(c) && t_selecting(c)
    } else if suffix == "\u{182A}\u{1820}\u{1837}"@ || suffix == "\u{182A}\u{1821}\u{1837}"@ || suffix
        == "\u{182A}\u{1820}\u{1828}"@ || suffix == "\u{182A}\u{1821}\u{1828}"@ {
        last matches Some(c) && (c <= '\u{1827}' || c == '\u{1836}')
    } else {
        true
    }
}

/// A character that may follow a suffix: whitespace, Mongolian punctuation, or a closing or
/// sentence mark.
pub open spec fn after_suffix(c: char) -> bool {
    white_space(c) || ('\u{1800}' <= c && c <= '\u{1809}') || c == '.' || c == ',' || c == ';' || c == ':' || c == '!'
        || c == '?' || c == ')' || c == ']' || c == '}' || c == '"' || c == '\''
}

/// Whether the suffix is spelled right after the space at `i`, fits its stem, and ends where
/// the text or the word does.
pub open spec fn suffix_fits(cs: Seq<char>, i: int, suffix: Seq<char>, previous: Seq<char>, word: bool) -> bool {
    let end = i + 1 + suffix.len();
    &&& end <= cs.len()
    &&& cs.subrange(i + 1, end) == suffix
    &&& (!word || suffix_context(previous, suffix))
    &&& (end == cs.len() || after_suffix(cs[end]))
}

/// Where the run of word characters that ends right before index `i` begins.
pub open spec fn run_start(cs: Seq<char>, i: int) -> int
    decreases i,
{
    if i <= 0 || i > cs.len() || !word_char(cs[i - 1]) {
        i
    } else {
        run_start(cs, i - 1)
    }
}

/// Whether the space at index `i` is repaired: an ordinary or no-break space after a Mongolian
/// word, or right after another token, followed by a recognised suffix.
pub open spec fn repaired_at(cs: Seq<char>, i: int) -> bool {
    let previous = cs.subrange(run_start(cs, i), i);
    let word = mongolian_word(previous);
    let other_token = previous.len() == 0 && i > 0 && token_end(cs[i - 1]);
    &&& 0 <= i < cs.len()
    &&& cs[i] == ' ' || cs[i] == '\u{A0}'
    &&& word || other_token
    &&& exists|k: int| 0 <= k < 54 && #[trigger] suffix_fits(cs, i, SUFFIXES@[k]@, previous, word)
}

/// The text with every repaired space replaced by the suffix boundary.
pub open spec fn repaired_text(cs: Seq<char>) -> Seq<char> {
    Seq::new(cs.len(), |i: int| if repaired_at(cs, i) { SUFFIX_BOUNDARY } else { cs[i] })
}

/// The repairs made from index `i` on, in source order, each with its byte offset and the space
/// it replaced.
pub open spec fn repairs_from(cs: Seq<char>, i: int) -> Seq<WarningView>
    decreases cs.len() - i,
{
    if i < 0 || i >= cs.len() {
        Seq::empty()
    } else if repaired_at(cs, i) {
        seq![WarningView::RepairedSuffixSeparator { byte_offset: utf8_offset(cs, i), original: cs[i] }] + repairs_from(
            cs,
            i + 1,
        )
    } else {
        repairs_from(cs, i + 1)
    }
}

/// Whether `c` is a Mongolian letter.
pub fn is_letter(c: char) -> (r: bool)
    ensures
        r == letter(c),
{
    '\u{1820}' <= c && c <= '\u{1842}'
}

/// Whether `c` belongs to a Mongolian word.
pub fn is_word_char(c: char) -> (r: bool)
    ensures
        r == word_char(c),
{
    is_letter(c) || ('\u{180B}' <= c && c <= '\u{180F}') || c == '\u{200C}' || c == '\u{200D}'
}

/// Whether `cs[from..to]` is a Mongolian word.
fn is_mongolian_word(cs: &Vec<char>, from: usize, to: usize) -> (r: bool)
    requires
        from <= to <= cs.len(),
    ensures
        r == mongolian_word(cs@.subrange(from as int, to as int)),
{
    let ghost s = cs@.subrange(from as int, to as int);
    let mut any_letter = false;
    for k in from..to
        invariant
            to <= cs.len(),
            s == cs@.subrange(from as int, to as int),
            forall|j: int| 0 <= j < k - from ==> word_char(#[trigger] s[j]),
            any_letter == exists|j: int| 0 <= j < k - from && letter(#[trigger] s[j]),
    {
        assert(s[k - from] == cs@[k as int]);
        if !is_word_char(cs[k]) {
            return false;
        }
        if is_letter(cs[k]) {
            any_letter = true;
        }
    }
    any_letter
}

/// Whether `t` is a t-selecting consonant.
fn is_t_selecting(c: char) -> (r: bool)
    ensures
        r == t_selecting(c),
{
    for k in 0..T_SELECTING.len()
        invariant
            forall|j: int| 0 <= j < k ==> T_SELECTING@[j] != c,
    {
        if T_SELECTING[k] == c {
            return true;
        }
    }
    false
}

/// Whether a suffix found after the word `cs[from..to]` is one there.
fn fits_context(cs: &Vec<char>, from: usize, to: usize, suffix: &str) -> (r: bool)
    requires
        from <= to <= cs.len(),
    ensures
        r == suffix_context(cs@.subrange(from as int, to as int), suffix@),
{
    let ghost previous = cs@.subrange(from as int, to as int);
    let mut last: Option<char> = None;
    let mut k = to;
    while k > from && last.is_none()
        invariant
            from <= k <= to <= cs.len(),
            previous == cs@.subrange(from as int, to as int),
            match last {
                None => last_letter_before(previous, previous.len() as int) == last_letter_before(previous, k - from),
                Some(x) => last_letter_before(previous, previous.len() as int) == Some(x),
            },
        decreases k,
    {
        assert(previous[k - from - 1] == cs@[k - 1]);
        if is_letter(cs[k - 1]) {
            last = Some(cs[k - 1]);
        }
        k -= 1;
    }
    assert(last_letter_before(previous, previous.len() as int) == last);
    if str_eq(suffix, "\u{1833}\u{1824}\u{182D}\u{1820}\u{1837}") || str_eq(suffix, "\u{1833}\u{1826}\u{182D}\u{1821}\u{1837}") {
        return false;
    }
    if str_eq(suffix, "\u{1832}\u{1820}\u{1822}") || str_eq(suffix, "\u{1832}\u{1821}\u{1822}") {
        return true;
    }
    let sc = chars_of(suffix);
    if sc.len() > 0 && sc[0] == '\u{1832}' {
        return match last {
            Some(c) => is_t_selecting(c),
            None => false,
        };
    }
    if str_eq(suffix, "\u{182A}\u{1820}\u{1837}") || str_eq(suffix, "\u{182A}\u{1821}\u{1837}") || str_eq(
        suffix,
        "\u{182A}\u{1820}\u{1828}",
    ) || str_eq(suffix, "\u{182A}\u{1821}\u{1828}") {
        return match last {
            Some(c) => c <= '\u{1827}' || c == '\u{1836}',
            None => false,
        };
    }
    true
}

/// Whether `c` may follow a suffix.
fn is_after_suffix(c: char) -> (r: bool)
    ensures
        r == after_suffix(c),
{
    is_whitespace(c) || ('\u{1800}' <= c && c <= '\u{1809}') || c == '.' || c == ',' || c == ';' || c == ':' || c == '!'
        || c == '?' || c == ')' || c == ']' || c == '}' || c == '"' || c == '\''
}

/// Whether the space at `i`, after the word characters `cs[word_start..i]`, is repaired.
fn repairs_here(cs: &Vec<char>, i: usize, word_start: usize) -> (r: bool)
    requires
        i < cs.len(),
        word_start as int == run_start(cs@, i as int),
        word_start <= i,
    ensures
        r == repaired_at(cs@, i as int),
{
    let c = cs[i];
    if c != ' ' && c != '\u{A0}' {
        return false;
    }
    let ghost previous = cs@.subrange(word_start as int, i as int);
    let word = is_mongolian_word(cs, word_start, i);
    let other_token = word_start == i && i > 0 && is_token_end(cs[i - 1]);
    if !word && !other_token {
        return false;
    }
    for k in 0..SUFFIXES.len()
        invariant
            i < cs.len(),
            previous == cs@.subrange(word_start as int, i as int),
            word_start <= i,
            word_start as int == run_start(cs@, i as int),
            cs@[i as int] == ' ' || cs@[i as int] == '\u{A0}',
            word == mongolian_word(previous),
            other_token == (previous.len() == 0 && i > 0 && token_end(cs@[i - 1])),
            word || other_token,
            forall|j: int| 0 <= j < k ==> !#[trigger] suffix_fits(cs@, i as int, SUFFIXES@[j]@, previous, word),
    {
        let suffix = SUFFIXES[k];
        let sc = chars_of(suffix);
        let start = i + 1;
        if sc.len() <= cs.len() - start {
            let end = start + sc.len();
            let mut matches = true;
            for m in 0..sc.len()
                invariant
                    end == start + sc.len(),
                    end <= cs.len(),
                    matches == forall|j: int| 0 <= j < m ==> cs@[start + j] == sc@[j],
            {
                if cs[start + m] != sc[m] {
                    matches = false;
                }
            }
            assert(matches == (cs@.subrange(start as int, end as int) =~= sc@));
            if matches && (!word || fits_context(cs, word_start, i, suffix)) && (end == cs.len() || is_after_suffix(
                cs[end],
            )) {
                assert(suffix_fits(cs@, i as int, SUFFIXES@[k as int]@, previous, word));
                return true;
            }
        }
    }
    false
}

/// Replaces a single ordinary or no-break space before an allowlisted suffix with the suffix
/// boundary, for MenkLetter and Delehi text; each replacement is reported with its UTF-8 byte
/// offset in the input. Existing suffix boundaries, layout and word letters stay untouched.
pub fn suffix_separators(from: CodeType, input: &str) -> (r: Result<(String, Vec<Warning>), MongolConvertError>)
    ensures
        !(from == CodeType::MenkLetter || from == CodeType::Delehi) ==> (r matches Err(e) && e@
            == ErrorView::UnsupportedInputRepair(from)),
        (from == CodeType::MenkLetter || from == CodeType::Delehi) ==> (r matches Ok((text, warnings)) && text@
            == repaired_text(input@) && warning_views(warnings@) == repairs_from(input@, 0)),
{
    if !(from == CodeType::MenkLetter || from == CodeType::Delehi) {
        return Err(MongolConvertError::UnsupportedInputRepair(from));
    }
    let cs = chars_of(input);
    let offsets = char_byte_offsets(input);
    let mut out: Vec<char> = Vec::new();
    let mut warnings: Vec<Warning> = Vec::new();
    let mut word_start: usize = 0;
    for i in 0..cs.len()
        invariant
            cs@ == input@,
            offsets@.len() == cs@.len(),
            forall|j: int| 0 <= j < offsets@.len() ==> #[trigger] offsets@[j] as nat == utf8_offset(input@, j),
            word_start <= i,
            word_start as int == run_start(cs@, i as int),
            out@ == repaired_text(cs@).take(i as int),
            warning_views(warnings@) + repairs_from(cs@, i as int) == repairs_from(cs@, 0),
    {
        let c = cs[i];
        let ghost before = warning_views(warnings@);
        if repairs_here(&cs, i, word_start) {
            out.push(SUFFIX_BOUNDARY);
            warnings.push(Warning::RepairedSuffixSeparator { byte_offset: offsets[i], original: c });
            assert(warning_views(warnings@) =~= before.push(
                WarningView::RepairedSuffixSeparator { byte_offset: utf8_offset(cs@, i as int), original: c },
            ));
        } else {
            out.push(c);
            assert(warning_views(warnings@) =~= before);
        }
        assert(out@ =~= repaired_text(cs@).take(i + 1));
        if !is_word_char(c) {
            word_start = i + 1;
        }
    }
    assert(repaired_text(cs@).take(cs.len() as int) =~= repaired_text(cs@));
    assert(warning_views(warnings@) + Seq::<WarningView>::empty() =~= warning_views(warnings@));
    Ok((string_of(&out), warnings))
}

} // verus!

verus! {

/// Repair changes nothing but spaces: every character it changes was an ordinary or no-break
/// space and is now the suffix boundary; the length stays, and every repair it reports names
/// the space it replaced.
pub proof fn lemma_repair_only_replaces_spaces(cs: Seq<char>)
    ensures
        repaired_text(cs).len() == cs.len(),
        forall|i: int|
            0 <= i < cs.len() ==> #[trigger] repaired_text(cs)[i] == cs[i] || ((cs[i] == ' ' || cs[i] == '\u{A0}')
                && repaired_text(cs)[i] == SUFFIX_BOUNDARY),
        forall|k: int|
            0 <= k < repairs_from(cs, 0).len() ==> (#[trigger] repairs_from(cs, 0)[k] matches WarningView::RepairedSuffixSeparator {
                original,
                ..
            } && (original == ' ' || original == '\u{A0}')),
{
    lemma_repairs_name_spaces(cs, 0);
}

proof fn lemma_repairs_name_spaces(cs: Seq<char>, i: int)
    ensures
        forall|k: int|
            0 <= k < repairs_from(cs, i).len() ==> (#[trigger] repairs_from(cs, i)[k] matches WarningView::RepairedSuffixSeparator {
                original,
                ..
            } && (original == ' ' || original == '\u{A0}')),
    decreases cs.len() - i,
{
    if 0 <= i < cs.len() {
        lemma_repairs_name_spaces(cs, i + 1);
        if repaired_at(cs, i) {
            let w = seq![WarningView::RepairedSuffixSeparator { byte_offset: utf8_offset(cs, i), original: cs[i] }];
            let rest = repairs_from(cs, i + 1);
            assert forall|k: int| 0 <= k < repairs_from(cs, i).len() implies (#[trigger] repairs_from(cs, i)[k] matches WarningView::RepairedSuffixSeparator {
                original,
                ..
            } && (original == ' ' || original == '\u{A0}')) by {
                if k > 0 {
                    assert(repairs_from(cs, i)[k] == rest[k - 1]);
                }
            }
        }
    }
}

} // verus!

verus! {

/// Every recognised suffix is a non-empty run of Mongolian letters and the vowel separator.
proof fn lemma_suffixes_are_mongolian()
    ensures
        forall|k: int| 0 <= k < 54 ==> (#[trigger] SUFFIXES@[k]@).len() > 0,
        forall|k: int, j: int|
            0 <= k < 54 && 0 <= j < SUFFIXES@[k]@.len() ==> '\u{1800}' <= #[trigger] SUFFIXES@[k]@[j] <= '\u{1842}',
        forall|k: int, j: int|
            0 <= k < 54 && 0 <= j < SUFFIXES@[k]@.len() ==> (#[trigger] SUFFIXES@[k]@[j] == '\u{180E}' || letter(
                SUFFIXES@[k]@[j],
            )),
{
    reveal_strlit("\u{1836}\u{1822}\u{1828}");
    reveal_strlit("\u{1824}\u{1828}");
    reveal_strlit("\u{1826}\u{1828}");
    reveal_strlit("\u{1824}");
    reveal_strlit("\u{1826}");
    reveal_strlit("\u{1836}\u{1822}");
    reveal_strlit("\u{1822}");
    reveal_strlit("\u{1833}\u{1824}");
    reveal_strlit("\u{1833}\u{1826}");
    reveal_strlit("\u{1832}\u{1824}");
    reveal_strlit("\u{1832}\u{1826}");
    reveal_strlit("\u{1833}\u{1824}\u{1837}");
    reveal_strlit("\u{1833}\u{1826}\u{1837}");
    reveal_strlit("\u{1832}\u{1824}\u{1837}");
    reveal_strlit("\u{1832}\u{1826}\u{1837}");
    reveal_strlit("\u{1820}\u{1834}\u{1820}");
    reveal_strlit("\u{1821}\u{1834}\u{1821}");
    reveal_strlit("\u{1822}\u{1836}\u{1820}\u{1837}");
    reveal_strlit("\u{1822}\u{1836}\u{1821}\u{1837}");
    reveal_strlit("\u{1822}\u{1836}\u{1820}\u{1828}");
    reveal_strlit("\u{1822}\u{1836}\u{1821}\u{1828}");
    reveal_strlit("\u{182F}\u{1824}\u{182D}\u{180E}\u{1820}");
    reveal_strlit("\u{182F}\u{1826}\u{182D}\u{1821}");
    reveal_strlit("\u{1828}\u{1824}\u{182D}\u{1824}\u{1833}");
    reveal_strlit("\u{1828}\u{1826}\u{182D}\u{1826}\u{1833}");
    reveal_strlit("\u{1824}\u{1833}");
    reveal_strlit("\u{1826}\u{1833}");
    reveal_strlit("\u{1833}\u{1820}\u{182D}\u{1820}\u{1828}");
    reveal_strlit("\u{1833}\u{1821}\u{182D}\u{1821}\u{1828}");
    reveal_strlit("\u{1832}\u{1820}\u{182D}\u{1820}\u{1828}");
    reveal_strlit("\u{1832}\u{1821}\u{182D}\u{1821}\u{1828}");
    reveal_strlit("\u{1836}\u{1824}\u{182D}\u{1820}\u{1828}");
    reveal_strlit("\u{1836}\u{1826}\u{182D}\u{1821}\u{1828}");
    reveal_strlit("\u{1820}\u{1834}\u{1820}\u{182D}\u{1820}\u{1828}");
    reveal_strlit("\u{1821}\u{1834}\u{1821}\u{182D}\u{1821}\u{1828}");
    reveal_strlit("\u{1833}\u{1824}\u{1828}\u{1822}");
    reveal_strlit("\u{1833}\u{1826}\u{1828}\u{1822}");
    reveal_strlit("\u{1832}\u{1824}\u{1828}\u{1822}");
    reveal_strlit("\u{1832}\u{1826}\u{1828}\u{1822}");
    reveal_strlit("\u{1833}\u{1820}\u{182C}\u{1822}");
    reveal_strlit("\u{1833}\u{1821}\u{182C}\u{1822}");
    reveal_strlit("\u{1832}\u{1820}\u{182C}\u{1822}");
    reveal_strlit("\u{1832}\u{1821}\u{182C}\u{1822}");
    reveal_strlit("\u{1832}\u{1821}\u{182C}\u{1821}\u{1828}");
    reveal_strlit("\u{182A}\u{1820}\u{1837}");
    reveal_strlit("\u{182A}\u{1821}\u{1837}");
    reveal_strlit("\u{182A}\u{1820}\u{1828}");
    reveal_strlit("\u{182A}\u{1821}\u{1828}");
    reveal_strlit("\u{1832}\u{1820}\u{1822}");
    reveal_strlit("\u{1832}\u{1821}\u{1822}");
    reveal_strlit("\u{1828}\u{1820}\u{1837}");
    reveal_strlit("\u{1828}\u{1821}\u{1837}");
    reveal_strlit("\u{1833}\u{1824}\u{182D}\u{1820}\u{1837}");
    reveal_strlit("\u{1833}\u{1826}\u{182D}\u{1821}\u{1837}");
}

/// Where `run_start` lands, between the start of the text and `i`.
proof fn lemma_run_start_bounds(cs: Seq<char>, i: int)
    requires
        0 <= i <= cs.len(),
    ensures
        0 <= run_start(cs, i) <= i,
    decreases i,
{
    if i > 0 && word_char(cs[i - 1]) {
        lemma_run_start_bounds(cs, i - 1);
    }
}

/// Every character from `run_start` up to `i` is a word character.
proof fn lemma_run_is_word_chars(cs: Seq<char>, i: int, k: int)
    requires
        0 <= i <= cs.len(),
        run_start(cs, i) <= k < i,
    ensures
        word_char(cs[k]),
    decreases i,
{
    if k < i - 1 {
        lemma_run_is_word_chars(cs, i - 1, k);
    }
}

/// Two texts of one length that agree on which characters are word characters have the same
/// runs.
proof fn lemma_run_start_agrees(cs: Seq<char>, u: Seq<char>, i: int)
    requires
        cs.len() == u.len(),
        forall|k: int| 0 <= k < cs.len() ==> word_char(#[trigger] cs[k]) == word_char(u[k]),
    ensures
        run_start(cs, i) == run_start(u, i),
    decreases i,
{
    if i > 0 && i <= cs.len() && word_char(cs[i - 1]) {
        lemma_run_start_agrees(cs, u, i - 1);
    }
}

/// No space of a repaired text is repaired a second time.
proof fn lemma_no_second_repair(cs: Seq<char>, i: int)
    requires
        0 <= i < cs.len(),
    ensures
        !repaired_at(repaired_text(cs), i),
{
    let u = repaired_text(cs);
    if repaired_at(u, i) {
        lemma_suffixes_are_mongolian();
        assert(!repaired_at(cs, i));
        assert forall|k: int| 0 <= k < cs.len() implies word_char(#[trigger] cs[k]) == word_char(u[k]) by {
            if repaired_at(cs, k) {
                assert(u[k] == SUFFIX_BOUNDARY);
            }
        }
        lemma_run_start_agrees(cs, u, i);
        let rs = run_start(cs, i);
        lemma_run_start_bounds(cs, i);
        assert forall|k: int| rs <= k < i implies #[trigger] u[k] == cs[k] by {
            lemma_run_is_word_chars(cs, i, k);
        }
        let previous = cs.subrange(rs, i);
        assert(u.subrange(rs, i) =~= previous);
        let word = mongolian_word(previous);
        if previous.len() == 0 && i > 0 && repaired_at(cs, i - 1) {
            let k0 = choose|k: int|
                0 <= k < 54 && #[trigger] suffix_fits(cs, i - 1, SUFFIXES@[k]@, cs.subrange(run_start(cs, i - 1), i - 1), mongolian_word(cs.subrange(run_start(cs, i - 1), i - 1)));
            let sk = SUFFIXES@[k0]@;
            assert(cs.subrange(i, i + sk.len())[0] == cs[i]);
            assert('\u{1800}' <= sk[0] <= '\u{1842}');
        }
        let k1 = choose|k: int| 0 <= k < 54 && #[trigger] suffix_fits(u, i, SUFFIXES@[k]@, previous, word);
        let sk = SUFFIXES@[k1]@;
        let end = i + 1 + sk.len();
        assert forall|p: int| i + 1 <= p < end implies #[trigger] cs[p] == u[p] by {
            assert(u.subrange(i + 1, end)[p - i - 1] == u[p]);
            assert('\u{1800}' <= sk[p - i - 1] <= '\u{1842}');
            if repaired_at(cs, p) {
                assert(u[p] == SUFFIX_BOUNDARY);
            }
        }
        assert(cs.subrange(i + 1, end) =~= u.subrange(i + 1, end));
        if end < cs.len() && repaired_at(cs, end) {
            assert(white_space(cs[end]));
        }
        assert(suffix_fits(cs, i, sk, previous, word));
        assert(repaired_at(cs, i));
    }
}

/// No repair is reported from `i` on where no space from `i` on is repaired.
proof fn lemma_no_repairs_reported(cs: Seq<char>, i: int)
    requires
        0 <= i,
        forall|k: int| i <= k < cs.len() ==> !#[trigger] repaired_at(cs, k),
    ensures
        repairs_from(cs, i) == Seq::<WarningView>::empty(),
    decreases cs.len() - i,
{
    if i < cs.len() {
        lemma_no_repairs_reported(cs, i + 1);
    }
}

/// Repairing a repaired text changes nothing and reports nothing.
pub proof fn lemma_repair_is_idempotent(cs: Seq<char>)
    ensures
        repaired_text(repaired_text(cs)) == repaired_text(cs),
        repairs_from(repaired_text(cs), 0) == Seq::<WarningView>::empty(),
{
    let u = repaired_text(cs);
    assert forall|k: int| 0 <= k < u.len() implies !#[trigger] repaired_at(u, k) by {
        lemma_no_second_repair(cs, k);
    }
    assert(repaired_text(u) =~= u);
    lemma_no_repairs_reported(u, 0);
}

/// A run of word characters from the start of the text reaches back to the start.
proof fn lemma_run_from_start(cs: Seq<char>, n: int)
    requires
        0 <= n <= cs.len(),
        forall|j: int| 0 <= j < n ==> word_char(#[trigger] cs[j]),
    ensures
        run_start(cs, n) == 0,
    decreases n,
{
    if n > 0 {
        lemma_run_from_start(cs, n - 1);
    }
}

/// The text `stem`, a space and suffix `k`: repaired exactly where the suffix fits its stem.
proof fn lemma_repair_after_word(stem: Seq<char>, k: int)
    requires
        stem.len() > 0,
        forall|j: int| 0 <= j < stem.len() ==> letter(#[trigger] stem[j]),
        0 <= k < 54,
    ensures
        ({
            let text = stem + seq![' '] + SUFFIXES@[k]@;
            &&& last_letter_before(stem, stem.len() as int) == Some(stem.last())
            &&& suffix_context(stem, SUFFIXES@[k]@) ==> repaired_text(text) == stem + seq![SUFFIX_BOUNDARY]
                + SUFFIXES@[k]@
            &&& !suffix_context(stem, SUFFIXES@[k]@) ==> repaired_text(text) == text
        }),
{
    lemma_suffixes_are_mongolian();
    let suf = SUFFIXES@[k]@;
    let text = stem + seq![' '] + suf;
    let i = stem.len() as int;
    let selected = suffix_context(stem, suf);
    assert(suf.len() > 0);
    assert forall|p: int| 0 <= p < text.len() && p != i implies (#[trigger] text[p]) == '\u{180E}' || letter(text[p]) by {
        if p > i {
            assert(text[p] == suf[p - i - 1]);
        }
    }
    assert(text[i] == ' ');
    assert forall|j: int| 0 <= j < i implies word_char(#[trigger] text[j]) by {
        assert(text[j] == stem[j]);
    }
    lemma_run_from_start(text, i);
    let previous = text.subrange(0, i);
    assert(previous =~= stem);
    assert(letter(stem[0]));
    assert(mongolian_word(previous));
    assert(last_letter_before(stem, i) == Some(stem.last()));
    let end = i + 1 + suf.len();
    assert(end == text.len());
    assert(text.subrange(i + 1, end) =~= suf);
    if selected {
        assert(suffix_fits(text, i, SUFFIXES@[k]@, previous, true));
        assert(repaired_at(text, i));
    } else if repaired_at(text, i) {
        let k2 = choose|k2: int| 0 <= k2 < 54 && #[trigger] suffix_fits(text, i, SUFFIXES@[k2]@, previous, true);
        let s2 = SUFFIXES@[k2]@;
        let e2 = i + 1 + s2.len();
        if e2 < text.len() {
            assert(text[e2] == '\u{180E}' || letter(text[e2]));
            assert(!after_suffix(text[e2]));
        }
        assert(s2 =~= suf);
    }
    assert forall|p: int| 0 <= p < text.len() && p != i implies !#[trigger] repaired_at(text, p) by {
        assert(text[p] == '\u{180E}' || letter(text[p]));
    }
    if selected {
        assert(repaired_text(text) =~= stem + seq![SUFFIX_BOUNDARY] + suf);
    } else {
        assert(repaired_text(text) =~= text);
    }
}

/// A t-initial suffix (other than the comitative tai/tei) after a Mongolian word: a single space
/// between them becomes the suffix boundary exactly when the word ends in one of the consonants
/// that select the t-initial form, and nothing else in the text changes.
pub proof fn lemma_t_initial_suffix_follows_its_consonants(stem: Seq<char>, k: int)
    requires
        stem.len() > 0,
        forall|j: int| 0 <= j < stem.len() ==> letter(#[trigger] stem[j]),
        0 <= k < 54,
        SUFFIXES@[k]@[0] == '\u{1832}',
        SUFFIXES@[k]@ != "\u{1832}\u{1820}\u{1822}"@,
        SUFFIXES@[k]@ != "\u{1832}\u{1821}\u{1822}"@,
    ensures
        ({
            let text = stem + seq![' '] + SUFFIXES@[k]@;
            let selected = exists|j: int| 0 <= j < 15 && T_SELECTING@[j] == stem.last();
            &&& selected ==> repaired_text(text) == stem + seq![SUFFIX_BOUNDARY] + SUFFIXES@[k]@
            &&& !selected ==> repaired_text(text) == text
        }),
{
    reveal_strlit("\u{1833}\u{1824}\u{182D}\u{1820}\u{1837}");
    reveal_strlit("\u{1833}\u{1826}\u{182D}\u{1821}\u{1837}");
    lemma_suffixes_are_mongolian();
    lemma_repair_after_word(stem, k);
    assert(SUFFIXES@[k]@.len() > 0);
}

/// The ordinal dugar/düger is an independent word after a Mongolian word: the space before it
/// always stays.
pub proof fn lemma_ordinal_stays_apart_from_a_word(stem: Seq<char>, k: int)
    requires
        stem.len() > 0,
        forall|j: int| 0 <= j < stem.len() ==> letter(#[trigger] stem[j]),
        0 <= k < 54,
        SUFFIXES@[k]@ == "\u{1833}\u{1824}\u{182D}\u{1820}\u{1837}"@ || SUFFIXES@[k]@
            == "\u{1833}\u{1826}\u{182D}\u{1821}\u{1837}"@,
    ensures
        repaired_text(stem + seq![' '] + SUFFIXES@[k]@) == stem + seq![' '] + SUFFIXES@[k]@,
{
    lemma_repair_after_word(stem, k);
}

/// The comitative tai/tei after a Mongolian word is always a suffix: the space before it becomes
/// the suffix boundary, whatever the word ends in.
pub proof fn lemma_comitative_always_joins_a_word(stem: Seq<char>, k: int)
    requires
        stem.len() > 0,
        forall|j: int| 0 <= j < stem.len() ==> letter(#[trigger] stem[j]),
        0 <= k < 54,
        SUFFIXES@[k]@ == "\u{1832}\u{1820}\u{1822}"@ || SUFFIXES@[k]@ == "\u{1832}\u{1821}\u{1822}"@,
    ensures
        repaired_text(stem + seq![' '] + SUFFIXES@[k]@) == stem + seq![SUFFIX_BOUNDARY] + SUFFIXES@[k]@,
{
    reveal_strlit("\u{1833}\u{1824}\u{182D}\u{1820}\u{1837}");
    reveal_strlit("\u{1833}\u{1826}\u{182D}\u{1821}\u{1837}");
    reveal_strlit("\u{1832}\u{1820}\u{1822}");
    reveal_strlit("\u{1832}\u{1821}\u{1822}");
    lemma_repair_after_word(stem, k);
}

/// The instrumental and reflexive bar/ber/ban/ben after a Mongolian word: the space before them
/// becomes the suffix boundary exactly when the word ends in a vowel (`U+1820..=U+1827`) or in y.
pub proof fn lemma_vowel_suffixes_follow_vowels(stem: Seq<char>, k: int)
    requires
        stem.len() > 0,
        forall|j: int| 0 <= j < stem.len() ==> letter(#[trigger] stem[j]),
        0 <= k < 54,
        SUFFIXES@[k]@ == "\u{182A}\u{1820}\u{1837}"@ || SUFFIXES@[k]@ == "\u{182A}\u{1821}\u{1837}"@ || SUFFIXES@[k]@
            == "\u{182A}\u{1820}\u{1828}"@ || SUFFIXES@[k]@ == "\u{182A}\u{1821}\u{1828}"@,
    ensures
        ({
            let text = stem + seq![' '] + SUFFIXES@[k]@;
            let vowel = stem.last() <= '\u{1827}' || stem.last() == '\u{1836}';
            &&& vowel ==> repaired_text(text) == stem + seq![SUFFIX_BOUNDARY] + SUFFIXES@[k]@
            &&& !vowel ==> repaired_text(text) == text
        }),
{
    reveal_strlit("\u{1833}\u{1824}\u{182D}\u{1820}\u{1837}");
    reveal_strlit("\u{1833}\u{1826}\u{182D}\u{1821}\u{1837}");
    reveal_strlit("\u{1832}\u{1820}\u{1822}");
    reveal_strlit("\u{1832}\u{1821}\u{1822}");
    reveal_strlit("\u{182A}\u{1820}\u{1837}");
    reveal_strlit("\u{182A}\u{1821}\u{1837}");
    reveal_strlit("\u{182A}\u{1820}\u{1828}");
    reveal_strlit("\u{182A}\u{1821}\u{1828}");
    lemma_repair_after_word(stem, k);
}

/// Every other suffix (neither t-initial, nor bar/ber/ban/ben, nor the ordinal) after a
/// Mongolian word is always a suffix: the space before it becomes the suffix boundary.
pub proof fn lemma_other_suffixes_always_join_a_word(stem: Seq<char>, k: int)
    requires
        stem.len() > 0,
        forall|j: int| 0 <= j < stem.len() ==> letter(#[trigger] stem[j]),
        0 <= k < 54,
        SUFFIXES@[k]@[0] != '\u{1832}',
        SUFFIXES@[k]@ != "\u{1833}\u{1824}\u{182D}\u{1820}\u{1837}"@,
        SUFFIXES@[k]@ != "\u{1833}\u{1826}\u{182D}\u{1821}\u{1837}"@,
        SUFFIXES@[k]@ != "\u{182A}\u{1820}\u{1837}"@,
        SUFFIXES@[k]@ != "\u{182A}\u{1821}\u{1837}"@,
        SUFFIXES@[k]@ != "\u{182A}\u{1820}\u{1828}"@,
        SUFFIXES@[k]@ != "\u{182A}\u{1821}\u{1828}"@,
    ensures
        repaired_text(stem + seq![' '] + SUFFIXES@[k]@) == stem + seq![SUFFIX_BOUNDARY] + SUFFIXES@[k]@,
{
    reveal_strlit("\u{1833}\u{1824}\u{182D}\u{1820}\u{1837}");
    reveal_strlit("\u{1833}\u{1826}\u{182D}\u{1821}\u{1837}");
    reveal_strlit("\u{1832}\u{1820}\u{1822}");
    reveal_strlit("\u{1832}\u{1821}\u{1822}");
    reveal_strlit("\u{182A}\u{1820}\u{1837}");
    reveal_strlit("\u{182A}\u{1821}\u{1837}");
    reveal_strlit("\u{182A}\u{1820}\u{1828}");
    reveal_strlit("\u{182A}\u{1821}\u{1828}");
    lemma_suffixes_are_mongolian();
    lemma_repair_after_word(stem, k);
}

} // verus!
