//! Top-level routing: every conversion reads its source into the ZVVNMOD hub and writes the hub
//! out in its target. Blank input and a conversion from an encoding to itself are returned
//! unchanged (save the emoji restoration of a MenkShape source). Oyun is unsupported both ways;
//! UTN #57 goes both ways through the `zvvnmod-utn57` crate rather than the tables.
use crate::code_type::{series_of, CodeSeries, CodeType};
use crate::dispatch::{
    letter_from_rule, letter_from_rule_of, letter_to_rule, letter_to_rule_of, shape_from_rule, shape_from_rule_of,
    shape_to_rule, shape_to_rule_of,
};
use crate::error::{ErrorView, MongolConvertError};
use crate::letter::from_translator::{letter_translation, LetterFromTranslator};
use crate::letter::rule::WORD_CONNECTOR;
use crate::letter::to_translator::{letter_to_translation, LetterToTranslator};
use crate::numbers::{decimal, decimal_text, upper_hex4, upper_hex4_text};
use crate::repair::{repaired_text, repairs_from, suffix_separators};
use crate::shape::punctuation_gap::{gap_of, inserted, of, stripped};
use crate::shape::softbank_emoji::{restore_menk_shape, restored};
use crate::shape::translator::{shape_translation, ShapeTranslator};
use crate::strings::{blank, is_blank};
use crate::text::{chars_of, owned, push_str, string_of};
use crate::unicode::zvvnmod::{is_zvvnmod_code, zvvnmod_code};
use crate::utn57::{convert_utn57_to_zvvnmod, convert_zvvnmod_to_utn57_with_warnings, hub_to_utn57, strings_view, utn57_to_hub};
use crate::utn57_shape::{decode, decoded_from, encode, encoded_from, split_text};
use vstd::prelude::*;

verus! {

/// Something a conversion did beyond what its input said, including the optional repairs.
#[derive(Debug, Clone, PartialEq, Eq)]
#[non_exhaustive]
pub enum Warning {
    /// The UTN #57 encoder spelled a hub run with a ZWJ the hub did not carry, or collapsed a
    /// repeated suffix boundary; the reason is the encoder's own message.
    Utn57(String),
    /// An opt-in heuristic replaced a space before a recognised suffix with NNBSP. The offset is a
    /// UTF-8 byte offset in the original input, before any repairs or conversion.
    RepairedSuffixSeparator { byte_offset: usize, original: char },
}

/// The value of a [`Warning`].
pub enum WarningView {
    Utn57(Seq<char>),
    RepairedSuffixSeparator { byte_offset: nat, original: char },
}

impl View for Warning {
    type V = WarningView;

    open spec fn view(&self) -> WarningView {
        match self {
            Warning::Utn57(reason) => WarningView::Utn57(reason@),
            Warning::RepairedSuffixSeparator { byte_offset, original } => WarningView::RepairedSuffixSeparator {
                byte_offset: *byte_offset as nat,
                original: *original,
            },
        }
    }
}

/// The views of a list of warnings.
pub open spec fn warning_views(w: Seq<Warning>) -> Seq<WarningView> {
    w.map_values(|x: Warning| x@)
}

/// The message of a warning.
pub open spec fn warning_message(w: WarningView) -> Seq<char> {
    match w {
        WarningView::Utn57(reason) => "UTN #57: "@ + reason,
        WarningView::RepairedSuffixSeparator { byte_offset, original } => "repaired possible suffix separator at input byte "@
            + decimal(byte_offset) + ": U+"@ + upper_hex4(original as nat) + " -> U+202F"@,
    }
}

impl Warning {
    /// The message of this warning (what `Display` would write).
    pub fn to_string(&self) -> (r: String)
        ensures
            r@ == warning_message(self@),
    {
        match self {
            Warning::Utn57(reason) => {
                let mut r = owned("UTN #57: ");
                push_str(&mut r, reason.as_str());
                r
            },
            Warning::RepairedSuffixSeparator { byte_offset, original } => {
                let mut r = owned("repaired possible suffix separator at input byte ");
                let offset = decimal_text(*byte_offset as u64);
                push_str(&mut r, offset.as_str());
                push_str(&mut r, ": U+");
                let code = upper_hex4_text(*original as u32 as u64);
                push_str(&mut r, code.as_str());
                push_str(&mut r, " -> U+202F");
                r
            },
        }
    }
}

/// A finished conversion: the text, and whatever the conversion had to do beyond what the input
/// said.
#[derive(Debug, Clone, PartialEq, Eq)]
pub struct Translation {
    /// The converted text, after any explicitly enabled input repairs.
    pub text: String,
    /// Input repairs in source order, followed by conversion warnings.
    pub warnings: Vec<Warning>,
}

/// The value of a [`Translation`].
pub struct TranslationView {
    pub text: Seq<char>,
    pub warnings: Seq<WarningView>,
}

impl View for Translation {
    type V = TranslationView;

    open spec fn view(&self) -> TranslationView {
        TranslationView { text: self.text@, warnings: warning_views(self.warnings@) }
    }
}

impl Translation {
    /// A translation of `text` with no warnings.
    pub fn plain(text: String) -> (r: Self)
        ensures
            r@.text == text@,
            r@.warnings == Seq::<WarningView>::empty(),
    {
        let r = Translation { text, warnings: Vec::new() };
        assert(warning_views(r.warnings@) =~= Seq::<WarningView>::empty());
        r
    }
}

/// Optional processing before conversion. The default settings keep the input behaviour of
/// [`translate`].
#[derive(Debug, Clone, Copy, PartialEq, Eq, Structural)]
pub struct TranslationOptions {
    /// Replace single spaces/NBSP before a small allowlist of detached suffixes with NNBSP, for
    /// MenkLetter and Delehi sources, same-encoding conversions included. Each replacement is
    /// reported as [`Warning::RepairedSuffixSeparator`].
    pub repair_suffix_separators: bool,
    /// Restore legacy SoftBank/iOS emoji back to MenkShape PUA before decoding MenkShape input.
    pub restore_menk_shape_emoji: bool,
}

impl Default for TranslationOptions {
    fn default() -> (r: Self)
        ensures
            r == (TranslationOptions { repair_suffix_separators: false, restore_menk_shape_emoji: true }),
    {
        TranslationOptions { repair_suffix_separators: false, restore_menk_shape_emoji: true }
    }
}

} // verus!

verus! {

broadcast use vstd::string::group_string_axioms;

/// The nirugu as the hub spells it (its own inventory code, which the UTN #57 crate uses too).
pub const HUB_NIRUGU: char = '\u{E0E5}';

/// The nirugu as the legacy tables and the Unicode encodings spell it.
pub const UNICODE_NIRUGU: char = '\u{180A}';

/// The hub's word-initial G + O-final ligature, which the legacy tables do not know.
pub const HUB_G_O_ISOL: char = '\u{E096}';

/// The medial ligature the legacy tables write for the whole word.
pub const LEGACY_G_O_FINA: char = '\u{E09C}';

/// `s` with every `a` written as `b`.
pub open spec fn replaced(s: Seq<char>, a: char, b: char) -> Seq<char> {
    Seq::new(s.len(), |i: int| if s[i] == a { b } else { s[i] })
}

/// `s` with every `a` written as `b`.
pub fn replace_char(s: &Vec<char>, a: char, b: char) -> (r: Vec<char>)
    ensures
        r@ == replaced(s@, a, b),
{
    let mut out: Vec<char> = Vec::new();
    for i in 0..s.len()
        invariant
            out@ == replaced(s@, a, b).take(i as int),
    {
        out.push(if s[i] == a { b } else { s[i] });
        assert(out@ =~= replaced(s@, a, b).take(i + 1));
    }
    assert(replaced(s@, a, b).take(s.len() as int) =~= replaced(s@, a, b));
    out
}

/// FVS1..FVS3 and the legacy controls `E140..=E144`, which the UTN #57 encoder looks through.
pub open spec fn transparent_mark(c: char) -> bool {
    ('\u{180B}' <= c && c <= '\u{180D}') || ('\u{E140}' <= c && c <= '\u{E144}')
}

/// A code that joins whatever follows it: a hub shape, the hub's own `E096` and `E0E5`, the
/// Unicode nirugu, ZWJ.
pub open spec fn joins_right(c: char) -> bool {
    zvvnmod_code(c) || c == HUB_G_O_ISOL || c == HUB_NIRUGU || c == UNICODE_NIRUGU || c == '\u{200D}'
}

/// Whether the last code of `before` that is not a transparent mark joins to the right.
pub open spec fn joined_left(before: Seq<char>) -> bool
    decreases before.len(),
{
    if before.len() == 0 {
        false
    } else if transparent_mark(before.last()) {
        joined_left(before.drop_last())
    } else {
        joins_right(before.last())
    }
}

/// The hub with every `E09C` that starts a word (nothing joined on its left) written `E096`.
pub open spec fn promoted(s: Seq<char>) -> Seq<char> {
    Seq::new(
        s.len(),
        |i: int|
            if s[i] == LEGACY_G_O_FINA && !joined_left(s.take(i)) {
                HUB_G_O_ISOL
            } else {
                s[i]
            },
    )
}

/// Whether `c` is FVS1..FVS3 or a legacy control `E140..=E144`.
pub fn is_transparent_mark(c: char) -> (r: bool)
    ensures
        r == transparent_mark(c),
{
    ('\u{180B}' <= c && c <= '\u{180D}') || ('\u{E140}' <= c && c <= '\u{E144}')
}

/// Whether `c` joins whatever follows it.
pub fn joins_to_the_right(c: char) -> (r: bool)
    ensures
        r == joins_right(c),
{
    is_zvvnmod_code(c) || c == HUB_G_O_ISOL || c == HUB_NIRUGU || c == UNICODE_NIRUGU || c == '\u{200D}'
}

/// Whether the codes before index `end` leave something joined on the left of it.
pub fn joined_on_the_left(chars: &Vec<char>, end: usize) -> (r: bool)
    requires
        end <= chars.len(),
    ensures
        r == joined_left(chars@.take(end as int)),
{
    let mut k = end;
    while k > 0
        invariant
            k <= end <= chars.len(),
            joined_left(chars@.take(end as int)) == joined_left(chars@.take(k as int)),
        decreases k,
    {
        let c = chars[k - 1];
        assert(chars@.take(k as int).last() == c);
        assert(chars@.take(k as int).drop_last() =~= chars@.take(k - 1));
        if !is_transparent_mark(c) {
            return joins_to_the_right(c);
        }
        k -= 1;
    }
    false
}

/// Promotes every `E09C` that starts a word to `E096`.
pub fn promote_word_initial_g_o(hub: &Vec<char>) -> (r: Vec<char>)
    ensures
        r@ == promoted(hub@),
{
    let mut out: Vec<char> = Vec::new();
    for index in 0..hub.len()
        invariant
            out@ == promoted(hub@).take(index as int),
    {
        let c = hub[index];
        if c == LEGACY_G_O_FINA && !joined_on_the_left(hub, index) {
            out.push(HUB_G_O_ISOL);
        } else {
            out.push(c);
        }
        assert(out@ =~= promoted(hub@).take(index + 1));
    }
    assert(promoted(hub@).take(hub.len() as int) =~= promoted(hub@));
    out
}

/// A MenkShape source with its legacy emoji restored, when the options ask for it.
pub open spec fn menk_source(ct: CodeType, s: Seq<char>, restore: bool) -> Seq<char> {
    if ct == CodeType::MenkShape && restore {
        restored(s)
    } else {
        s
    }
}

/// A MenkShape source with its legacy emoji restored, when the options ask for it.
pub fn normalize_menk_shape_source(ct: CodeType, s: &str, options: &TranslationOptions) -> (r: String)
    ensures
        r@ == menk_source(ct, s@, options.restore_menk_shape_emoji),
{
    if ct == CodeType::MenkShape && options.restore_menk_shape_emoji {
        restore_menk_shape(s)
    } else {
        owned(s)
    }
}

/// A UTN #57 text read into the hub, or the backend's error.
pub open spec fn utn57_hub(s: Seq<char>) -> Result<Seq<char>, ErrorView> {
    match utn57_to_hub(s) {
        Ok(h) => Ok(h),
        Err(e) => Err(ErrorView::Utn57(e)),
    }
}

/// The hub a source text reads as (for every source but the hub itself).
pub open spec fn source_hub(ct: CodeType, s: Seq<char>, restore: bool) -> Result<Seq<char>, ErrorView> {
    if ct == CodeType::Oyun {
        Err(ErrorView::Unsupported(ct))
    } else if ct == CodeType::Utn57Shape {
        match decoded_from(split_text(s), 0, Seq::empty()) {
            Ok(u) => utn57_hub(u),
            Err(e) => Err(e),
        }
    } else if ct == CodeType::Utn57 {
        utn57_hub(s)
    } else {
        let read = match series_of(ct) {
            CodeSeries::Shape => match shape_from_rule_of(ct) {
                Some(rule) => {
                    let source = menk_source(ct, s, restore);
                    shape_translation(
                        rule,
                        match gap_of(ct) {
                            Some(g) => stripped(g, source),
                            None => source,
                        },
                    )
                },
                None => Err(ErrorView::MissTranslateRule(ct)),
            },
            CodeSeries::Letter => match letter_from_rule_of(ct) {
                Some(rule) => letter_translation(rule, s),
                None => Err(ErrorView::MissTranslateRule(ct)),
            },
        };
        match read {
            Ok(h) => Ok(promoted(replaced(h, UNICODE_NIRUGU, HUB_NIRUGU))),
            Err(e) => Err(e),
        }
    }
}

/// A UTN #57 text read into the hub.
fn utn57_to_hub_text(s: &str) -> (r: Result<String, MongolConvertError>)
    ensures
        match utn57_hub(s@) {
            Ok(h) => r matches Ok(t) && t@ == h,
            Err(e) => r matches Err(x) && x@ == e,
        },
{
    match convert_utn57_to_zvvnmod(s) {
        Ok(hub) => Ok(hub),
        Err(reason) => Err(MongolConvertError::Utn57(reason)),
    }
}

/// Reads a source text into the hub.
pub fn translate_from(ct: CodeType, s: &str, options: &TranslationOptions) -> (r: Result<String, MongolConvertError>)
    ensures
        match source_hub(ct, s@, options.restore_menk_shape_emoji) {
            Ok(h) => r matches Ok(t) && t@ == h,
            Err(e) => r matches Err(x) && x@ == e,
        },
{
    if ct == CodeType::Oyun {
        return Err(MongolConvertError::Unsupported(ct));
    }
    if ct == CodeType::Utn57Shape {
        let utn57 = decode(s)?;
        return utn57_to_hub_text(utn57.as_str());
    }
    if ct == CodeType::Utn57 {
        return utn57_to_hub_text(s);
    }
    let hub = match ct.code_series() {
        CodeSeries::Shape => {
            let source = normalize_menk_shape_source(ct, s, options);
            let plain = match of(ct) {
                Some(gap) => gap.strip(source.as_str()),
                None => source,
            };
            let rule = shape_from_rule(ct)?;
            ShapeTranslator::new(rule).translate(plain.as_str())?
        },
        CodeSeries::Letter => {
            let rule = letter_from_rule(ct)?;
            LetterFromTranslator::new(rule).translate(s)?
        },
    };
    let chars = chars_of(hub.as_str());
    let hub_spelled = replace_char(&chars, UNICODE_NIRUGU, HUB_NIRUGU);
    Ok(string_of(&promote_word_initial_g_o(&hub_spelled)))
}

} // verus!

verus! {

/// The result of a conversion as text and warnings.
pub open spec fn translation_result(r: Result<Translation, MongolConvertError>) -> Result<TranslationView, ErrorView> {
    match r {
        Ok(t) => Ok(t@),
        Err(e) => Err(e@),
    }
}

/// A hub text (in either nirugu spelling) written as UTN #57, each warning message kept.
pub open spec fn utn57_target(s: Seq<char>) -> Result<TranslationView, ErrorView> {
    match hub_to_utn57(replaced(s, UNICODE_NIRUGU, HUB_NIRUGU)) {
        Ok((t, w)) => Ok(
            TranslationView { text: t, warnings: w.map_values(|m: Seq<char>| WarningView::Utn57(m)) },
        ),
        Err(e) => Err(ErrorView::Utn57(e)),
    }
}

/// The hub spelled the way the legacy tables know it: the Unicode nirugu, and `E09C` for `E096`.
pub open spec fn legacy_hub(s: Seq<char>) -> Seq<char> {
    replaced(replaced(replaced(s, UNICODE_NIRUGU, HUB_NIRUGU), HUB_NIRUGU, UNICODE_NIRUGU), HUB_G_O_ISOL, LEGACY_G_O_FINA)
}

/// What a hub text is written as in a target (for every target but the hub itself).
pub open spec fn target_text(ct: CodeType, s: Seq<char>) -> Result<TranslationView, ErrorView> {
    if ct == CodeType::Oyun {
        Err(ErrorView::Unsupported(ct))
    } else if ct == CodeType::Utn57Shape {
        match utn57_target(s) {
            Ok(u) => match encoded_from(u.text, 0, Seq::empty(), Seq::empty()) {
                Ok(t) => Ok(TranslationView { text: t, warnings: u.warnings }),
                Err(e) => Err(e),
            },
            Err(e) => Err(e),
        }
    } else if ct == CodeType::Utn57 {
        utn57_target(s)
    } else {
        let legacy = legacy_hub(s);
        let written = match series_of(ct) {
            CodeSeries::Shape => match shape_to_rule_of(ct) {
                Some(rule) => match shape_translation(rule, replaced(legacy, WORD_CONNECTOR, ' ')) {
                    Ok(shaped) => Ok(
                        match gap_of(ct) {
                            Some(g) => inserted(g, shaped),
                            None => shaped,
                        },
                    ),
                    Err(e) => Err(e),
                },
                None => Err(ErrorView::MissTranslateRule(ct)),
            },
            CodeSeries::Letter => match letter_to_rule_of(ct) {
                Some(rule) => letter_to_translation(rule, legacy),
                None => Err(ErrorView::MissTranslateRule(ct)),
            },
        };
        match written {
            Ok(t) => Ok(TranslationView { text: t, warnings: Seq::empty() }),
            Err(e) => Err(e),
        }
    }
}

/// Writes a hub text as UTN #57 text.
fn utn57_from_hub(s: &str) -> (r: Result<Translation, MongolConvertError>)
    ensures
        translation_result(r) == utn57_target(s@),
{
    let chars = chars_of(s);
    let hub = string_of(&replace_char(&chars, UNICODE_NIRUGU, HUB_NIRUGU));
    match convert_zvvnmod_to_utn57_with_warnings(hub.as_str()) {
        Ok((text, messages)) => {
            let mut warnings: Vec<Warning> = Vec::new();
            let ghost ms = strings_view(messages@);
            for k in 0..messages.len()
                invariant
                    ms == strings_view(messages@),
                    warning_views(warnings@) == ms.take(k as int).map_values(|m: Seq<char>| WarningView::Utn57(m)),
            {
                assert(ms[k as int] == messages@[k as int]@);
                let message = owned(messages[k].as_str());
                let ghost old_w = warning_views(warnings@);
                warnings.push(Warning::Utn57(message));
                assert(warning_views(warnings@) =~= old_w.push(WarningView::Utn57(ms[k as int])));
                assert(ms.take(k + 1).map_values(|m: Seq<char>| WarningView::Utn57(m)) =~= ms.take(k as int).map_values(
                    |m: Seq<char>| WarningView::Utn57(m),
                ).push(WarningView::Utn57(ms[k as int])));
                assert(warning_views(warnings@) =~= ms.take(k + 1).map_values(|m: Seq<char>| WarningView::Utn57(m)));
            }
            assert(ms.take(messages.len() as int) =~= ms);
            Ok(Translation { text, warnings })
        },
        Err(reason) => Err(MongolConvertError::Utn57(reason)),
    }
}

/// Writes a hub text in a target encoding.
pub fn translate_to(ct: CodeType, s: &str) -> (r: Result<Translation, MongolConvertError>)
    ensures
        translation_result(r) == target_text(ct, s@),
{
    if ct == CodeType::Oyun {
        return Err(MongolConvertError::Unsupported(ct));
    }
    if ct == CodeType::Utn57Shape {
        let utn57 = utn57_from_hub(s)?;
        let text = encode(utn57.text.as_str())?;
        return Ok(Translation { text, warnings: utn57.warnings });
    }
    if ct == CodeType::Utn57 {
        return utn57_from_hub(s);
    }
    let chars = chars_of(s);
    let hub = replace_char(&chars, UNICODE_NIRUGU, HUB_NIRUGU);
    let legacy = replace_char(&replace_char(&hub, HUB_NIRUGU, UNICODE_NIRUGU), HUB_G_O_ISOL, LEGACY_G_O_FINA);
    let text = match ct.code_series() {
        CodeSeries::Shape => {
            let flattened = string_of(&replace_char(&legacy, WORD_CONNECTOR, ' '));
            let rule = shape_to_rule(ct)?;
            let shaped = ShapeTranslator::new(rule).translate(flattened.as_str())?;
            match of(ct) {
                Some(gap) => gap.insert(shaped.as_str()),
                None => shaped,
            }
        },
        CodeSeries::Letter => {
            let rule = letter_to_rule(ct)?;
            LetterToTranslator::new(rule).translate(string_of(&legacy).as_str())?
        },
    };
    Ok(Translation::plain(text))
}

/// What a conversion gives: blank input and a conversion to the source's own encoding come back
/// as they are (a MenkShape source with its emoji restored, if asked); otherwise the source is
/// read into the hub (unless it is the hub) and the hub written in the target (unless it is the
/// hub).
pub open spec fn conversion(from: CodeType, to: CodeType, input: Seq<char>, restore: bool) -> Result<TranslationView, ErrorView> {
    if blank(input) {
        Ok(TranslationView { text: input, warnings: Seq::empty() })
    } else if from == to {
        Ok(TranslationView { text: menk_source(from, input, restore), warnings: Seq::empty() })
    } else {
        let hub = if from == CodeType::Zvvnmod {
            Ok(input)
        } else {
            source_hub(from, input, restore)
        };
        match hub {
            Ok(h) => if to == CodeType::Zvvnmod {
                Ok(TranslationView { text: h, warnings: Seq::empty() })
            } else {
                target_text(to, h)
            },
            Err(e) => Err(e),
        }
    }
}

/// The conversion behind every entry point.
pub fn translate_inner(from: CodeType, to: CodeType, input: &str, options: &TranslationOptions) -> (r: Result<Translation, MongolConvertError>)
    ensures
        translation_result(r) == conversion(from, to, input@, options.restore_menk_shape_emoji),
{
    if is_blank(input) {
        return Ok(Translation::plain(owned(input)));
    }
    if from == to {
        return Ok(Translation::plain(normalize_menk_shape_source(from, input, options)));
    }
    let hub = if from == CodeType::Zvvnmod {
        owned(input)
    } else {
        translate_from(from, input, options)?
    };
    if to == CodeType::Zvvnmod {
        return Ok(Translation::plain(hub));
    }
    translate_to(to, hub.as_str())
}

/// A conversion with the options: the input repaired first when asked (its repairs reported
/// before the conversion's own warnings), then converted.
pub open spec fn conversion_with_options(from: CodeType, to: CodeType, input: Seq<char>, options: TranslationOptions) -> Result<TranslationView, ErrorView> {
    if options.repair_suffix_separators {
        if !(from == CodeType::MenkLetter || from == CodeType::Delehi) {
            Err(ErrorView::UnsupportedInputRepair(from))
        } else {
            match conversion(from, to, repaired_text(input), options.restore_menk_shape_emoji) {
                Ok(t) => Ok(TranslationView { text: t.text, warnings: repairs_from(input, 0) + t.warnings }),
                Err(e) => Err(e),
            }
        }
    } else {
        conversion(from, to, input, options.restore_menk_shape_emoji)
    }
}

/// Converts with optional input repair. Repairs run before source decoding, even when
/// `from == to`. With the default options this is [`translate_with_warnings`].
pub fn translate_with_options(from: CodeType, to: CodeType, input: &str, options: &TranslationOptions) -> (r: Result<Translation, MongolConvertError>)
    ensures
        translation_result(r) == conversion_with_options(from, to, input@, *options),
{
    if options.repair_suffix_separators {
        let (repaired, mut warnings) = suffix_separators(from, input)?;
        let mut result = translate_inner(from, to, repaired.as_str(), options)?;
        let ghost before = warning_views(warnings@);
        let ghost own = warning_views(result.warnings@);
        warnings.append(&mut result.warnings);
        assert(warning_views(warnings@) =~= before + own);
        result.warnings = warnings;
        Ok(result)
    } else {
        translate_inner(from, to, input, options)
    }
}

/// Converts `input` from one Mongolian encoding to another, and says what the conversion had to
/// do beyond what the input said (today only the UTN #57 target reports anything).
pub fn translate_with_warnings(from: CodeType, to: CodeType, input: &str) -> (r: Result<Translation, MongolConvertError>)
    ensures
        translation_result(r) == conversion(from, to, input@, true),
{
    translate_inner(from, to, input, &TranslationOptions::default())
}

/// Converts `input` from one Mongolian encoding to another: the text of
/// [`translate_with_warnings`].
pub fn translate(from: CodeType, to: CodeType, input: &str) -> (r: Result<String, MongolConvertError>)
    ensures
        match conversion(from, to, input@, true) {
            Ok(t) => r matches Ok(s) && s@ == t.text,
            Err(e) => r matches Err(x) && x@ == e,
        },
{
    match translate_with_warnings(from, to, input) {
        Ok(translation) => Ok(translation.text),
        Err(e) => Err(e),
    }
}

} // verus!

verus! {

/// Blank input comes back as it is, whatever the encodings.
pub proof fn lemma_blank_input_is_returned(from: CodeType, to: CodeType, input: Seq<char>, restore: bool)
    requires
        blank(input),
    ensures
        conversion(from, to, input, restore) == Ok::<TranslationView, ErrorView>(
            TranslationView { text: input, warnings: Seq::empty() },
        ),
{
}

/// A conversion from an encoding to itself gives the input back; a MenkShape text only has its
/// legacy emoji restored, and only when asked.
pub proof fn lemma_same_encoding_is_identity(ct: CodeType, input: Seq<char>, restore: bool)
    ensures
        !blank(input) ==> conversion(ct, ct, input, restore) == Ok::<TranslationView, ErrorView>(
            TranslationView { text: menk_source(ct, input, restore), warnings: Seq::empty() },
        ),
        ct != CodeType::MenkShape || !restore ==> conversion(ct, ct, input, restore) == Ok::<TranslationView, ErrorView>(
            TranslationView { text: input, warnings: Seq::empty() },
        ),
{
}

/// With the default options, converting with options is converting with warnings.
pub proof fn lemma_default_options_change_nothing(from: CodeType, to: CodeType, input: Seq<char>)
    ensures
        conversion_with_options(
            from,
            to,
            input,
            TranslationOptions { repair_suffix_separators: false, restore_menk_shape_emoji: true },
        ) == conversion(from, to, input, true),
{
}

/// Promotion keeps the length and changes nothing but a word-initial `E09C`, into `E096`.
pub proof fn lemma_promotion_only_changes_g_o(s: Seq<char>)
    ensures
        promoted(s).len() == s.len(),
        forall|i: int|
            0 <= i < s.len() ==> #[trigger] promoted(s)[i] == s[i] || (s[i] == LEGACY_G_O_FINA && promoted(s)[i]
                == HUB_G_O_ISOL),
{
}

/// Every source but UTN #57 (whose crate spells the hub itself) reaches the hub with the nirugu
/// spelled the hub's way: no Unicode nirugu is left in the hub.
pub proof fn lemma_hub_spells_the_nirugu_its_own_way(ct: CodeType, s: Seq<char>, restore: bool)
    requires
        ct != CodeType::Utn57,
        ct != CodeType::Utn57Shape,
    ensures
        source_hub(ct, s, restore) matches Ok(h) ==> !h.contains(UNICODE_NIRUGU),
{
    if let Ok(h) = source_hub(ct, s, restore) {
        if h.contains(UNICODE_NIRUGU) {
            let i = choose|i: int| 0 <= i < h.len() && h[i] == UNICODE_NIRUGU;
            assert(h[i] == UNICODE_NIRUGU);
        }
    }
}

/// The legacy tables are never handed the hub's own codes: neither its nirugu `E0E5` nor the
/// initial ligature `E096` is left in what they are given.
pub proof fn lemma_legacy_hub_has_no_hub_only_codes(s: Seq<char>)
    ensures
        !legacy_hub(s).contains(HUB_NIRUGU),
        !legacy_hub(s).contains(HUB_G_O_ISOL),
        legacy_hub(s).len() == s.len(),
{
    let l = legacy_hub(s);
    if l.contains(HUB_NIRUGU) {
        let i = choose|i: int| 0 <= i < l.len() && l[i] == HUB_NIRUGU;
        assert(l[i] == HUB_NIRUGU);
    }
    if l.contains(HUB_G_O_ISOL) {
        let i = choose|i: int| 0 <= i < l.len() && l[i] == HUB_G_O_ISOL;
        assert(l[i] == HUB_G_O_ISOL);
    }
}

/// Repair asked for on a source that is not MenkLetter or Delehi is always refused with the
/// repair error; on those two it repairs the input and converts the repaired text without
/// repair, its repairs reported before the conversion's own warnings.
pub proof fn lemma_repair_needs_a_letter_source(from: CodeType, to: CodeType, input: Seq<char>, options: TranslationOptions)
    requires
        options.repair_suffix_separators,
    ensures
        !(from == CodeType::MenkLetter || from == CodeType::Delehi) ==> conversion_with_options(from, to, input, options)
            == Err::<TranslationView, ErrorView>(ErrorView::UnsupportedInputRepair(from)),
        (from == CodeType::MenkLetter || from == CodeType::Delehi) ==> conversion_with_options(from, to, input, options)
            == match conversion_with_options(
            from,
            to,
            repaired_text(input),
            TranslationOptions { repair_suffix_separators: false, restore_menk_shape_emoji: options.restore_menk_shape_emoji },
        ) {
            Ok(t) => Ok(TranslationView { text: t.text, warnings: repairs_from(input, 0) + t.warnings }),
            Err(e) => Err(e),
        },
{
}

/// Oyun is refused: as the source of a conversion to another encoding, with the Oyun error;
/// as the target, the conversion fails whatever the source (with the Oyun error once the source
/// has been read, or with the reading's own error).
pub proof fn lemma_oyun_is_refused(from: CodeType, to: CodeType, input: Seq<char>, restore: bool)
    requires
        !blank(input),
        from != to,
    ensures
        from == CodeType::Oyun ==> conversion(from, to, input, restore) == Err::<TranslationView, ErrorView>(
            ErrorView::Unsupported(CodeType::Oyun),
        ),
        to == CodeType::Oyun ==> conversion(from, to, input, restore) is Err,
        to == CodeType::Oyun && (from == CodeType::Zvvnmod || source_hub(from, input, restore) is Ok) ==> conversion(
            from,
            to,
            input,
            restore,
        ) == Err::<TranslationView, ErrorView>(ErrorView::Unsupported(CodeType::Oyun)),
{
}

} // verus!
