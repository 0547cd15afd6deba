use mongol_convert::bindings;
use mongol_convert::dispatch::{letter_from_rule, letter_to_rule, shape_from_rule, shape_to_rule};
use mongol_convert::letter::delehi::{get_delehi, DelehiTo};
use mongol_convert::letter::from_translator::push_mapped;
use mongol_convert::letter::menk::{
    contains_fvs3_i, get_menk, replace_fvs3_i_vec, resolve_devsger_i, resolve_g, resolve_single_gii_and_ue011,
    resolve_t, resolve_ue00c_menk, MenkLetterTo,
};
use mongol_convert::letter::rule::{concat_and_202f, is_padded_nirugu, LetterFromRule, LetterToRule};
use mongol_convert::numbers::{decimal_text, upper_hex4_text};
use mongol_convert::repair::suffix_separators;
use mongol_convert::shape::punctuation_gap::of;
use mongol_convert::shape::rule::ShapeRule;
use mongol_convert::utn57_shape::{join_units, split, Piece};
use mongol_convert::word::char_type::CharType;
use mongol_convert::word::letter_word::{LetterWord, LetterWordFragment};
use mongol_convert::word::nature::Nature;
use mongol_convert::word::shape_word::{ShapeWord, ShapeWordFragment};
use mongol_convert::{
    restore_menk_shape_emoji, translate, translate_with_options, translate_with_warnings, version, CodeType,
    MongolConvertError, TranslationOptions, Warning,
};

fn chars(s: &str) -> Vec<char> {
    s.chars().collect()
}

fn text(v: &[char]) -> String {
    v.iter().collect()
}

fn shape_word(keys: &[&str]) -> ShapeWord {
    let mut word = ShapeWord::new();
    for key in keys {
        let mut fragment = ShapeWordFragment::new();
        for c in key.chars() {
            fragment.push(c);
        }
        word.add(fragment);
    }
    word
}

#[test]
fn blank_input_comes_back_unchanged_whatever_the_encodings() {
    for (from, to) in [
        (CodeType::Delehi, CodeType::MenkShape),
        (CodeType::Oyun, CodeType::Z52),
        (CodeType::Utn57Shape, CodeType::Utn57),
    ] {
        assert_eq!(translate(from, to, " \t\n").unwrap(), " \t\n");
        assert_eq!(translate(from, to, "").unwrap(), "");
    }
}

#[test]
fn a_conversion_to_the_same_encoding_is_the_identity() {
    for ct in [CodeType::Delehi, CodeType::Z52, CodeType::Oyun, CodeType::Utn57] {
        assert_eq!(translate(ct, ct, "abc \u{1820}\u{2648}").unwrap(), "abc \u{1820}\u{2648}");
    }
    // A MenkShape source only has its legacy emoji restored, and only when asked.
    assert_eq!(translate(CodeType::MenkShape, CodeType::MenkShape, "x\u{2648}\u{FE0F}").unwrap(), "x\u{E23F}");
    let keep = TranslationOptions { repair_suffix_separators: false, restore_menk_shape_emoji: false };
    assert_eq!(
        translate_with_options(CodeType::MenkShape, CodeType::MenkShape, "x\u{2648}", &keep).unwrap().text,
        "x\u{2648}"
    );
}

#[test]
fn oyun_is_unsupported_both_ways() {
    assert_eq!(
        translate(CodeType::Oyun, CodeType::Zvvnmod, "x"),
        Err(MongolConvertError::Unsupported(CodeType::Oyun))
    );
    assert_eq!(
        translate(CodeType::Zvvnmod, CodeType::Oyun, "x"),
        Err(MongolConvertError::Unsupported(CodeType::Oyun))
    );
}

#[test]
fn the_default_options_keep_the_input_behaviour() {
    let options = TranslationOptions::default();
    assert!(!options.repair_suffix_separators);
    assert!(options.restore_menk_shape_emoji);
    let with_options = translate_with_options(CodeType::Zvvnmod, CodeType::Z52, "a!b", &options).unwrap();
    assert_eq!(with_options, translate_with_warnings(CodeType::Zvvnmod, CodeType::Z52, "a!b").unwrap());
}

#[test]
fn the_hub_gets_its_own_nirugu_and_the_legacy_tables_theirs() {
    assert_eq!(translate(CodeType::Delehi, CodeType::Zvvnmod, "A\u{180A}B").unwrap(), "A\u{E0E5}B");
    assert_eq!(translate(CodeType::MenkLetter, CodeType::Zvvnmod, "\u{180A}").unwrap(), "\u{E0E5}");
    // The legacy tables never see E0E5 or E096.
    let out = translate(CodeType::Zvvnmod, CodeType::Delehi, "\u{E0E5}\u{E096}").unwrap();
    assert_eq!(out, "\u{180A}\u{E09C}");
}

#[test]
fn the_shape_targets_flatten_the_suffix_boundary() {
    assert_eq!(translate(CodeType::Zvvnmod, CodeType::Z52, "a\u{202F}b").unwrap(), "a b");
}

#[test]
fn repair_replaces_only_the_space_and_reports_its_byte_offset() {
    let options = TranslationOptions { repair_suffix_separators: true, restore_menk_shape_emoji: true };
    let result = translate_with_options(CodeType::Delehi, CodeType::Delehi, "ᠤᠯᠤᠰ\u{A0}ᠤᠨ", &options).unwrap();
    assert_eq!(result.text, "ᠤᠯᠤᠰ\u{202F}ᠤᠨ");
    assert_eq!(result.warnings, vec![Warning::RepairedSuffixSeparator { byte_offset: 12, original: '\u{A0}' }]);
    let (repaired, warnings) = suffix_separators(CodeType::MenkLetter, "x ᠤᠯᠤᠰ ᠤᠨ").unwrap();
    assert_eq!(repaired, "x ᠤᠯᠤᠰ\u{202F}ᠤᠨ");
    assert_eq!(warnings, vec![Warning::RepairedSuffixSeparator { byte_offset: 14, original: ' ' }]);
    assert_eq!(
        suffix_separators(CodeType::Z52, "ᠤᠯᠤᠰ ᠤᠨ"),
        Err(MongolConvertError::UnsupportedInputRepair(CodeType::Z52))
    );
}

#[test]
fn a_number_can_take_a_case_suffix() {
    let (repaired, warnings) = suffix_separators(CodeType::Delehi, "2024 ᠤᠨ").unwrap();
    assert_eq!(repaired, "2024\u{202F}ᠤᠨ");
    assert_eq!(warnings.len(), 1);
    let (kept, none) = suffix_separators(CodeType::Delehi, "( ᠤᠨ").unwrap();
    assert_eq!(kept, "( ᠤᠨ");
    assert!(none.is_empty());
}

#[test]
fn warning_messages_spell_the_offset_and_the_code_point() {
    assert_eq!(
        Warning::RepairedSuffixSeparator { byte_offset: 12, original: ' ' }.to_string(),
        "repaired possible suffix separator at input byte 12: U+0020 -> U+202F"
    );
    assert_eq!(
        Warning::RepairedSuffixSeparator { byte_offset: 1234567, original: '\u{1F600}' }.to_string(),
        "repaired possible suffix separator at input byte 1234567: U+1F600 -> U+202F"
    );
    assert_eq!(Warning::Utn57("a reason".to_string()).to_string(), "UTN #57: a reason");
}

#[test]
fn numerals_are_written_in_full() {
    assert_eq!(decimal_text(0), "0");
    assert_eq!(decimal_text(1234), "1234");
    assert_eq!(upper_hex4_text(0x41), "0041");
    assert_eq!(upper_hex4_text(0xE09C), "E09C");
    assert_eq!(upper_hex4_text(0x1F600), "1F600");
}

#[test]
fn error_messages_name_the_problem() {
    assert_eq!(MongolConvertError::NothingToPop.to_string(), "nothing to pop");
    assert_eq!(
        MongolConvertError::NotFoundInMapper("x".to_string()).to_string(),
        "key not found in mapper: \"x\""
    );
    assert_eq!(
        MongolConvertError::MissTranslateRule(CodeType::Z52).to_string(),
        "missing translate rule for Z52"
    );
    assert_eq!(
        MongolConvertError::Unsupported(CodeType::Oyun).to_string(),
        "conversion not supported for Oyun"
    );
    assert_eq!(
        MongolConvertError::UnsupportedEnumType("nope".to_string()).to_string(),
        "unsupported encoding name: \"nope\""
    );
    assert_eq!(
        MongolConvertError::NotSupportedCodeSeries(CodeType::Delehi).to_string(),
        "unsupported code series for Delehi"
    );
}

#[test]
fn each_encoding_has_the_rules_of_its_series() {
    assert_eq!(shape_from_rule(CodeType::Z52), Ok(ShapeRule::Z52From));
    assert_eq!(shape_to_rule(CodeType::MenkShape), Ok(ShapeRule::MenkShapeTo));
    assert_eq!(letter_from_rule(CodeType::Delehi), Ok(LetterFromRule::Delehi));
    assert_eq!(letter_to_rule(CodeType::MenkLetter), Ok(LetterToRule::MenkLetter));
    assert_eq!(
        shape_from_rule(CodeType::Delehi),
        Err(MongolConvertError::MissTranslateRule(CodeType::Delehi))
    );
    assert_eq!(
        letter_to_rule(CodeType::Z52),
        Err(MongolConvertError::MissTranslateRule(CodeType::Z52))
    );
}

#[test]
fn legacy_emoji_are_restored_and_their_selector_dropped() {
    assert_eq!(restore_menk_shape_emoji("\u{27A1}\u{FE0F}\u{FE0F}a"), "\u{E234}\u{FE0F}a");
    assert_eq!(restore_menk_shape_emoji("a\u{FE0F}"), "a\u{FE0F}");
    assert_eq!(restore_menk_shape_emoji("\u{1F372}"), "\u{E34D}");
}

#[test]
fn the_version_is_the_package_version() {
    assert_eq!(version(), "0.7.1");
}

#[test]
fn a_gap_written_and_taken_out_leaves_the_text() {
    let gap = of(CodeType::Z52).unwrap();
    let text = "\u{186B}\u{1855}\u{1867}\u{1856}\u{184F}\u{1867}";
    let written = gap.insert(text);
    assert_eq!(written, "\u{186B}\u{202F}\u{1855}\u{1867}\u{1856}\u{202F}\u{184F}\u{202F}\u{1867}");
    assert_eq!(gap.strip(&written), text);
    assert!(of(CodeType::Delehi).is_none());
}

#[test]
fn splitting_loses_nothing() {
    let text = "x SAIIA,2024 a+B Zwj";
    let joined: String = split(text)
        .into_iter()
        .map(|piece| match piece {
            Piece::Word(w) => w,
            Piece::Other(o) => o,
        })
        .collect();
    assert_eq!(joined, text);
}

#[test]
fn unit_names_are_written_one_after_another() {
    assert_eq!(join_units(&vec!["S".to_string(), "A".to_string(), "Mvs".to_string()]), "SAMvs");
    assert_eq!(join_units(&Vec::new()), "");
}

#[test]
fn a_spelled_word_goes_to_the_hub_through_utn57() {
    let hub = translate(CodeType::Utn57Shape, CodeType::Zvvnmod, "SAIIA").unwrap();
    assert_eq!(hub, translate(CodeType::Utn57, CodeType::Zvvnmod, "\u{1830}\u{1820}\u{1822}\u{180D}\u{1822}\u{180D}\u{1820}\u{180C}").unwrap());
}

#[test]
fn the_nirugu_key_may_carry_spaces() {
    assert!(is_padded_nirugu("\u{180A}"));
    assert!(is_padded_nirugu("  \u{180A} "));
    assert!(!is_padded_nirugu(" \u{180A}\u{180A} "));
    assert!(!is_padded_nirugu("   "));
    assert!(!is_padded_nirugu("a\u{180A}"));
}

#[test]
fn a_connector_replaces_a_boundary_at_the_join() {
    assert_eq!(text(&concat_and_202f(&chars("ab "), &chars("\u{202F}c"))), "ab\u{202F}c");
    assert_eq!(text(&concat_and_202f(&chars("ab\u{202F}"), &chars("\u{202F}c"))), "ab\u{202F}c");
    assert_eq!(text(&concat_and_202f(&chars("ab"), &chars("\u{202F}c"))), "ab\u{202F}c");
    assert_eq!(text(&concat_and_202f(&chars("ab "), &chars("c"))), "ab c");
}

#[test]
fn a_mapped_space_under_a_connector_key_is_the_connector() {
    let mut builder = chars("x");
    push_mapped(&mut builder, " \u{202F}\u{1824}", " \u{E00C}");
    assert_eq!(text(&builder), "x\u{202F}\u{E00C}");
    let mut plain = chars("x");
    push_mapped(&mut plain, " \u{1824}", " \u{E00C}");
    assert_eq!(text(&plain), "x \u{E00C}");
}

#[test]
fn the_menk_letter_context_rules() {
    assert_eq!(resolve_devsger_i(&chars("\u{1820}"), "\u{1822}"), Some("\u{E006}\u{E006}"));
    assert_eq!(resolve_devsger_i(&chars("\u{1822}"), "\u{1822}"), None);
    assert_eq!(resolve_devsger_i(&chars("\u{1828}\u{1820}\u{1822}"), "\u{1822}"), Some(""));
    assert_eq!(resolve_t(&['\u{1828}'], "\u{1832}"), Some("\u{E043}"));
    assert_eq!(resolve_t(&['\u{1820}'], "\u{1832}"), None);
    assert_eq!(resolve_g(&['\u{1828}'], "\u{182D}", Nature::Chagh), Some("\u{E005}\u{E005}"));
    assert_eq!(resolve_g(&['\u{1828}'], "\u{182D}", Nature::Hundii), Some("\u{E031}"));
    assert_eq!(resolve_ue00c_menk(&chars("\u{1820}"), "\u{E00C}", Nature::Chagh), Some("\u{1828}"));
    assert_eq!(resolve_ue00c_menk(&chars(""), "\u{E00C}", Nature::Hundii), Some("\u{1821}"));
    assert_eq!(resolve_single_gii_and_ue011(&chars("\u{1832}"), "\u{E011}"), Some("\u{1824}"));
    assert_eq!(resolve_single_gii_and_ue011(&chars("\u{1828}"), "\u{E011}"), Some("\u{1824}\u{180B}"));
    assert_eq!(get_menk(&chars("\u{1830}"), "\u{E00C}", Nature::Chagh), Some("\u{1820}"));
}

#[test]
fn fvs3_before_i_is_written_as_a_plain_i() {
    let v = chars("a\u{180D}\u{1822}b\u{180D}\u{1822}");
    assert!(contains_fvs3_i(&v));
    assert_eq!(text(&replace_fvs3_i_vec(&v)), "a\u{1822}b\u{1822}");
    assert!(!contains_fvs3_i(&chars("\u{1822}\u{180D}")));
}

#[test]
fn the_final_a_is_n_after_a_vowel_in_the_letter_targets() {
    let mut builder = chars("");
    DelehiTo.get_mapper_code(&mut builder, &shape_word(&["\u{E00C}", "\u{E00C}"])).unwrap();
    assert_eq!(text(&builder), "\u{1820}\u{1828}");
    assert_eq!(get_delehi(&chars("\u{1821}"), "\u{E00C}").map(|v| text(&v)), Some("\u{1821}\u{1828}".to_string()));
    let mut menk = chars("x ");
    MenkLetterTo.get_mapper_code(&mut menk, &shape_word(&["\u{E00C}", "\u{E00C}"])).unwrap();
    assert_eq!(text(&menk), "x \u{1820}\u{1828}");
}

#[test]
fn a_feminine_marker_makes_the_shape_word_feminine() {
    assert_eq!(shape_word(&["\u{E000}"]).nature, Nature::Chagh);
    assert_eq!(shape_word(&["\u{E000}", "\u{E031}"]).nature, Nature::Hundii);
}

#[test]
fn a_letter_fragment_latches_its_first_nature() {
    let mut f = LetterWordFragment::new();
    assert_eq!(f.nature(), Nature::Saarmag);
    f.set_nature(Nature::Saarmag);
    f.set_nature(Nature::Hundii);
    f.set_nature(Nature::Chagh);
    assert_eq!(f.nature(), Nature::Hundii);
    f.push('\u{1821}');
    f.set_head(Some(CharType::Other));
    f.set_tail(Some(CharType::Mongolian));
    assert_eq!(f.get_key(), " \u{1821}");
    let mut word = LetterWord::new();
    word.add(f);
    assert_eq!(word.nature, Nature::Hundii);
}

#[test]
fn a_repeated_selector_at_the_end_of_a_word_is_dropped() {
    let mut word = LetterWord::new();
    let mut first = LetterWordFragment::new();
    first.push('\u{1820}');
    first.push('\u{180B}');
    first.set_tail(Some(CharType::Mongolian));
    let mut second = LetterWordFragment::new();
    second.push('\u{180B}');
    word.add(first);
    word.add(second);
    word.remove_invalid_code_point_from_end();
    assert_eq!(word.fragments.len(), 1);
    assert_eq!(word.fragments[0].get_key(), " \u{1820}\u{180B} ");
}

#[test]
fn the_bindings_name_encodings_and_report_errors_as_messages() {
    assert_eq!(bindings::translate("zvvnmod", "Z52", "!"), Ok("\u{1852}".to_string()));
    assert_eq!(
        bindings::translate("nope", "z52", "!"),
        Err("unsupported encoding name: \"nope\"".to_string())
    );
    assert_eq!(
        bindings::translate("zvvnmod", "oyun", "x"),
        Err("conversion not supported for Oyun".to_string())
    );
    assert_eq!(bindings::version(), "0.7.1");
}

#[test]
fn the_bindings_set_repairs_apart_from_warnings() {
    let repaired = bindings::translate_with_all_options("delehi", "delehi", "ᠤᠯᠤᠰ ᠤᠨ", true, true).unwrap();
    assert_eq!(repaired.text, "ᠤᠯᠤᠰ\u{202F}ᠤᠨ");
    assert!(repaired.warnings.is_empty());
    assert_eq!(
        repaired.repairs,
        vec!["repaired possible suffix separator at input byte 12: U+0020 -> U+202F".to_string()]
    );
    let padded = bindings::translate_with_warnings("zvvnmod", "utn57", "\u{E09C}").unwrap();
    assert!(padded.repairs.is_empty());
    assert_eq!(padded.warnings.len(), 1);
    assert!(padded.warnings[0].starts_with("UTN #57: "), "{:?}", padded.warnings);
    assert_eq!(
        bindings::translate_with_options("z52", "delehi", "x", true).err(),
        Some("suffix separator repair requires menk_letter or delehi input, got Z52".to_string())
    );
}

#[test]
fn text_no_rule_maps_passes_through() {
    for (from, to) in [
        (CodeType::Z52, CodeType::Zvvnmod),
        (CodeType::MenkShape, CodeType::Zvvnmod),
        (CodeType::Delehi, CodeType::Zvvnmod),
        (CodeType::Zvvnmod, CodeType::MenkLetter),
        (CodeType::Zvvnmod, CodeType::Delehi),
    ] {
        assert_eq!(translate(from, to, "abc 中🙂\t.").unwrap(), "abc 中🙂\t.", "{from:?} -> {to:?}");
    }
}
