use mongol_convert::code_type::CodeSeries;
use mongol_convert::router::promote_word_initial_g_o;
use mongol_convert::shape::punctuation_gap::{of, Side, MENK_SHAPE_SPACED, Z52_SPACED};
use mongol_convert::shape::softbank_emoji::restore_menk_shape;
use mongol_convert::strings::{end_of_char, end_of_str, is_blank};
use mongol_convert::tables::{
    from_delehi, from_menk_letter, from_menk_shape, from_z52, menk_shape_block, to_delehi, to_menk_letter,
    to_menk_shape, to_z52, z52_block, zvvnmod_block,
};
use mongol_convert::unicode::mgl::{
    get_code_nature, is_ehshig, is_free_variation_selector, is_giiguulegch, is_normal_letter, is_traditional_ehshig,
    is_vowel_separator, other_mongolian_code,
};
use mongol_convert::unicode::z52::{is_z52_code, is_z52_code_punctuation};
use mongol_convert::unicode::zvvnmod::{
    is_to_z52_punctuation, is_zvvnmod_code, is_zvvnmod_punctuation, is_zvvnmod_tail_code,
};
use mongol_convert::utn57_shape::{decode, encode, split, Piece};
use mongol_convert::word::char_type::CharType;
use mongol_convert::word::nature::Nature;
use mongol_convert::word::shape_word::ShapeWordFragment;
use mongol_convert::{CodeType, MongolConvertError};

const MENK_GAP: &str = "\u{E263}";
const Z52_GAP: &str = "\u{202F}";

fn menk_shape_insert(text: &str) -> String {
    of(CodeType::MenkShape).unwrap().insert(text)
}

fn menk_shape_strip(text: &str) -> String {
    of(CodeType::MenkShape).unwrap().strip(text)
}

fn z52_insert(text: &str) -> String {
    of(CodeType::Z52).unwrap().insert(text)
}

fn z52_strip(text: &str) -> String {
    of(CodeType::Z52).unwrap().strip(text)
}

#[test]
fn series_matches_java() {
    assert_eq!(CodeType::Zvvnmod.code_series(), CodeSeries::Shape);
    assert_eq!(CodeType::Delehi.code_series(), CodeSeries::Letter);
    assert_eq!(CodeType::MenkShape.code_series(), CodeSeries::Shape);
    assert_eq!(CodeType::MenkLetter.code_series(), CodeSeries::Letter);
    assert_eq!(CodeType::Oyun.code_series(), CodeSeries::Letter);
    assert_eq!(CodeType::Utn57.code_series(), CodeSeries::Letter);
    assert_eq!(CodeType::Z52.code_series(), CodeSeries::Shape);
}

#[test]
fn parse_canonical_java_form() {
    assert_eq!("menk_shape".parse::<CodeType>().unwrap(), CodeType::MenkShape);
    assert_eq!("Menk_Shape".parse::<CodeType>().unwrap(), CodeType::MenkShape);
    assert_eq!("ZVVNMOD".parse::<CodeType>().unwrap(), CodeType::Zvvnmod);
    assert_eq!("z52".parse::<CodeType>().unwrap(), CodeType::Z52);
}

#[test]
fn parse_php_alias() {
    assert_eq!("menkshape".parse::<CodeType>().unwrap(), CodeType::MenkShape);
    assert_eq!("menkletter".parse::<CodeType>().unwrap(), CodeType::MenkLetter);
}

#[test]
fn canonical_roundtrips() {
    for ct in [
        CodeType::Zvvnmod,
        CodeType::Delehi,
        CodeType::MenkShape,
        CodeType::MenkLetter,
        CodeType::Oyun,
        CodeType::Utn57,
        CodeType::Z52,
    ] {
        assert_eq!(ct.canonical_str().parse::<CodeType>().unwrap(), ct);
    }
}

#[test]
fn unknown_errors() {
    assert!(matches!(
        "nope".parse::<CodeType>(),
        Err(MongolConvertError::UnsupportedEnumType(_))
    ));
    assert!(CodeType::get("").is_err());
}

#[test]
fn utn57_shape_parses_and_prints_like_menk_shape() {
    assert_eq!(CodeType::get("utn57_shape").unwrap(), CodeType::Utn57Shape);
    assert_eq!(CodeType::get("UTN57SHAPE").unwrap(), CodeType::Utn57Shape);
    assert_eq!(CodeType::Utn57Shape.canonical_str(), "utn57_shape");
    assert_eq!(CodeType::Utn57Shape.code_series(), CodeSeries::Letter);
}

#[test]
fn blank_matches_java_trim_semantics() {
    assert!(is_blank(""));
    assert!(is_blank("   "));
    assert!(is_blank("\t\n\r "));
    assert!(!is_blank(" a "));
    assert!(!is_blank("x"));
    assert!(!is_blank("\u{00A0}"));
    assert!(!is_blank("\u{2003}"));
}

#[test]
fn end_of_helpers() {
    assert!(end_of_char("abc", 'c'));
    assert!(!end_of_char("abc", 'b'));
    assert!(!end_of_char("   ", ' '));
    assert!(end_of_str("hello", "lo"));
    assert!(!end_of_str("hello", "he"));
    assert!(!end_of_str("hi", ""));
}

fn map_sorted_unique(m: &[(&str, &str)]) -> bool {
    m.windows(2).all(|w| w[0].0 < w[1].0)
}

fn chars_sorted_unique(s: &[char]) -> bool {
    s.windows(2).all(|w| w[0] < w[1])
}

#[test]
fn mappers_sorted_unique() {
    assert!(map_sorted_unique(&from_z52::FROM_Z52));
    assert!(map_sorted_unique(&to_z52::TO_Z52));
    assert!(map_sorted_unique(&from_menk_shape::FROM_MENK_SHAPE));
    assert!(map_sorted_unique(&to_menk_shape::TO_MENK_SHAPE));
}

#[test]
fn char_sets_sorted_unique() {
    assert!(chars_sorted_unique(&z52_block::Z52_CODES));
    assert!(chars_sorted_unique(&z52_block::Z52_CODE_PUNCTUATIONS));
    assert!(chars_sorted_unique(&zvvnmod_block::ZVVNMOD_CODES));
    assert!(chars_sorted_unique(&zvvnmod_block::ZVVNMOD_TAIL_CODES));
    assert!(chars_sorted_unique(&zvvnmod_block::ZVVNMOD_PUNCTUATIONS));
    assert!(chars_sorted_unique(&zvvnmod_block::TO_Z52_PUNCTUATIONS));
    assert!(chars_sorted_unique(&menk_shape_block::MENK_SHAPE_NOT_SUPPORT));
}

#[test]
fn letter_mappers_sorted_unique() {
    let maps: [&[(&str, &str)]; 13] = [
        &from_delehi::FROM_DELEHI,
        &from_delehi::FROM_DELEHI_CHAGH,
        &from_delehi::FROM_DELEHI_HUNDII,
        &from_delehi::FROM_DELEHI_SAARMAG,
        &to_delehi::TO_DELEHI,
        &from_menk_letter::FROM_MENK_LETTER,
        &from_menk_letter::FROM_MENK_LETTER_CHAGH,
        &from_menk_letter::FROM_MENK_LETTER_HUNDII,
        &from_menk_letter::FROM_MENK_LETTER_SAARMAG,
        &from_menk_letter::FROM_MENK_LETTER_W_WITH_EHSHIG,
        &to_menk_letter::TO_MENK_LETTER,
        &to_menk_letter::TO_MENK_LETTER_HUNDII,
        &to_menk_letter::TO_MENK_LETTER_CHAGH,
    ];
    for m in maps {
        assert!(map_sorted_unique(m));
    }
}

#[test]
fn normal_letter_range() {
    assert!(is_normal_letter('\u{1820}'));
    assert!(is_normal_letter('\u{183F}'));
    assert!(!is_normal_letter('\u{181F}'));
    assert!(!is_normal_letter('\u{1840}'));
}

#[test]
fn fvs_and_vs() {
    assert!(is_free_variation_selector('\u{180B}'));
    assert!(is_free_variation_selector('\u{180D}'));
    assert!(!is_free_variation_selector('\u{180E}'));
    assert!(is_vowel_separator('\u{180E}'));
    assert!(other_mongolian_code('\u{180A}'));
}

#[test]
fn nature_classification() {
    assert_eq!(get_code_nature('\u{1820}'), Nature::Chagh);
    assert_eq!(get_code_nature('\u{1823}'), Nature::Chagh);
    assert_eq!(get_code_nature('\u{1821}'), Nature::Hundii);
    assert_eq!(get_code_nature('\u{1826}'), Nature::Hundii);
    assert_eq!(get_code_nature('\u{1822}'), Nature::Saarmag);
}

#[test]
fn ehshig_includes_1827_traditional_does_not() {
    assert!(is_ehshig('\u{1820}'));
    assert!(is_ehshig('\u{1827}'));
    assert!(is_traditional_ehshig('\u{1820}'));
    assert!(!is_traditional_ehshig('\u{1827}'));
}

#[test]
fn giiguulegch_upper_bound_is_1842_java_not_183f() {
    assert!(is_giiguulegch('\u{1828}'));
    assert!(is_giiguulegch('\u{1842}'));
    assert!(!is_giiguulegch('\u{1827}'));
    assert!(!is_giiguulegch('\u{1843}'));
}

#[test]
fn z52_membership() {
    assert!(is_z52_code('\u{1865}'));
    assert!(is_z52_code('\u{18aa}'));
    assert!(!is_z52_code('\u{1869}'));
    assert!(!is_z52_code('\u{184f}'));
    assert!(is_z52_code_punctuation('\u{184f}'));
    assert!(is_z52_code_punctuation('\u{1863}'));
    assert!(!is_z52_code_punctuation('\u{1864}'));
}

#[test]
fn zvvnmod_membership() {
    assert!(is_zvvnmod_code('\u{e000}'));
    assert!(is_zvvnmod_code('\u{e144}'));
    assert!(is_zvvnmod_tail_code('\u{e00c}'));
    assert!(is_zvvnmod_tail_code('\u{e0d0}'));
    assert!(!is_zvvnmod_tail_code('\u{e000}'));
    assert!(is_zvvnmod_punctuation('\u{1800}'));
    assert!(is_to_z52_punctuation('\u{2048}'));
    assert!(is_to_z52_punctuation('!'));
    assert!(is_to_z52_punctuation('?'));
    assert!(!is_to_z52_punctuation('\u{00b7}'));
}

#[test]
fn zvvnmod_birgas_replace_menk_shape_pua() {
    for c in '\u{11660}'..='\u{11663}' {
        assert!(is_zvvnmod_punctuation(c));
    }
    for c in '\u{e23f}'..='\u{e242}' {
        assert!(!is_zvvnmod_punctuation(c));
    }
}

#[test]
fn key_vs_locate_key_padding() {
    let mut f = ShapeWordFragment::new();
    f.push('\u{e000}');
    f.set_head(Some(CharType::Other));
    f.set_tail(Some(CharType::Other));
    assert_eq!(f.get_key(), "\u{e000}");
    assert_eq!(f.get_locate_key(), " \u{e000} ");

    f.set_head(Some(CharType::Mongolian));
    f.set_tail(Some(CharType::Mongolian));
    assert_eq!(f.get_locate_key(), "\u{e000}");
    assert_eq!(f.get_key(), "\u{e000}");
}

#[test]
fn pop_empty_errs() {
    let mut f = ShapeWordFragment::new();
    assert_eq!(f.pop(), Err(MongolConvertError::NothingToPop));
}

#[test]
fn both_tables_are_sorted_so_the_search_finds_every_mark() {
    for (code, spaced) in [
        (CodeType::MenkShape, &MENK_SHAPE_SPACED[..]),
        (CodeType::Z52, &Z52_SPACED[..]),
    ] {
        let gap = of(code).unwrap();
        assert!(spaced.windows(2).all(|pair| pair[0].0 < pair[1].0));
        for &(mark, _) in spaced {
            assert!(gap.side(mark).is_some(), "{mark:?} not found");
        }
    }
    let count = |spaced: &[(char, Side)], want: Side| spaced.iter().filter(|(_, s)| *s == want).count();
    assert_eq!(MENK_SHAPE_SPACED.len(), 24);
    assert_eq!(count(&MENK_SHAPE_SPACED, Side::Before), 18);
    assert_eq!(count(&MENK_SHAPE_SPACED, Side::After), 5);
    assert_eq!(count(&MENK_SHAPE_SPACED, Side::Both), 1);
    assert_eq!(Z52_SPACED.len(), 17);
    assert_eq!(count(&Z52_SPACED, Side::Before), 11);
    assert_eq!(count(&Z52_SPACED, Side::After), 5);
    assert_eq!(count(&Z52_SPACED, Side::Both), 1);
}

#[test]
fn only_the_encoding_that_owns_a_mark_spaces_it() {
    assert_eq!(z52_insert("\u{E2B5}\u{E236}\u{E271}"), "\u{E2B5}\u{E236}\u{E271}");
    assert_eq!(menk_shape_insert("\u{186B}\u{1852}\u{1867}"), "\u{186B}\u{1852}\u{1867}");
}

#[test]
fn marks_that_take_no_gap_are_untouched() {
    for mark in ['\u{E234}', '\u{E23A}', '\u{E23B}', '\u{E25E}', '\u{E25F}', '\u{E260}', '\u{E261}'] {
        let text = format!("\u{E2B5}{mark}\u{E271}");
        assert_eq!(menk_shape_insert(&text), text, "{mark:?}");
        assert_eq!(menk_shape_strip(&text), text, "{mark:?}");
    }
    for mark in ['\u{1860}', '\u{1861}', '\u{1862}', '\u{1863}', '\u{1802}', '\u{1800}'] {
        let text = format!("\u{186B}{mark}\u{1867}");
        assert_eq!(z52_insert(&text), text, "{mark:?}");
        assert_eq!(z52_strip(&text), text, "{mark:?}");
    }
}

#[test]
fn a_gap_is_written_on_the_side_the_mark_takes() {
    assert_eq!(
        menk_shape_insert("\u{E2B5}\u{E236}\u{E271}"),
        format!("\u{E2B5}{MENK_GAP}\u{E236}\u{E271}")
    );
    assert_eq!(
        menk_shape_insert("\u{E2B5}\u{E254}\u{E271}"),
        format!("\u{E2B5}\u{E254}{MENK_GAP}\u{E271}")
    );
    assert_eq!(
        menk_shape_insert("\u{E2B5}\u{E243}\u{E271}"),
        format!("\u{E2B5}{MENK_GAP}\u{E243}{MENK_GAP}\u{E271}")
    );
    assert_eq!(z52_insert("\u{186B}\u{1852}\u{1867}"), format!("\u{186B}{Z52_GAP}\u{1852}\u{1867}"));
    assert_eq!(z52_insert("\u{186B}\u{1856}\u{1867}"), format!("\u{186B}\u{1856}{Z52_GAP}\u{1867}"));
    assert_eq!(
        z52_insert("\u{186B}\u{184F}\u{1867}"),
        format!("\u{186B}{Z52_GAP}\u{184F}{Z52_GAP}\u{1867}")
    );
}

#[test]
fn an_ordinary_space_is_replaced_not_doubled() {
    assert_eq!(menk_shape_insert("\u{E2B5} \u{E236}"), format!("\u{E2B5}{MENK_GAP}\u{E236}"));
    assert_eq!(menk_shape_insert("\u{E254} \u{E271}"), format!("\u{E254}{MENK_GAP}\u{E271}"));
    assert_eq!(z52_insert("\u{186B} \u{1852}"), format!("\u{186B}{Z52_GAP}\u{1852}"));
    let once = menk_shape_insert("\u{E2B5}\u{E263}\u{E236}\u{E271}");
    assert_eq!(once, "\u{E2B5}\u{E263}\u{E236}\u{E271}");
    assert_eq!(menk_shape_insert(&once), once);
}

#[test]
fn a_space_between_two_marks_becomes_their_one_shared_gap() {
    assert_eq!(
        menk_shape_insert("\u{E2B5}\u{E254} \u{E236}\u{E271}"),
        "\u{E2B5}\u{E254}\u{E263}\u{E236}\u{E271}"
    );
    assert_eq!(
        z52_insert("\u{186B}\u{1856} \u{185F}\u{1867}"),
        format!("\u{186B}\u{1856}{Z52_GAP}\u{185F}\u{1867}")
    );
    let once = menk_shape_insert("\u{E254} \u{E236}");
    assert_eq!(menk_shape_insert(&once), once);
}

#[test]
fn other_whitespace_already_separates_the_mark() {
    for space in ["\t", "\n", "\r\n"] {
        let text = format!("\u{E2B5}{space}\u{E236}");
        assert_eq!(menk_shape_insert(&text), text, "{space:?}");
    }
    assert_eq!(menk_shape_insert("\u{E236}\u{E271}"), "\u{E236}\u{E271}");
    assert_eq!(menk_shape_insert("\u{E2B5}\u{E254}"), "\u{E2B5}\u{E254}");
}

#[test]
fn two_marks_side_by_side_share_one_gap() {
    assert_eq!(
        z52_insert("\u{186B}\u{184F}\u{1854}\u{1867}"),
        format!("\u{186B}{Z52_GAP}\u{184F}{Z52_GAP}\u{1854}\u{1867}")
    );
}

#[test]
fn strip_undoes_insert() {
    for (code, text) in [
        (CodeType::MenkShape, "\u{E2B5}\u{E236}\u{E271}"),
        (CodeType::MenkShape, "\u{E2B5}\u{E254}\u{E271}"),
        (CodeType::MenkShape, "\u{E2B5}\u{E243}\u{E271}"),
        (CodeType::MenkShape, "\u{E2B5}\u{E236}\u{E271}\u{E254}\u{E2B5}"),
        (CodeType::MenkShape, "\u{E2B5}\u{E234}\u{E271}"),
        (CodeType::MenkShape, "plain text"),
        (CodeType::MenkShape, ""),
        (CodeType::Z52, "\u{186B}\u{1852}\u{1867}"),
        (CodeType::Z52, "\u{186B}\u{1856}\u{1867}"),
        (CodeType::Z52, "\u{186B}\u{184F}\u{1854}\u{1867}"),
        (CodeType::Z52, "\u{186B}\u{1802}\u{1867}"),
    ] {
        let gap = of(code).unwrap();
        assert_eq!(gap.strip(&gap.insert(text)), text, "{text:?}");
    }
}

#[test]
fn a_space_the_text_meant_to_have_survives_the_round_trip() {
    assert_eq!(menk_shape_strip("\u{E2B5}\u{E263}\u{E271}"), "\u{E2B5}\u{E263}\u{E271}");
    assert_eq!(menk_shape_strip("\u{E236}\u{E263}\u{E271}"), "\u{E236}\u{E263}\u{E271}");
    assert_eq!(menk_shape_strip("\u{E2B5}\u{E263}\u{E254}"), "\u{E2B5}\u{E263}\u{E254}");
    assert_eq!(z52_strip("\u{186B}\u{202F}\u{1867}"), "\u{186B}\u{202F}\u{1867}");
}

#[test]
fn restores_only_when_needed() {
    assert_eq!(restore_menk_shape("plain"), "plain");
    assert_eq!(restore_menk_shape("➡️🎂"), "\u{E234}\u{E34B}");
}

#[test]
fn only_a_word_initial_g_o_is_promoted() {
    let cases = [
        ("\u{E09C}", "\u{E096}"),
        (" \u{E09C} ", " \u{E096} "),
        ("\u{1802}\u{E09C}", "\u{1802}\u{E096}"),
        ("\u{202F}\u{E09C}", "\u{202F}\u{E096}"),
        ("\u{E00C}\u{202F}\u{E09C}", "\u{E00C}\u{202F}\u{E096}"),
        ("\u{E000}\u{E005}\u{E09C}", "\u{E000}\u{E005}\u{E09C}"),
        ("\u{E0E5}\u{E09C}", "\u{E0E5}\u{E09C}"),
        ("\u{180A}\u{E09C}", "\u{180A}\u{E09C}"),
        ("\u{200D}\u{E09C}", "\u{200D}\u{E09C}"),
        ("\u{E006}\u{E140}\u{E09C}", "\u{E006}\u{E140}\u{E09C}"),
        ("\u{E006}\u{180B}\u{E09C}", "\u{E006}\u{180B}\u{E09C}"),
        ("\u{180B}\u{E09C}", "\u{180B}\u{E096}"),
        ("\u{E096}", "\u{E096}"),
        ("\u{E093}", "\u{E093}"),
    ];
    for (hub, expected) in cases {
        let promoted: String = promote_word_initial_g_o(&hub.chars().collect()).into_iter().collect();
        assert_eq!(promoted, expected, "{hub:?}");
    }
}

/// ᠰᠠᠢᠨ in its canonical UTN #57 spelling.
const SAIN: &str = "\u{1830}\u{1820}\u{1822}\u{180D}\u{1822}\u{180D}\u{1820}\u{180C}";
/// ᠮᠣᠩᠭᠣᠯ᠎ᠤᠨ in its canonical UTN #57 spelling.
const MONGOL_UN: &str = "\u{182E}\u{1823}\u{1820}\u{182D}\u{180C}\u{1828}\u{180B}\u{1828}\u{180B}\u{1823}\u{182F}\u{180E}\u{1824}\u{180B}\u{1820}\u{180C}";

#[test]
fn a_word_is_spelled_as_its_written_units() {
    assert_eq!(encode(SAIN).unwrap(), "SAIIA");
    assert_eq!(encode(MONGOL_UN).unwrap(), "MOAGNNOLMvsOA");
}

#[test]
fn compact_and_joined_input_reach_the_same_canonical_text() {
    assert_eq!(decode("SAIIA").unwrap(), SAIN);
    assert_eq!(decode("S+A+I+I+A").unwrap(), SAIN);
    assert_eq!(decode("MOAGNNOLMvsOA").unwrap(), MONGOL_UN);
}

#[test]
fn text_outside_a_word_passes_through_both_ways() {
    assert_eq!(
        encode(&format!("{SAIN} {SAIN}\u{1802} 2024 hello")).unwrap(),
        "SAIIA SAIIA\u{1802} 2024 hello"
    );
    assert_eq!(
        decode("SAIIA SAIIA\u{1802} 2024 hello").unwrap(),
        format!("{SAIN} {SAIN}\u{1802} 2024 hello")
    );
    assert_eq!(decode("").unwrap(), "");
    assert_eq!(encode("  ").unwrap(), "  ");
}

#[test]
fn an_uppercase_led_run_that_is_not_a_spelling_is_an_error() {
    let error = decode("Hello").unwrap_err();
    assert!(
        error.to_string().starts_with("UTN #57 conversion failed: utn57_shape:"),
        "{}",
        error.to_string()
    );
    assert!(matches!(decode("SAIIA Hello"), Err(MongolConvertError::Utn57(_))));
}

#[test]
fn words_are_uppercase_led_ascii_runs() {
    assert_eq!(
        split("SAIIA, 2024 hello S+A"),
        vec![
            Piece::Word("SAIIA".to_string()),
            Piece::Other(", 2024 hello ".to_string()),
            Piece::Word("S+A".to_string())
        ]
    );
    assert_eq!(split(""), Vec::<Piece>::new());
    assert_eq!(split("ᠠ"), vec![Piece::Other("ᠠ".to_string())]);
}
