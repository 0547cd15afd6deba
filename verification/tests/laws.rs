use mongol_convert::code_mapper::StaticMap;
use mongol_convert::tables::from_z52::FROM_Z52;
use mongol_convert::code_type::CodeType;
use mongol_convert::error::MongolConvertError;
use mongol_convert::repair::suffix_separators;
use mongol_convert::{restore_menk_shape_emoji, translate};
use mongol_convert::router::{translate_with_options, TranslationOptions};
use mongol_convert::shape::punctuation_gap::of;
use mongol_convert::shape::softbank_emoji::to_menk_shape;

#[test]
fn restored_emoji_land_in_the_menk_shape_symbols_and_never_collide() {
    let mut seen: Vec<(char, char)> = Vec::new();
    for c in ['\u{00A9}', '\u{00AE}', '\u{3297}', '\u{3299}', '\u{1F382}', '\u{1F371}', '\u{1F372}', 'a', '\u{E234}'] {
        if let Some(m) = to_menk_shape(c) {
            assert!(('\u{E234}'..='\u{E34F}').contains(&m), "{c:?}");
            assert!(!('\u{E000}'..='\u{F8FF}').contains(&c), "{c:?}");
            for &(other, target) in &seen {
                assert!(target != m, "{other:?} and {c:?}");
            }
            seen.push((c, m));
        }
    }
    assert_eq!(to_menk_shape('\u{1F382}'), Some('\u{E34B}'));
    assert_eq!(to_menk_shape('\u{E34B}'), None);
    assert_eq!(seen.len(), 7);
}

#[test]
fn restoring_twice_changes_nothing() {
    let once = restore_menk_shape_emoji("\u{1F382}\u{FE0F}\u{FE0F}a\u{1F371}");
    assert_eq!(once, "\u{E34B}\u{FE0F}a\u{E34C}");
    assert_eq!(restore_menk_shape_emoji(&once), once);
}

#[test]
fn repairing_repaired_text_changes_nothing() {
    for from in [CodeType::MenkLetter, CodeType::Delehi] {
        let (repaired, warnings) = suffix_separators(from, "ᠤᠯᠤᠰ ᠤᠨ").unwrap();
        assert_eq!(repaired, "ᠤᠯᠤᠰ\u{202F}ᠤᠨ");
        assert_eq!(warnings.len(), 1);
        let (again, more) = suffix_separators(from, &repaired).unwrap();
        assert_eq!(again, repaired);
        assert!(more.is_empty());
    }
}

#[test]
fn repair_on_a_source_without_letter_spelling_is_refused() {
    let options = TranslationOptions { repair_suffix_separators: true, restore_menk_shape_emoji: false };
    for from in [CodeType::Zvvnmod, CodeType::MenkShape, CodeType::Z52, CodeType::Utn57, CodeType::Oyun] {
        let result = translate_with_options(from, CodeType::Zvvnmod, "ᠤᠯᠤᠰ ᠤᠨ", &options);
        assert_eq!(result.unwrap_err(), MongolConvertError::UnsupportedInputRepair(from));
    }
}

#[test]
fn writing_the_gap_keeps_every_other_character_and_settles() {
    for (code, gap) in [(CodeType::MenkShape, '\u{E263}'), (CodeType::Z52, '\u{202F}')] {
        let g = of(code).unwrap();
        for text in [
            "\u{E2B5}\u{E254} \u{E236}\u{E271}",
            "\u{E2B5}  \u{E236}\u{E243}x\u{E254}",
            "\u{186B}\u{1856} \u{185F}\u{184F}\u{1867}",
            "a\u{E263} \u{202F} b",
        ] {
            let once = g.insert(text);
            let keep = |s: &str| s.chars().filter(|&c| c != ' ' && c != gap).collect::<String>();
            assert_eq!(keep(&once), keep(text), "{text:?}");
            assert_eq!(g.insert(&once), once, "{text:?}");
        }
    }
}

#[test]
fn encoding_names_are_read_in_any_case() {
    for (name, code) in [
        ("MENK_SHAPE", CodeType::MenkShape),
        ("Menk_Letter", CodeType::MenkLetter),
        ("UTN57SHAPE", CodeType::Utn57Shape),
        ("zVvNmOd", CodeType::Zvvnmod),
    ] {
        assert_eq!(CodeType::get(name), Ok(code));
        assert_eq!(CodeType::get(&name.to_ascii_lowercase()), Ok(code));
        assert_eq!(CodeType::get(code.canonical_str()), Ok(code));
        assert_eq!(CodeType::get(&code.canonical_str().to_ascii_uppercase()), Ok(code));
    }
    assert_eq!(CodeType::get("Menk Shape"), Err(MongolConvertError::UnsupportedEnumType("Menk Shape".to_string())));
}

#[test]
fn the_white_space_set_is_the_one_std_uses() {
    for code in 0u32..=0x10FFFF {
        if let Some(c) = char::from_u32(code) {
            assert_eq!(mongol_convert::text::is_whitespace(c), c.is_whitespace(), "{code:X}");
        }
    }
}

#[test]
fn oyun_is_refused_on_either_side() {
    for to in [CodeType::Zvvnmod, CodeType::Delehi, CodeType::MenkShape, CodeType::Utn57] {
        assert_eq!(translate(CodeType::Oyun, to, "ᠤᠯᠤᠰ"), Err(MongolConvertError::Unsupported(CodeType::Oyun)));
    }
    assert_eq!(translate(CodeType::Zvvnmod, CodeType::Oyun, "\u{E000}"), Err(MongolConvertError::Unsupported(CodeType::Oyun)));
    assert_eq!(translate(CodeType::Oyun, CodeType::Oyun, "ᠤᠯᠤᠰ"), Ok("ᠤᠯᠤᠰ".to_string()));
}

#[test]
fn a_fragment_without_an_entry_is_a_mapper_miss() {
    let result = translate(CodeType::Delehi, CodeType::Zvvnmod, "\u{202F}ᠤᠨ");
    assert!(matches!(result, Err(MongolConvertError::NotFoundInMapper(_))), "{result:?}");
}

#[test]
fn a_static_map_holds_exactly_its_entries() {
    let m = StaticMap::new(&FROM_Z52);
    assert_eq!(m.len(), FROM_Z52.len());
    assert_eq!(m.get(" \u{184f}"), Some("\u{b7}"));
    assert!(m.contains_key(" \u{184f} "));
    assert_eq!(m.get("definitely-not-a-key"), None);
    assert!(!m.contains_key(""));
    for (key, value) in FROM_Z52 {
        assert_eq!(m.get(key), Some(value));
        assert!(m.contains_key(key));
    }
    for key in ["", " ", "\u{184f}", " \u{1864} ", "definitely-not-a-key"] {
        assert_eq!(m.contains_key(key), m.get(key).is_some());
    }
}

#[test]
fn byte_offsets_are_those_of_char_indices() {
    for text in ["", "a", "ᠤᠯᠤᠰ ᠤᠨ", "a\u{E263}\u{1F382}é\u{202F}x", "\u{10FFFF}\u{7F}\u{80}\u{7FF}\u{800}\u{FFFF}\u{10000}"] {
        let expected: Vec<usize> = text.char_indices().map(|(i, _)| i).collect();
        assert_eq!(mongol_convert::text::char_byte_offsets(text), expected, "{text:?}");
    }
}
