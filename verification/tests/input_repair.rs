use mongol_convert::{
    translate_with_options, CodeType, MongolConvertError,
    TranslationOptions, Warning,
};

const REPAIR: TranslationOptions = TranslationOptions {
    repair_suffix_separators: true,
    restore_menk_shape_emoji: true,
};
const RAW: &str = "ᠤᠯᠤᠰ ᠤᠨ";
#[test]
fn reflexive_repair_declines_longer_words_and_layout() {
    for from in [CodeType::MenkLetter, CodeType::Delehi] {
        for raw in [
            "ᠨᠣᠮ ᠢᠶᠠᠨ\u{180B}",
            "ᠭᠡᠷ ᠢᠶᠡᠨᠡ",
            "ᠨᠣᠮ ᠢᠶᠠᠨx",
            "ᠨᠣᠮᠢᠶᠠᠨ",
            "ᠭᠡᠷ\nᠢᠶᠡᠨ",
            "ᠢᠶᠠᠨ",
            "ᠢᠶᠡᠨ",
        ] {
            let result = translate_with_options(from, from, raw, &REPAIR).unwrap();
            assert_eq!(result.text, raw);
            assert!(result.warnings.is_empty(), "{raw:?}");
        }
    }
}

#[test]
fn comitative_and_plural_repair_respects_boundaries() {
    for from in [CodeType::MenkLetter, CodeType::Delehi] {
        for (stem, suffix) in [
            ("ᠭᠡᠷ", "ᠯᠦᠭᠡ"),
            ("ᠭᠡᠷ", "ᠨᠦᠭᠦᠳ"),
            ("ᠨᠣᠮ", "ᠯᠤᠭ\u{180E}ᠠ"),
            ("ᠬᠣᠲᠠ", "ᠨᠤᠭᠤᠳ"),
        ] {
            for raw in [
                suffix.to_owned(),
                format!("{stem} {suffix}\u{180B}"),
                format!("{stem} {suffix}ᠡ"),
                format!("{stem} {suffix}x"),
                format!("{stem}{suffix}"),
                format!("{stem}  {suffix}"),
                format!("{stem}\n{suffix}"),
            ] {
                let result = translate_with_options(from, from, &raw, &REPAIR).unwrap();
                assert_eq!(result.text, raw);
                assert!(result.warnings.is_empty(), "{raw:?}");
            }
        }
        // The independent word nüküd has QA, not the GA of the plural nügüd.
        let raw = "ᠭᠡᠷ ᠨᠦᠬᠦᠳ";
        let result = translate_with_options(from, from, raw, &REPAIR).unwrap();
        assert_eq!(result.text, raw);
        assert!(result.warnings.is_empty());
    }
}

#[test]
fn particle_shaping_support_does_not_automatically_enable_repair() {
    // Deliberately deferred entries from the pinned Hudum particle mapping. This is an
    // exclusion regression, not a claim that these constructed phrases are grammatical.
    for from in [CodeType::MenkLetter, CodeType::Delehi] {
        for particle in [
            "ᠤᠤ",
            "ᠦᠦ",
            "ᠪᠦᠦ",
            "ᠠ",
            "ᠡ",
            "ᠴᠤ",
            "ᠴᠦ",
            "ᠨᠦᠭᠡᠨ",
            "ᠶᠦᠮ",
            "ᠶᠦᠮᠰᠡᠨ",
            "ᠬᠦ",
            "ᠳᠠᠭ",
            "ᠳᠡᠭ",
            "ᠳᠤᠭᠠᠷ",
            "ᠳᠦᠭᠡᠷ",
            "ᠳᠠ",
            "ᠳᠡ",
        ] {
            for stem in ["ᠨᠣᠮ", "ᠭᠡᠷ"] {
                let raw = format!("{stem} {particle}");
                let result = translate_with_options(from, from, &raw, &REPAIR).unwrap();
                assert_eq!(result.text, raw);
                assert!(result.warnings.is_empty(), "{particle}");
            }
        }
    }
}

const TARGETS: [CodeType; 7] = [
    CodeType::MenkLetter,
    CodeType::Delehi,
    CodeType::MenkShape,
    CodeType::Zvvnmod,
    CodeType::Z52,
    CodeType::Utn57,
    CodeType::Utn57Shape,
];

#[test]
fn repairs_suffix_chains_and_reports_original_byte_offsets() {
    let raw = "中文: ᠤᠯᠤᠰ\u{A0}ᠤᠨ ᠢᠶᠠᠷ᠃\nᠭᠡᠷ ᠦᠨ";
    let result =
        translate_with_options(CodeType::MenkLetter, CodeType::MenkLetter, raw, &REPAIR).unwrap();
    assert_eq!(
        result.text,
        "中文: ᠤᠯᠤᠰ\u{202F}ᠤᠨ\u{202F}ᠢᠶᠠᠷ᠃\nᠭᠡᠷ\u{202F}ᠦᠨ"
    );
    let offsets = [
        raw.find('\u{A0}').unwrap(),
        raw.find(" ᠢᠶᠠᠷ").unwrap(),
        raw.find(" ᠦᠨ").unwrap(),
    ];
    for (warning, offset) in result.warnings.iter().zip(offsets) {
        assert!(
            matches!(warning, Warning::RepairedSuffixSeparator { byte_offset, .. } if *byte_offset == offset)
        );
    }
    assert_eq!(result.warnings.len(), 3);
    let again = translate_with_options(
        CodeType::MenkLetter,
        CodeType::MenkLetter,
        &result.text,
        &REPAIR,
    )
    .unwrap();
    assert_eq!(again.text, result.text);
    assert!(again.warnings.is_empty());
}

#[test]
fn preserves_layout_existing_controls_and_unrecognised_words() {
    for raw in [
        "",
        "  \n",
        "ᠤᠨ",
        " ᠤᠨ",
        "ᠤᠯᠤᠰ\nᠤᠨ",
        "ᠤᠯᠤᠰ\tᠤᠨ",
        "ᠤᠯᠤᠰ  ᠤᠨ",
        "ᠤᠯᠤᠰ\u{A0}\u{A0}ᠤᠨ",
        "ᠤᠯᠤᠰᠤᠨ",
        "ᠤᠯᠤᠰ ᠤᠨᠠᠭ᠎ᠠ",
        "ᠤᠯᠤᠰ ᠤᠨ\u{180B}",
        "ᠤᠯᠤᠰ ᠤᠨ\u{200D}",
        "ᠤᠯᠤᠰ\u{202F}ᠤᠨ",
        "ᠤᠯᠤᠰ\u{180E}ᠤᠨ",
        "ᠤᠯᠤᠰ\u{202F}\u{202F}ᠤᠨ",
        "ᠴᠠᠭᠠᠨ ᠪᠠᠷ",
        "ᠤᠯᠤᠰ ᠤᠨLatin",
        "ᠤᠯᠤᠰ ᠤᠨ_abc",
        "ᠤᠯᠤᠰ, ᠤᠨ",
    ] {
        let result =
            translate_with_options(CodeType::Delehi, CodeType::Delehi, raw, &REPAIR).unwrap();
        assert_eq!(result.text, raw);
        assert!(result.warnings.is_empty(), "{raw:?}");
    }
}

#[test]
fn rejects_repair_for_encodings_whose_suffix_spellings_are_not_supported() {
    for from in [
        CodeType::Utn57,
        CodeType::Utn57Shape,
        CodeType::MenkShape,
        CodeType::Z52,
        CodeType::Zvvnmod,
        CodeType::Oyun,
    ] {
        assert_eq!(
            translate_with_options(from, from, RAW, &REPAIR),
            Err(MongolConvertError::UnsupportedInputRepair(from))
        );
    }
}
