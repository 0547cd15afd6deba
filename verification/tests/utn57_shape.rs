//! `utn57_shape`: a UTN #57 word spelled as its written units, ᠰᠠᠢᠨ as `SAIIA`.
//!
//! The encoding is `utn57` seen through mongol-norm's shape function, so it must agree with `utn57`
//! in both directions and pass everything else through like the other encodings do.

use mongol_convert::{translate, translate_with_warnings, CodeType};

/// ᠰᠠᠢᠨ as the letter encodings spell it.
const SAIN_DELEHI: &str = "\u{1830}\u{1820}\u{1822}\u{1828}";

#[test]
fn a_word_reaches_the_shape_encoding_from_any_source() {
    assert_eq!(
        translate(CodeType::Delehi, CodeType::Utn57Shape, SAIN_DELEHI).unwrap(),
        "SAIIA"
    );
    assert_eq!(
        translate(CodeType::MenkLetter, CodeType::Utn57Shape, SAIN_DELEHI).unwrap(),
        "SAIIA"
    );
}

#[test]
fn the_shape_encoding_is_its_own_identity_and_round_trips_through_the_hub() {
    assert_eq!(
        translate(CodeType::Utn57Shape, CodeType::Utn57Shape, "SAIIA").unwrap(),
        "SAIIA"
    );
    let hub = translate(CodeType::Utn57Shape, CodeType::Zvvnmod, "MOAGNNOLMvsOA").unwrap();
    assert_eq!(
        translate(CodeType::Zvvnmod, CodeType::Utn57Shape, &hub).unwrap(),
        "MOAGNNOLMvsOA"
    );
}

#[test]
fn output_carries_the_utn57_warnings_and_input_carries_none() {
    // A lone medial glyph is spelled with an invented ZWJ, which the shape shows as `Zwj`.
    let padded =
        translate_with_warnings(CodeType::Zvvnmod, CodeType::Utn57Shape, "\u{E09C}").unwrap();
    assert_eq!(padded.warnings.len(), 1, "{:?}", padded.warnings);
    assert_eq!(padded.text, "ZwjGO");
    assert!(
        translate_with_warnings(CodeType::Utn57Shape, CodeType::Utn57, "SAIIA")
            .unwrap()
            .warnings
            .is_empty()
    );
}

#[test]
fn a_spelling_that_is_not_one_is_an_error_not_passthrough() {
    let error = translate(CodeType::Utn57Shape, CodeType::Utn57, "Hello").unwrap_err();
    assert!(error.to_string().contains("utn57_shape:"), "{}", error.to_string());
}

