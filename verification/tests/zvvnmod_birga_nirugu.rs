use mongol_convert::{translate, CodeType};

const MENK_BIRGAS: &str = "\u{E23F}\u{E240}\u{E241}\u{E242}";
const UNICODE_BIRGAS: &str = "\u{11660}\u{11661}\u{11662}\u{11663}";

#[test]
fn menk_shape_birgas_use_unicode_codepoints_in_zvvnmod() {
    assert_eq!(
        translate(CodeType::MenkShape, CodeType::Zvvnmod, MENK_BIRGAS).unwrap(),
        UNICODE_BIRGAS
    );
}

#[test]
fn zvvnmod_birgas_are_encoded_for_menk_shape() {
    assert_eq!(
        translate(CodeType::Zvvnmod, CodeType::MenkShape, UNICODE_BIRGAS).unwrap(),
        MENK_BIRGAS
    );
}

#[test]
fn birgas_roundtrip_through_zvvnmod_in_both_directions() {
    let zvvnmod = translate(CodeType::MenkShape, CodeType::Zvvnmod, MENK_BIRGAS).unwrap();
    assert_eq!(
        translate(CodeType::Zvvnmod, CodeType::MenkShape, &zvvnmod).unwrap(),
        MENK_BIRGAS
    );

    let menk = translate(CodeType::Zvvnmod, CodeType::MenkShape, UNICODE_BIRGAS).unwrap();
    assert_eq!(
        translate(CodeType::MenkShape, CodeType::Zvvnmod, &menk).unwrap(),
        UNICODE_BIRGAS
    );
}

#[test]
fn each_encoding_gets_the_nirugu_it_spells() {
    const HUB: &str = "\u{E0E5}";
    const UNICODE: &str = "\u{180A}";
    const MENK_SHAPE: &str = "\u{E23E}";

    assert_eq!(
        translate(CodeType::Zvvnmod, CodeType::MenkShape, HUB).unwrap(),
        MENK_SHAPE
    );
    assert_eq!(
        translate(CodeType::MenkShape, CodeType::Zvvnmod, MENK_SHAPE).unwrap(),
        HUB
    );

    for encoding in [CodeType::Delehi, CodeType::MenkLetter, CodeType::Z52] {
        assert_eq!(
            translate(CodeType::Zvvnmod, encoding, HUB).unwrap(),
            UNICODE,
            "target={encoding:?}"
        );
        assert_eq!(
            translate(encoding, CodeType::Zvvnmod, UNICODE).unwrap(),
            HUB,
            "source={encoding:?}"
        );
        assert_eq!(
            translate(CodeType::MenkShape, encoding, MENK_SHAPE).unwrap(),
            UNICODE,
            "MenkShape -> {encoding:?}"
        );
        assert_eq!(
            translate(encoding, CodeType::MenkShape, UNICODE).unwrap(),
            MENK_SHAPE,
            "{encoding:?} -> MenkShape"
        );
    }
}

#[test]
fn unicode_letter_encodings_use_zvvnmod_birgas() {
    for encoding in [CodeType::Delehi, CodeType::MenkLetter, CodeType::Z52] {
        assert_eq!(
            translate(CodeType::MenkShape, encoding, MENK_BIRGAS).unwrap(),
            UNICODE_BIRGAS,
            "MenkShape -> {encoding:?}"
        );
        assert_eq!(
            translate(encoding, CodeType::MenkShape, UNICODE_BIRGAS).unwrap(),
            MENK_BIRGAS,
            "{encoding:?} -> MenkShape"
        );
    }
}

