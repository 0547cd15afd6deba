//! UTN #57 output is always available: the pure-Rust `zvvnmod-utn57` backend is linked into the
//! core, so these tests run in the default build on every platform.

use mongol_convert::{translate, CodeType, MongolConvertError};

#[test]
fn passthrough_text_reaches_utn57_unchanged() {
    // NNBSP is no longer in this list: it is the hub's suffix boundary now, and it converts.
    let input = "plain\u{180A}\u{180E}\u{200D}";

    assert_eq!(
        translate(CodeType::Zvvnmod, CodeType::Utn57, input).unwrap(),
        input
    );
}

#[test]
fn the_hub_boundary_becomes_an_mvs() {
    assert_eq!(
        translate(CodeType::Zvvnmod, CodeType::Utn57, "\u{E00D}\u{202F}\u{E04D}").unwrap(),
        translate(CodeType::Zvvnmod, CodeType::Utn57, "\u{E00D}").unwrap()
            + "\u{180E}"
            + &translate(CodeType::Zvvnmod, CodeType::Utn57, "\u{E04D}").unwrap(),
    );
}

#[test]
fn the_boundary_is_not_doubled_on_the_way_out() {
    let hub = "\u{E042}\u{E005}\u{E03B}\u{E00D}\u{202F}\u{E04D}\u{E006}\u{E00C}";
    for target in [CodeType::Delehi, CodeType::MenkLetter] {
        let out = translate(CodeType::Zvvnmod, target, hub).unwrap();
        assert_eq!(out.matches('\u{202F}').count(), 1, "{target:?}: {out:?}");
    }
    // The shape encodings have no NNBSP of their own and keep the ordinary space they always had.
    for target in [CodeType::MenkShape, CodeType::Z52] {
        let out = translate(CodeType::Zvvnmod, target, hub).unwrap();
        assert!(!out.contains('\u{202F}'), "{target:?}: {out:?}");
        assert_eq!(out.matches(' ').count(), 1, "{target:?}: {out:?}");
    }
}

#[test]
fn utn57_identity_short_circuits() {
    let input = "\u{1820}\u{180A}\u{202F}";

    assert_eq!(
        translate(CodeType::Utn57, CodeType::Utn57, input).unwrap(),
        input
    );
}

#[test]
fn formal_zvvnmod_nirugu_converts_in_process() {
    assert_eq!(
        translate(CodeType::Zvvnmod, CodeType::Utn57, "\u{E0E5}").unwrap(),
        "\u{180A}"
    );
}

#[test]
fn legacy_sources_route_through_the_zvvnmod_hub() {
    assert_eq!(
        translate(CodeType::MenkShape, CodeType::Utn57, "\u{E23E}").unwrap(),
        "\u{180A}"
    );
}

#[test]
fn legacy_controls_are_discarded() {
    assert_eq!(
        translate(
            CodeType::Zvvnmod,
            CodeType::Utn57,
            "\u{E140}\u{E141}\u{E142}\u{E143}\u{E144}",
        )
        .unwrap(),
        ""
    );
}

#[test]
fn utn57_error_variant_display_is_stable() {
    assert_eq!(
        MongolConvertError::Utn57("backend unavailable".to_owned()).to_string(),
        "UTN #57 conversion failed: backend unavailable"
    );
}

