//! Menksoft's punctuation glyphs carry no side bearing, so a mark set straight after a word sits
//! on the last stroke's ink. The gap is written in with Menksoft's own space, `U+E263`, on the
//! side each mark takes, and removed again on the way back.

use mongol_convert::{translate, CodeType};

const WORD: &str = "\u{1830}\u{1820}\u{1836}\u{1822}\u{1828}"; // ᠰᠠᠶᠢᠨ

#[test]
fn menk_shape_punctuation_the_gap_is_removed_again_on_the_way_back() {
    for hub in [
        '\u{1802}', '\u{00b7}', '\u{0029}', '\u{0028}', '\u{002d}', '\u{1800}',
    ] {
        let source = format!("{WORD}{hub}{WORD}");
        let expected = translate(CodeType::MenkLetter, CodeType::Zvvnmod, &source).unwrap();
        let menk = translate(CodeType::MenkLetter, CodeType::MenkShape, &source).unwrap();
        assert_eq!(
            translate(CodeType::MenkShape, CodeType::Zvvnmod, &menk).unwrap(),
            expected,
            "{hub:?}"
        );
    }
}

/// Menksoft's own space belongs to MenkShape alone. Z52 has the same fault and gets the same
/// treatment, but writes it with the narrow no-break space instead — see `z52_punctuation.rs`.
#[test]
fn no_other_encoding_gets_the_menksoft_gap() {
    for target in [
        CodeType::Zvvnmod,
        CodeType::Delehi,
        CodeType::MenkLetter,
        CodeType::Z52,
        CodeType::Utn57,
    ] {
        let out = translate(
            CodeType::MenkLetter,
            target,
            &format!("{WORD}\u{1802}{WORD}"),
        )
        .unwrap();
        assert!(!out.contains('\u{e263}'), "{target:?}: {out:?}");
    }
}
