//! The encodings, and how each is decoded and encoded.
use crate::error::MongolConvertError;
use crate::text::{owned, push_char, str_eq};
use vstd::prelude::*;

verus! {

broadcast use vstd::string::group_string_axioms;

/// How a code is decoded and encoded: by the letter rules or by the shape rules.
#[derive(Copy, Clone, PartialEq, Eq, Hash, Debug, Structural)]
pub enum CodeSeries {
    Letter,
    Shape,
}

/// The supported Mongolian encodings. `Zvvnmod` is the hub every conversion passes through.
///
/// `Oyun` is parseable but unsupported in both directions. `Utn57Shape` is the written-unit
/// spelling of a UTN #57 text (ᠰᠠᠢᠨ as `SAIIA`), read and written through `Utn57`.
#[derive(Copy, Clone, PartialEq, Eq, Hash, Debug, Structural)]
pub enum CodeType {
    Zvvnmod,
    Delehi,
    MenkShape,
    MenkLetter,
    Oyun,
    Utn57,
    Z52,
    Utn57Shape,
}

/// The series of each code.
pub open spec fn series_of(ct: CodeType) -> CodeSeries {
    match ct {
        CodeType::Zvvnmod => CodeSeries::Shape,
        CodeType::Delehi => CodeSeries::Letter,
        CodeType::MenkShape => CodeSeries::Shape,
        CodeType::MenkLetter => CodeSeries::Letter,
        CodeType::Oyun => CodeSeries::Letter,
        CodeType::Utn57 => CodeSeries::Letter,
        CodeType::Z52 => CodeSeries::Shape,
        CodeType::Utn57Shape => CodeSeries::Letter,
    }
}

/// The canonical (lower-case) name of each code.
pub open spec fn canonical_name(ct: CodeType) -> Seq<char> {
    match ct {
        CodeType::Zvvnmod => "zvvnmod"@,
        CodeType::Delehi => "delehi"@,
        CodeType::MenkShape => "menk_shape"@,
        CodeType::MenkLetter => "menk_letter"@,
        CodeType::Oyun => "oyun"@,
        CodeType::Utn57 => "utn57"@,
        CodeType::Z52 => "z52"@,
        CodeType::Utn57Shape => "utn57_shape"@,
    }
}

/// ASCII upper-case letters lowered; every other character kept.
pub open spec fn ascii_lower_char(c: char) -> char {
    if 'A' <= c && c <= 'Z' {
        ((c as u32) + 32) as char
    } else {
        c
    }
}

/// `s` with its ASCII letters lowered.
pub open spec fn ascii_lower(s: Seq<char>) -> Seq<char> {
    s.map_values(|c: char| ascii_lower_char(c))
}

/// The code a lower-cased name denotes: its canonical name, or the underscore-free alias of the
/// three two-word names.
pub open spec fn code_named(lower: Seq<char>) -> Option<CodeType> {
    if lower == "zvvnmod"@ {
        Some(CodeType::Zvvnmod)
    } else if lower == "delehi"@ {
        Some(CodeType::Delehi)
    } else if lower == "menk_shape"@ || lower == "menkshape"@ {
        Some(CodeType::MenkShape)
    } else if lower == "menk_letter"@ || lower == "menkletter"@ {
        Some(CodeType::MenkLetter)
    } else if lower == "oyun"@ {
        Some(CodeType::Oyun)
    } else if lower == "utn57"@ {
        Some(CodeType::Utn57)
    } else if lower == "z52"@ {
        Some(CodeType::Z52)
    } else if lower == "utn57_shape"@ || lower == "utn57shape"@ {
        Some(CodeType::Utn57Shape)
    } else {
        None
    }
}

/// The name `{ct:?}` writes for a code.
pub open spec fn debug_name_of(ct: CodeType) -> Seq<char> {
    match ct {
        CodeType::Zvvnmod => "Zvvnmod"@,
        CodeType::Delehi => "Delehi"@,
        CodeType::MenkShape => "MenkShape"@,
        CodeType::MenkLetter => "MenkLetter"@,
        CodeType::Oyun => "Oyun"@,
        CodeType::Utn57 => "Utn57"@,
        CodeType::Z52 => "Z52"@,
        CodeType::Utn57Shape => "Utn57Shape"@,
    }
}

/// The variant name of a code, as its `Debug` output spells it.
pub fn debug_name(ct: CodeType) -> (r: &'static str)
    ensures
        r@ == debug_name_of(ct),
{
    match ct {
        CodeType::Zvvnmod => "Zvvnmod",
        CodeType::Delehi => "Delehi",
        CodeType::MenkShape => "MenkShape",
        CodeType::MenkLetter => "MenkLetter",
        CodeType::Oyun => "Oyun",
        CodeType::Utn57 => "Utn57",
        CodeType::Z52 => "Z52",
        CodeType::Utn57Shape => "Utn57Shape",
    }
}

/// `s` with its ASCII letters lowered (`str::to_ascii_lowercase`).
pub fn to_ascii_lowercase(s: &str) -> (r: String)
    ensures
        r@ == ascii_lower(s@),
{
    let mut r = String::new();
    let ghost whole = s@;
    for c in it: s.chars()
        invariant
            it.seq() == whole,
            r@ == ascii_lower(whole.take(it.index() as int)),
    {
        let lowered = if 'A' <= c && c <= 'Z' {
            let code: u8 = c as u8;
            (code + 32) as char
        } else {
            c
        };
        proof {
            assert(c == whole[it.index() as int]);
        }
        push_char(&mut r, lowered);
        assert(ascii_lower(whole.take(it.index() + 1)) == ascii_lower(whole.take(it.index() as int)).push(ascii_lower_char(c)));
    }
    assert(whole.take(whole.len() as int) == whole);
    r
}

impl CodeType {
    /// The code's series.
    pub fn code_series(self) -> (r: CodeSeries)
        ensures
            r == series_of(self),
    {
        match self {
            CodeType::Zvvnmod => CodeSeries::Shape,
            CodeType::Delehi => CodeSeries::Letter,
            CodeType::MenkShape => CodeSeries::Shape,
            CodeType::MenkLetter => CodeSeries::Letter,
            CodeType::Oyun => CodeSeries::Letter,
            CodeType::Utn57 => CodeSeries::Letter,
            CodeType::Z52 => CodeSeries::Shape,
            CodeType::Utn57Shape => CodeSeries::Letter,
        }
    }

    /// The canonical string form: the lower-cased variant name, words joined by `_`.
    pub fn canonical_str(self) -> (r: &'static str)
        ensures
            r@ == canonical_name(self),
    {
        match self {
            CodeType::Zvvnmod => "zvvnmod",
            CodeType::Delehi => "delehi",
            CodeType::MenkShape => "menk_shape",
            CodeType::MenkLetter => "menk_letter",
            CodeType::Oyun => "oyun",
            CodeType::Utn57 => "utn57",
            CodeType::Z52 => "z52",
            CodeType::Utn57Shape => "utn57_shape",
        }
    }

    /// Case-insensitive lookup of an encoding name. Accepts the canonical form and, for the
    /// two-word names, the form without the underscore (`menkshape`).
    pub fn get(value: &str) -> (r: Result<CodeType, MongolConvertError>)
        ensures
            code_named(ascii_lower(value@)) matches Some(ct) ==> r == Ok::<CodeType, MongolConvertError>(ct),
            code_named(ascii_lower(value@)) is None ==> (r matches Err(e) && e@ == crate::error::ErrorView::UnsupportedEnumType(value@)),
    {
        let lowered = to_ascii_lowercase(value);
        let l = lowered.as_str();
        if str_eq(l, "zvvnmod") {
            Ok(CodeType::Zvvnmod)
        } else if str_eq(l, "delehi") {
            Ok(CodeType::Delehi)
        } else if str_eq(l, "menk_shape") || str_eq(l, "menkshape") {
            Ok(CodeType::MenkShape)
        } else if str_eq(l, "menk_letter") || str_eq(l, "menkletter") {
            Ok(CodeType::MenkLetter)
        } else if str_eq(l, "oyun") {
            Ok(CodeType::Oyun)
        } else if str_eq(l, "utn57") {
            Ok(CodeType::Utn57)
        } else if str_eq(l, "z52") {
            Ok(CodeType::Z52)
        } else if str_eq(l, "utn57_shape") || str_eq(l, "utn57shape") {
            Ok(CodeType::Utn57Shape)
        } else {
            Err(MongolConvertError::UnsupportedEnumType(owned(value)))
        }
    }
}

impl std::str::FromStr for CodeType {
    type Err = MongolConvertError;

    fn from_str(s: &str) -> (r: Result<CodeType, MongolConvertError>)
        ensures
            code_named(ascii_lower(s@)) matches Some(ct) ==> r == Ok::<CodeType, MongolConvertError>(ct),
            code_named(ascii_lower(s@)) is None ==> (r matches Err(e) && e@ == crate::error::ErrorView::UnsupportedEnumType(s@)),
    {
        CodeType::get(s)
    }
}

/// ASCII lower-case letters raised; every other character kept.
pub open spec fn ascii_upper_char(c: char) -> char {
    if 'a' <= c && c <= 'z' {
        ((c as u32) - 32) as char
    } else {
        c
    }
}

/// `s` with its ASCII letters raised.
pub open spec fn ascii_upper(s: Seq<char>) -> Seq<char> {
    s.map_values(|c: char| ascii_upper_char(c))
}

/// Name lookup ignores ASCII case: a name lowered or raised first is read as the name itself.
pub proof fn lemma_name_lookup_ignores_ascii_case(s: Seq<char>)
    ensures
        code_named(ascii_lower(ascii_lower(s))) == code_named(ascii_lower(s)),
        code_named(ascii_lower(ascii_upper(s))) == code_named(ascii_lower(s)),
{
    assert forall|k: int| 0 <= k < s.len() implies ascii_lower_char(ascii_lower_char(#[trigger] s[k])) == ascii_lower_char(s[k]) by {
        let c = s[k];
        if 'A' <= c && c <= 'Z' {
            assert((((c as u32) + 32) as char) as u32 == (c as u32) + 32);
        }
    }
    assert forall|k: int| 0 <= k < s.len() implies ascii_lower_char(ascii_upper_char(#[trigger] s[k])) == ascii_lower_char(s[k]) by {
        let c = s[k];
        if 'a' <= c && c <= 'z' {
            assert((((c as u32) - 32) as char) as u32 == (c as u32) - 32);
            assert((((((c as u32) - 32) as char) as u32 + 32) as char) == c);
        }
    }
    assert(ascii_lower(ascii_lower(s)) =~= ascii_lower(s));
    assert(ascii_lower(ascii_upper(s)) =~= ascii_lower(s));
}

/// Every code's canonical name, written in ASCII upper case, reads back as that code.
pub proof fn lemma_upper_case_canonical_name_parses(ct: CodeType)
    ensures
        code_named(ascii_lower(ascii_upper(canonical_name(ct)))) == Some(ct),
{
    lemma_canonical_name_parses(ct);
    lemma_name_lookup_ignores_ascii_case(canonical_name(ct));
}

/// Every code's canonical name reads back as that code.
pub proof fn lemma_canonical_name_parses(ct: CodeType)
    ensures
        code_named(ascii_lower(canonical_name(ct))) == Some(ct),
{
    reveal_strlit("zvvnmod");
    reveal_strlit("delehi");
    reveal_strlit("menk_shape");
    reveal_strlit("menkshape");
    reveal_strlit("menk_letter");
    reveal_strlit("menkletter");
    reveal_strlit("oyun");
    reveal_strlit("utn57");
    reveal_strlit("z52");
    reveal_strlit("utn57_shape");
    reveal_strlit("utn57shape");
    let n = canonical_name(ct);
    assert(ascii_lower(n) =~= n);
    match ct {
        CodeType::Zvvnmod => {},
        CodeType::Delehi => {
            assert(n != "zvvnmod"@);
        },
        CodeType::MenkShape => {
            assert(n != "zvvnmod"@);
            assert(n != "delehi"@);
        },
        CodeType::MenkLetter => {
            assert(n != "zvvnmod"@);
            assert(n != "delehi"@);
            assert(n != "menk_shape"@); assert(n != "menkshape"@);
        },
        CodeType::Oyun => {
            assert(n != "zvvnmod"@);
            assert(n != "delehi"@);
            assert(n != "menk_shape"@); assert(n != "menkshape"@);
            assert(n != "menk_letter"@); assert(n != "menkletter"@);
        },
        CodeType::Utn57 => {
            assert(n != "zvvnmod"@);
            assert(n != "delehi"@);
            assert(n != "menk_shape"@); assert(n != "menkshape"@);
            assert(n != "menk_letter"@); assert(n != "menkletter"@);
            assert(n != "oyun"@);
        },
        CodeType::Z52 => {
            assert(n != "zvvnmod"@);
            assert(n != "delehi"@);
            assert(n != "menk_shape"@); assert(n != "menkshape"@);
            assert(n != "menk_letter"@); assert(n != "menkletter"@);
            assert(n != "oyun"@);
            assert(n != "utn57"@);
        },
        CodeType::Utn57Shape => {
            assert(n != "zvvnmod"@);
            assert(n != "delehi"@);
            assert(n != "menk_shape"@); assert(n != "menkshape"@);
            assert(n[0] != "menk_letter"@[0]); assert(n != "menkletter"@);
            assert(n != "oyun"@);
            assert(n != "utn57"@);
            assert(n != "z52"@);
        },
    }
}

} // verus!
