# mongol-convert

Conversion of traditional Mongolian text between its encodings — Delehi, MenkLetter, UTN #57,
MenkShape, Z52, ZVVNMOD and `utn57_shape` (UTN #57 spelled as written units) — as a library whose
behaviour is stated in contracts and proved with Verus.

Every conversion reads its source into the ZVVNMOD hub and writes the hub in its target:

- `src/shape/` — the glyph encodings (MenkShape, Z52): the greedy longest-match segmenter, the four
  shape rules, the punctuation gap the shape fonts need, and the legacy-emoji restoration.
- `src/letter/` — the letter encodings (Delehi, MenkLetter): fragments with vowel harmony, the
  context rules of each direction, and the word writer.
- `src/utn57.rs`, `src/utn57_shape.rs` — UTN #57 through the `zvvnmod-utn57` crate, and its
  written-unit spelling.
- `src/repair.rs` — the opt-in repair of spaces before detached suffixes.
- `src/router.rs` — the entry points `translate`, `translate_with_warnings` and
  `translate_with_options`, with the laws that hold of every conversion.
- `src/bindings.rs` — the same calls with encodings named by strings, as the foreign-language
  packages present them.
- `src/tables/`, `src/unicode/`, `src/word/` — the code-point sets, mapper tables and word model.
- `app/main.rs` — the `mongol-convert translate --from … --to …` command.

## What the tables cover

The mapper tables in `src/tables/` hold only the entries for punctuation, digits, the nirugu and
the Birgas, and the code-point sets are limited in the same way. The letter and glyph
entries are not part of this crate. So:

- a letter that no hard-coded rule maps is passed through unchanged, by the letter and the shape
  translators alike (the library proves this of both directions);
- a conversion between the table-driven encodings can still end in a mapper miss where a fragment
  has no entry, and the contracts say exactly when;
- the UTN #57 paths, the punctuation gap, the emoji restoration, the input repair and the hub's
  own rules do not depend on the tables and are complete.

The contracts speak of the tables' contents, not of a fixed list of letters.
