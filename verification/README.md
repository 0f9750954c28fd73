# enum_variant_accessors

Variant accessors for enums, as computed by the `EnumIsVariant` and
`EnumAsVariant` derives:

- `is_<variant>(&self) -> bool` for every variant;
- `as_<variant>(&self)` and, for unit and tuple variants, `as_<variant>_mut(&mut self)`,
  returning `Option<()>`, `Option<&T>` or `Option<(&T1, &T2, ...)>`;
- for struct-like variants, a helper struct `<Enum><Variant>` of borrowed fields,
  returned by `as_<variant>`.

Layout:

- `src/` — the verified library. It reads the text of the derive input with
  `syn` into a plain description (`parse_derive_input`), with proc-macro2's
  own lexer and printer so that a text always reads the same way, and computes the exact
  source text of the generated items (`expand_enum_is_variant`,
  `expand_enum_as_variant` on text; `derive_enum_is_variant`,
  `derive_enum_as_variant` on the description), with the contract stated over
  spec functions of that text. It also models what the generated
  methods return on a value (`eval_is`, `eval_as`, `eval_as_mut`) and proves the
  laws that relate them (`laws.rs`).
- `app/` — the compiler edge: hands the item's tokens to the library as text
  and turns the computed text back into tokens.
- `tests/` — tests on concrete enums.
