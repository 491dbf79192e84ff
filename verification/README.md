# kdl_derive

The logic of the `ToKdl` / `FromKdl` derives, verified with Verus.

- `src/model.rs`: the model of the derive input (fields, their `#[kdl(..)]`
  items, the shape of their types), the attribute rules, `Field::parse` and
  `Container::from_derive_input`.
- `src/expand.rs`: the code of the two generated impls, written out as Rust
  source; `src/template.rs` holds its fixed pieces and `src/text.rs` the
  string-literal and raw-identifier helpers.
- `src/laws.rs`: properties that span several functions.
- `src/lib.rs`: `derive_to_kdl` / `derive_from_kdl`.
- `app/lib.rs`: the procedural-macro side, built on `syn`, `quote` and
  `proc-macro2`: it reads the derive input into the model and turns the
  generated source (or the error) into tokens.
