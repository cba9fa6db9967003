# uiua

Core definitions of the Uiua array language, written in Verus and proved against their
contracts: the primitives and their names, glyphs and signatures; system functions and stream
handles; compiled bindings and the documentation comments of bindings; why an inversion
failed; what editors are told about bindings; and the tabling algorithms.

## Layout

- `src/primitive/` — primitives: their data (`mod.rs`), lookups by name, glyph and ASCII
  token (`lookup.rs`), reading primitives from format names and multi-names (`format_name.rs`,
  `multi.rs`, `multi_laws.rs`), the primitives the compiler makes itself (`impl_prim.rs`), subscripts and
  stack reports (`trace.rs`), and the laws that tie them together (`laws.rs`,
  `format_laws.rs`).
- `src/sys.rs`, `src/utf8.rs` — system functions, their classes, stream handles and reading
  streams; the longest valid UTF-8 prefix of bytes that were read.
- `src/assembly.rs`, `src/inputs.rs` — bindings, functions, definitions and input sources.
- `src/scan.rs`, `src/doc_sig.rs`, `src/doc_sig_laws.rs` — whitespace, lines and words;
  signatures and documentation comments, and reading back what is written.
- `src/invert.rs` — inversion errors and their messages.
- `src/lsp.rs` — binding documentation, set inverses and code metadata for editors.
- `src/ast.rs`, `src/spans.rs` — parsed words and items, and the kinds of their spans as editors
  show them.
- `src/path.rs` — file paths compared by their components.
- `src/table.rs`, `src/table_laws.rs` — tabling element lists and rows, size limits, crossing
  many arguments, and the laws that tie the fast paths to running the function on each pair.
- `src/value.rs`, `src/constant.rs`, `src/eco.rs`, `src/text.rs` — arrays and values,
  shadowable constants, the `ecow` strings and vectors, and small text helpers.
- `app/` — the system backend trait, the clock and the table of shadowable constants, which
  hold input, output or floating-point numbers.
- `tests/` — tests of the library on concrete values.

Run `verus` on `src/lib.rs` to check the proofs.
