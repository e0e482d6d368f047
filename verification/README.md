# idl_parser

Reads Danfoss IDL interface descriptions and generates the Rust source of a
compiled code package that implements them with the C ABI the IDL prescribes.

- `src/pair.rs` — the tree of grammar matches that the parse of an `.idl`
  text yields, and the errors met while reading it.
- `src/ast/` — the interface model (interfaces, XClasses, methods,
  arguments, variables, verbatim code) read out of that tree.
- `src/codegen/rust/` — struct, function and `static` definitions and their
  source text.
- `src/codegen/idl/` — the items of each XClass: the shared struct and its
  instance, the instance struct, the structs of `#out` arguments, and the
  `extern "C"` functions of properties, accessors and methods.
- `src/external.rs` — the calls into `heck`, `capitalize` and `proc-macro2`.
- `app/main.rs` — reads `Adder.idl`, runs the grammar-level parse with
  `pest`, and prints the generated source formatted by `prettyplease`.

Verus verifies every function in `src/` but the three wrappers in
`src/external.rs`, whose contracts are trusted rather than proved. The
implementations of the code-generation traits take their contracts from
the trait declarations. What the Rust lexer says of verbatim code is not
known in advance: the readings state their result for either answer, and
keep verbatim code only where proc_macro2's own lexer accepts it.
