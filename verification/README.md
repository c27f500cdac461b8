# cerberus

A compiler for Cerberus, a small Pascal-like language, to the bytecode of a
stack machine, with each stage specified and proved in Verus.

- `src/lexer`: tokens from source bytes, against `spec_next_token`.
- `src/parser`: a recursive-descent parser, against the grammar functions of
  `parser/grammar.rs`.
- `src/typecheck`: the type checker and its built-in signatures.
- `src/codegen`: code generation, against `spec_emit_program`;
  `codegen/agreement.rs` proves that the code generator compiles the
  built-ins the type checker accepts, and `codegen/jumps.rs` that every
  jump lands inside its function and every call names a function of the
  program.
- `src/bytecode`: instructions, the binary format (encode and decode, with a
  round-trip proof) and the listing.
- `src/aot`: stack-machine text scripts and `cerberus_toolchain_v1`
  packages: unpacking, compile-time evaluation of printing scripts, and the
  assembly sources of native builds.
- `src/driver.rs`: the steps that join the stages (parse, type check,
  generate) and module lookup candidates.
- `app/`: the command line, file access and external tools.
- `tests/`: tests of the library on concrete inputs.
