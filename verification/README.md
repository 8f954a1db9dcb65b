# sassas

Tools for NVIDIA SASS assembly: the instruction grammar and its operand
encodings, control codes, preprocessing of assembly sources (includes,
constant and register mappings), the checks of assembling, register-name
lookups, and reading of cubin (CUDA ELF) files with their kernels and
parameter sections.

The library in `src/` is written in Verus: every public function carries a
contract over a mathematical model (sequences, maps, views of each type), and
every function is proved against its contract. Regular expressions are run by the `regex` crate through a few
trusted wrappers in `src/utils.rs`, whose contracts name what the crate
computes.

Layout:

- `src/mut_map.rs` — insertion-ordered maps (`MutMap`, `MutStrMap`).
- `src/utils.rs` — regular-expression helpers.
- `src/text.rs` — characters, decimal and hex text, splitting, UTF-8.
- `src/grammar.rs`, `src/base_grammar.rs`, `src/sassas_grammar.rs` — the
  grammar, operand encoders, control codes, instruction line readers.
- `src/flags.rs` — the instruction flag table.
- `src/sassas.rs`, `src/maxas.rs` — preprocessing: constant and register
  mappings, includes, the whole pipeline.
- `src/assembler.rs` — assembling a preprocessed source: line reading,
  store checks, labels and branch targets, encodability; emitting the code
  is not implemented, so it ends in an error.
- `src/registers.rs` — register names and vector operands.
- `src/cubin.rs`, `src/sval.rs` — cubin files: headers, sections, symbols,
  kernels, parameter sections.
- `app/main.rs` — the command-line program (files, cuobjdump, printing).
- `tests/` — tests of the library on concrete values.
