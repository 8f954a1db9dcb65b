//! A SASS (NVIDIA shader assembly) assembler toolkit: instruction grammar,
//! operand and control-code encoding, assembly-source preprocessing and
//! cubin (ELF) kernel parsing.
use vstd::prelude::*;

pub mod mut_map;
pub mod utils;
pub mod text;
pub mod sassas_grammar;
pub mod grammar;
pub mod base_grammar;
pub mod flags;
pub mod cubin;
pub mod sval;
pub mod sassas;
pub mod registers;
pub mod maxas;
pub mod assembler;

verus! {

} // verus!
