pub mod error;
pub mod pass;
pub mod tokenize;
pub mod arch_def;
pub mod parse;
pub mod retokenize;
pub mod parse_operands;
pub mod emit;
pub mod assembler;
pub mod sample_isa;
pub mod laws;
pub mod sisa_i;
