//! An encoder from the mnemonic assembly text of a small 16-bit instruction
//! set to its machine words.
//!
//! Each line is tokenized, its mnemonic looked up to an opcode, the opcode
//! classified into a layout family, and the operands resolved and packed into
//! one word. Every step is a total function that reports the first error.

pub mod text;
pub mod isa;
pub mod immediate;
pub mod tokenizer;
pub mod encoder;
pub mod hex;
pub mod laws;
