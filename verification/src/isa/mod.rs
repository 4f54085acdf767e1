//! The instruction-set architecture: encoding formats, the pattern table,
//! and the decoder.

pub mod decode;
pub mod instruction;

pub use instruction::Instruction;
