//! Decoder core for EVM-style bytecode: an opcode registry mapping every byte
//! value to its mnemonic (or "undefined"), push-immediate arithmetic, and a
//! single-pass byte-stream decoder that partitions raw bytecode into decoded
//! units without ever misreading immediate data bytes as instructions.

pub mod decoder;
pub mod opcodes;
pub mod utils;
