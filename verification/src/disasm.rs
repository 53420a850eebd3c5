//! The decoder: a mathematical model of the opcode table, the text
//! renderer, the driver that walks the buffer, and proofs of the
//! decoder's global properties.

pub mod disassembler;
pub mod init;
pub mod laws;
pub mod model;
pub mod render;
