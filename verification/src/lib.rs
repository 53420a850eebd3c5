//! A disassembler for a fixed-width 16-bit opcode virtual machine.
//!
//! The decoder walks a byte buffer two bytes at a time, classifies each
//! 16-bit word by its four nibbles, and renders one text line per
//! recognised instruction. Decoding is pure; writing the listing to a
//! file is left to the surrounding program.

pub mod disasm;
