//! A CHIP-8 virtual machine: instruction decoding, a disassembler and the
//! execution engine, with contracts over a mathematical model of the
//! machine.

pub mod opcode;
pub mod text;
pub mod disassembler;
pub mod error;
pub mod machine;
pub mod sprite;
pub mod transfer;
pub mod cpu;
pub mod laws;
pub mod frame;
pub mod inspect;
