//! The failures the engine reports.

use vstd::prelude::*;
use vstd::string::StringExecFns;
use crate::text::{hex_text, push_hex};

verus! {

/// Why a step or a program load did not succeed. The machine state is left
/// as it was whenever one of these is returned.
#[derive(Clone, Copy, Debug, PartialEq, Eq, Structural)]
pub enum EngineError {
    /// The fetched instruction word encodes no instruction.
    UnknownOpcode(u16),
    /// A call was made with sixteen return addresses already on the stack.
    StackOverflow,
    /// A return was made with no return address on the stack.
    StackUnderflow,
    /// The program does not fit between the load address and the end of
    /// memory.
    ProgramTooLarge,
}

impl EngineError {
    /// The text of [`EngineError::message`].
    pub open spec fn message_text(self) -> Seq<char> {
        match self {
            EngineError::UnknownOpcode(code) => "unknown opcode 0x"@ + hex_text(code as nat),
            EngineError::StackOverflow => "stack overflow"@,
            EngineError::StackUnderflow => "stack underflow"@,
            EngineError::ProgramTooLarge => "program too large"@,
        }
    }

    /// A one-line description of the failure for the driver to report.
    pub fn message(&self) -> (s: String)
        ensures
            s@ == self.message_text(),
    {
        match self {
            EngineError::UnknownOpcode(code) => {
                let mut s = String::from_str("unknown opcode 0x");
                push_hex(&mut s, *code);
                s
            },
            EngineError::StackOverflow => String::from_str("stack overflow"),
            EngineError::StackUnderflow => String::from_str("stack underflow"),
            EngineError::ProgramTooLarge => String::from_str("program too large"),
        }
    }
}

} // verus!
