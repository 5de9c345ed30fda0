//! What the interpreter reports about instructions that it could not carry
//! out.
use crate::hex::hex;
use crate::hex::push_hex;
use vstd::prelude::*;

verus! {

/// A report about one cycle. The cycle itself had no effect but to move on
/// to the following instruction.
#[derive(Clone, Copy, Debug, PartialEq, Eq, Structural)]
pub enum Diagnostic {
    /// The word at the program counter is no instruction.
    UnknownOpcode { opcode: u16 },
    /// A call found the stack full.
    StackOverflow,
}

/// The line of text for a report.
pub open spec fn message_text(diagnostic: Diagnostic) -> Seq<char> {
    match diagnostic {
        Diagnostic::UnknownOpcode { opcode } => "Unknown opcode: "@ + hex(opcode as nat, 4),
        Diagnostic::StackOverflow => "Stack pointer is too high!"@,
    }
}

impl Diagnostic {
    /// The report as a line of text, without a line break.
    pub fn message(&self) -> (text: String)
        ensures
            text@ == message_text(*self),
    {
        match self {
            Diagnostic::UnknownOpcode { opcode } => {
                let mut text = String::from_str("Unknown opcode: ");
                push_hex(&mut text, *opcode, 4);
                text
            },
            Diagnostic::StackOverflow => String::from_str("Stack pointer is too high!"),
        }
    }
}

} // verus!
