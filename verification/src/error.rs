//! The ways in which encoding one line of assembly can fail.

use vstd::prelude::*;

verus! {

/// Why a line was not encoded. Every failure of the encoder is one of these;
/// no word is returned beside an error.
#[derive(Clone, Copy, Debug, PartialEq, Eq, Structural)]
pub enum AsmError {
    /// The input holds more than one line.
    LineCountError,
    /// The line holds no mnemonic.
    EmptyLine,
    /// The mnemonic is not in the instruction table.
    UnknownMnemonic,
    /// The number of operands is not the one the instruction takes.
    ArityMismatch,
    /// A register operand names no register.
    UnknownRegister,
    /// An immediate operand is not a literal of the immediate grammar.
    MalformedImmediate,
    /// A memory operand is not of the form `displacement(register)`.
    MalformedMemoryOperand,
    /// An instruction without an immediate field was given an immediate.
    InternalTypeInvariant,
}

} // verus!
