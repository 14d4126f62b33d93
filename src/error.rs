use vstd::prelude::*;

verus! {

/// How an instruction failed.
#[derive(Debug, Clone, Copy, PartialEq, Eq, Structural)]
pub enum OpError {
    /// Reading the input or writing the output failed.
    IoError,
    /// An operand was taken from a stack with nothing left to give.
    EmptyStackError,
    /// Decoding failed: unknown opcode, constant or address out of range, stack exhausted.
    GenericError,
    /// `OUT` was asked to print a word that is not a 7-bit ASCII code.
    OutputRangeError,
}

} // verus!
