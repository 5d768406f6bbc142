//! Errors surfaced by the decoder and the CPU.
use vstd::prelude::*;

verus! {

#[derive(Debug, Clone, Copy, PartialEq, Eq, Structural)]
pub enum Error {
    /// The byte buffer ended before the instruction did.
    EOF,
    /// An operand that the instruction needs is missing.
    MissingArgument,
    /// `byte` at address `pc` is not an opcode of the instruction set.
    IllegalOpcode { byte: u8, pc: u16 },
}

} // verus!
