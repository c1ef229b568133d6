//! The fatal conditions that end a simulation.
use vstd::prelude::*;

verus! {

/// Why a simulation stopped before halting. None of these is recovered
/// from: the machine is left as it was for inspection.
#[derive(Debug, Clone, Copy, PartialEq, Eq, Structural)]
pub enum Fault {
    /// A fetched opcode word encodes no instruction.
    InvalidOpcode(u8),
    /// A bus transaction named an address past the end of memory.
    AddressOutOfRange(u16),
    /// An operand named a register that does not exist.
    RegisterOutOfRange(u8),
    /// A request was dispatched on a busy bus, or a pending request did
    /// not carry what its kind requires.
    BusProtocol,
    /// A `Div` instruction with a zero divisor.
    DivisionByZero,
    /// A push moved the stack pointer below address zero.
    StackOverflow,
    /// A pop or return moved the stack pointer past the largest address.
    StackUnderflow,
}

} // verus!
