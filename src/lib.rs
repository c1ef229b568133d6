//! A cycle-accurate simulator of a small byte-wide processor that reaches
//! its memory through a one-request bus.
use vstd::prelude::*;

pub mod arithmetic;
pub mod assembler;
pub mod bus;
pub mod clock;
pub mod cpu;
pub mod fault;
pub mod instructions;
pub mod logic;
pub mod memory;

verus! {

/// Words of main memory.
pub const RAM_SIZE: usize = 512;

/// Ticks after which a run stops even if the program has not halted.
pub const CYCLE_LIMIT: usize = 100_000_000;

/// Registers in the register file.
pub const REG_COUNT: usize = 8;

} // verus!
