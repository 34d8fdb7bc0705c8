//! A verified interpreter for an 8-bit register machine with a 16-bit
//! instruction word: sixteen data registers, an address register, a
//! fixed-depth call stack, two countdown timers, a 16-key keyboard surface
//! and a 64x32 monochrome display drawn by collision-detecting XOR blits.
use vstd::prelude::*;

pub mod cpu;
pub mod display;
pub mod instruction;
pub mod keyboard;
pub mod props;
pub mod semantics;
pub mod types;
pub mod util;

verus! {

/// How many instructions a single `tick` may execute before yielding.
pub const INSTRUCTIONS_PER_CYCLE: u32 = 4;

/// Capacity of the call stack.
pub const STACK_MAX_SIZE: usize = 16;

/// Number of bits in one sprite row byte.
pub const BITS_IN_BYTE: u8 = 8;

} // verus!
