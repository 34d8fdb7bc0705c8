//! Instruction shapes and the decoder.
//!
//! Two bytes form a big-endian 16-bit word of four nibbles `n1 n2 n3 n4`.
//! Decoding is a pure, total function of those nibbles: every pattern not
//! in the table yields `None`, which the executor treats as a halt.
use vstd::prelude::*;

use crate::types::{spec_register_from_nibble, Address, RegData, Register};

verus! {

/// A decoded instruction. Variant names spell the word's nibble pattern:
/// `X` and `Y` are register nibbles, `NN` a byte immediate, `NNN` a 12-bit
/// address, and the final `N` of the draw instruction a row count.
#[allow(non_camel_case_types)]
#[derive(Clone, Copy, PartialEq, Eq, Structural, Debug)]
pub enum Instruction {
    /// Clear every display bit.
    i00E0,
    /// Return from a subroutine.
    i00EE,
    /// Set every display bit (a vendor extension).
    i00E1,
    /// Jump to the address.
    i1NNN(Address),
    /// Call the subroutine at the address.
    i2NNN(Address),
    /// Skip the next instruction if VX equals the immediate.
    i3XNN(Register, RegData),
    /// Skip the next instruction if VX differs from the immediate.
    i4XNN(Register, RegData),
    /// Skip the next instruction if VX equals VY.
    i5XY0(Register, Register),
    /// Store the immediate in VX.
    i6XNN(Register, RegData),
    /// Add the immediate to VX, wrapping, with no flag effect.
    i7XNN(Register, RegData),
    /// Copy VY into VX.
    i8XY0(Register, Register),
    /// VX |= VY.
    i8XY1(Register, Register),
    /// VX &= VY.
    i8XY2(Register, Register),
    /// VX ^= VY.
    i8XY3(Register, Register),
    /// VX += VY wrapping; VF becomes 1 on carry, else 0.
    i8XY4(Register, Register),
    /// VX -= VY wrapping; VF becomes 1 when no borrow, else 0.
    i8XY5(Register, Register),
    /// VX = VY >> 1; VF becomes the shifted-out low bit.
    i8XY6(Register, Register),
    /// VX = VY - VX wrapping; VF becomes 0 on borrow, else 1.
    i8XY7(Register, Register),
    /// VX = VY << 1 (low 8 bits); VF becomes the shifted-out high bit.
    i8XYE(Register, Register),
    /// Skip the next instruction if VX differs from VY.
    i9XY0(Register, Register),
    /// Store the address in I.
    iANNN(Address),
    /// Jump to the address plus V0.
    iBNNN(Address),
    /// Store a random byte masked by the immediate in VX.
    iCXNN(Register, Address),
    /// Draw an N-row sprite from I at column VX, row VY; VF reports
    /// whether any pixel was turned off.
    iDXYN(Register, Register, RegData),
    /// Skip the next instruction if the key named by VX is down.
    iEX9E(Register),
    /// Skip the next instruction if the key named by VX is up.
    iEXA1(Register),
    /// Copy the delay timer into VX.
    iFX07(Register),
    /// Wait until a key release has been registered, then store it in VX.
    iFX0A(Register),
    /// Copy VX into the delay timer.
    iFX15(Register),
    /// Copy VX into the sound timer.
    iFX18(Register),
    /// Add VX to I, wrapping.
    iFX1E(Register),
    /// Point I at the built-in glyph for the low nibble of VX.
    iFX29(Register),
    /// Store the three decimal digits of VX at I, I+1, I+2.
    iFX33(Register),
    /// Store V0..=VX into memory starting at I.
    iFX55(Register),
    /// Load V0..=VX from memory starting at I.
    iFX65(Register),
}

/// What decoding the byte pair (high, low) yields. The word's nibbles are
/// taken arithmetically: `hi / 16`, `hi % 16`, `lo / 16`, `lo % 16`.
pub open spec fn spec_decode(hi: u8, lo: u8) -> Option<Instruction> {
    let n1 = hi / 16;
    let n2 = hi % 16;
    let n3 = lo / 16;
    let n4 = lo % 16;
    let x = spec_register_from_nibble(n2);
    let y = spec_register_from_nibble(n3);
    let nnn = (n2 * 256 + n3 * 16 + n4) as u16;
    let nn = (n3 * 16 + n4) as u8;
    if n1 == 0x0 && n3 == 0xE && n4 == 0x0 {
        Some(Instruction::i00E0)
    } else if n1 == 0x0 && n3 == 0xE && n4 == 0x1 {
        Some(Instruction::i00E1)
    } else if n1 == 0x0 && n3 == 0xE && n4 == 0xE {
        Some(Instruction::i00EE)
    } else if n1 == 0x1 {
        Some(Instruction::i1NNN(nnn))
    } else if n1 == 0x2 {
        Some(Instruction::i2NNN(nnn))
    } else if n1 == 0x3 {
        Some(Instruction::i3XNN(x, nn))
    } else if n1 == 0x4 {
        Some(Instruction::i4XNN(x, nn))
    } else if n1 == 0x5 {
        Some(Instruction::i5XY0(x, y))
    } else if n1 == 0x6 {
        Some(Instruction::i6XNN(x, nn))
    } else if n1 == 0x7 {
        Some(Instruction::i7XNN(x, nn))
    } else if n1 == 0x8 && n4 == 0x0 {
        Some(Instruction::i8XY0(x, y))
    } else if n1 == 0x8 && n4 == 0x1 {
        Some(Instruction::i8XY1(x, y))
    } else if n1 == 0x8 && n4 == 0x2 {
        Some(Instruction::i8XY2(x, y))
    } else if n1 == 0x8 && n4 == 0x3 {
        Some(Instruction::i8XY3(x, y))
    } else if n1 == 0x8 && n4 == 0x4 {
        Some(Instruction::i8XY4(x, y))
    } else if n1 == 0x8 && n4 == 0x5 {
        Some(Instruction::i8XY5(x, y))
    } else if n1 == 0x8 && n4 == 0x6 {
        Some(Instruction::i8XY6(x, y))
    } else if n1 == 0x8 && n4 == 0x7 {
        Some(Instruction::i8XY7(x, y))
    } else if n1 == 0x8 && n4 == 0xE {
        Some(Instruction::i8XYE(x, y))
    } else if n1 == 0x9 {
        Some(Instruction::i9XY0(x, y))
    } else if n1 == 0xA {
        Some(Instruction::iANNN(nnn))
    } else if n1 == 0xB {
        Some(Instruction::iBNNN(nnn))
    } else if n1 == 0xC {
        Some(Instruction::iCXNN(x, nn as u16))
    } else if n1 == 0xD {
        Some(Instruction::iDXYN(x, y, n4))
    } else if n1 == 0xE && n3 == 0x9 {
        Some(Instruction::iEX9E(x))
    } else if n1 == 0xE && n3 == 0xA {
        Some(Instruction::iEXA1(x))
    } else if n1 == 0xF && n3 == 0x0 && n4 == 0x7 {
        Some(Instruction::iFX07(x))
    } else if n1 == 0xF && n3 == 0x0 && n4 == 0xA {
        Some(Instruction::iFX0A(x))
    } else if n1 == 0xF && n3 == 0x1 && n4 == 0x5 {
        Some(Instruction::iFX15(x))
    } else if n1 == 0xF && n3 == 0x1 && n4 == 0x8 {
        Some(Instruction::iFX18(x))
    } else if n1 == 0xF && n3 == 0x1 && n4 == 0xE {
        Some(Instruction::iFX1E(x))
    } else if n1 == 0xF && n3 == 0x2 && n4 == 0x9 {
        Some(Instruction::iFX29(x))
    } else if n1 == 0xF && n3 == 0x3 && n4 == 0x3 {
        Some(Instruction::iFX33(x))
    } else if n1 == 0xF && n3 == 0x5 && n4 == 0x5 {
        Some(Instruction::iFX55(x))
    } else if n1 == 0xF && n3 == 0x6 && n4 == 0x5 {
        Some(Instruction::iFX65(x))
    } else {
        None
    }
}

/// Bounds every decoded instruction satisfies: addresses fit in 12 bits
/// and the draw row count in 4.
pub open spec fn instr_valid(instr: Instruction) -> bool {
    match instr {
        Instruction::i1NNN(a) => a < 4096,
        Instruction::i2NNN(a) => a < 4096,
        Instruction::iANNN(a) => a < 4096,
        Instruction::iBNNN(a) => a < 4096,
        Instruction::iCXNN(_, nn) => nn < 256,
        Instruction::iDXYN(_, _, n) => n < 16,
        _ => true,
    }
}

/// Decoding only ever produces instructions within `instr_valid` bounds.
pub proof fn lemma_decode_valid(hi: u8, lo: u8)
    ensures
        spec_decode(hi, lo) matches Some(instr) ==> instr_valid(instr),
{
}

/// Decoding is a pure function of the two bytes: equal byte pairs decode
/// to equal instruction shapes.
pub proof fn lemma_decode_deterministic(hi1: u8, lo1: u8, hi2: u8, lo2: u8)
    requires
        hi1 == hi2,
        lo1 == lo2,
    ensures
        spec_decode(hi1, lo1) == spec_decode(hi2, lo2),
{
}

/// Decode the two bytes of a fetched instruction word, high byte first.
pub fn decode_instruction(hi: u8, lo: u8) -> (instr: Option<Instruction>)
    ensures
        instr == spec_decode(hi, lo),
{
    let n1: u8 = hi / 16;
    let n2: u8 = hi % 16;
    let n3: u8 = lo / 16;
    let n4: u8 = lo % 16;
    let x = Register::from_nibble(n2);
    let y = Register::from_nibble(n3);
    let nnn: u16 = (n2 as u16) * 256 + (n3 as u16) * 16 + (n4 as u16);
    let nn: u8 = n3 * 16 + n4;
    if n1 == 0x0 && n3 == 0xE && n4 == 0x0 {
        Some(Instruction::i00E0)
    } else if n1 == 0x0 && n3 == 0xE && n4 == 0x1 {
        Some(Instruction::i00E1)
    } else if n1 == 0x0 && n3 == 0xE && n4 == 0xE {
        Some(Instruction::i00EE)
    } else if n1 == 0x1 {
        Some(Instruction::i1NNN(nnn))
    } else if n1 == 0x2 {
        Some(Instruction::i2NNN(nnn))
    } else if n1 == 0x3 {
        Some(Instruction::i3XNN(x, nn))
    } else if n1 == 0x4 {
        Some(Instruction::i4XNN(x, nn))
    } else if n1 == 0x5 {
        Some(Instruction::i5XY0(x, y))
    } else if n1 == 0x6 {
        Some(Instruction::i6XNN(x, nn))
    } else if n1 == 0x7 {
        Some(Instruction::i7XNN(x, nn))
    } else if n1 == 0x8 && n4 == 0x0 {
        Some(Instruction::i8XY0(x, y))
    } else if n1 == 0x8 && n4 == 0x1 {
        Some(Instruction::i8XY1(x, y))
    } else if n1 == 0x8 && n4 == 0x2 {
        Some(Instruction::i8XY2(x, y))
    } else if n1 == 0x8 && n4 == 0x3 {
        Some(Instruction::i8XY3(x, y))
    } else if n1 == 0x8 && n4 == 0x4 {
        Some(Instruction::i8XY4(x, y))
    } else if n1 == 0x8 && n4 == 0x5 {
        Some(Instruction::i8XY5(x, y))
    } else if n1 == 0x8 && n4 == 0x6 {
        Some(Instruction::i8XY6(x, y))
    } else if n1 == 0x8 && n4 == 0x7 {
        Some(Instruction::i8XY7(x, y))
    } else if n1 == 0x8 && n4 == 0xE {
        Some(Instruction::i8XYE(x, y))
    } else if n1 == 0x9 {
        Some(Instruction::i9XY0(x, y))
    } else if n1 == 0xA {
        Some(Instruction::iANNN(nnn))
    } else if n1 == 0xB {
        Some(Instruction::iBNNN(nnn))
    } else if n1 == 0xC {
        Some(Instruction::iCXNN(x, nn as u16))
    } else if n1 == 0xD {
        Some(Instruction::iDXYN(x, y, n4))
    } else if n1 == 0xE && n3 == 0x9 {
        Some(Instruction::iEX9E(x))
    } else if n1 == 0xE && n3 == 0xA {
        Some(Instruction::iEXA1(x))
    } else if n1 == 0xF && n3 == 0x0 && n4 == 0x7 {
        Some(Instruction::iFX07(x))
    } else if n1 == 0xF && n3 == 0x0 && n4 == 0xA {
        Some(Instruction::iFX0A(x))
    } else if n1 == 0xF && n3 == 0x1 && n4 == 0x5 {
        Some(Instruction::iFX15(x))
    } else if n1 == 0xF && n3 == 0x1 && n4 == 0x8 {
        Some(Instruction::iFX18(x))
    } else if n1 == 0xF && n3 == 0x1 && n4 == 0xE {
        Some(Instruction::iFX1E(x))
    } else if n1 == 0xF && n3 == 0x2 && n4 == 0x9 {
        Some(Instruction::iFX29(x))
    } else if n1 == 0xF && n3 == 0x3 && n4 == 0x3 {
        Some(Instruction::iFX33(x))
    } else if n1 == 0xF && n3 == 0x5 && n4 == 0x5 {
        Some(Instruction::iFX55(x))
    } else if n1 == 0xF && n3 == 0x6 && n4 == 0x5 {
        Some(Instruction::iFX65(x))
    } else {
        None
    }
}

} // verus!
