//! Base types of the machine: addresses, register data, and the register
//! file's sixteen named slots.
use vstd::prelude::*;

verus! {

/// A 16-bit memory address. Memory itself is 4096 bytes, so only values
/// below 4096 name a real cell; arithmetic on addresses may pass through
/// larger intermediate values.
pub type Address = u16;

/// The 8-bit contents of a data register.
pub type RegData = u8;

/// The sixteen data registers V0..VF. VF doubles as the flag register:
/// arithmetic carry, borrow, shift and draw-collision outcomes overwrite it
/// as the last step of the instruction that defines them.
#[derive(Clone, Copy, PartialEq, Eq, Structural, Debug)]
pub enum Register {
    V0,
    V1,
    V2,
    V3,
    V4,
    V5,
    V6,
    V7,
    V8,
    V9,
    Va,
    Vb,
    Vc,
    Vd,
    Ve,
    Vf,
}

/// Index of a register inside the register file, in 0..16.
pub open spec fn reg_idx(r: Register) -> int {
    match r {
        Register::V0 => 0,
        Register::V1 => 1,
        Register::V2 => 2,
        Register::V3 => 3,
        Register::V4 => 4,
        Register::V5 => 5,
        Register::V6 => 6,
        Register::V7 => 7,
        Register::V8 => 8,
        Register::V9 => 9,
        Register::Va => 10,
        Register::Vb => 11,
        Register::Vc => 12,
        Register::Vd => 13,
        Register::Ve => 14,
        Register::Vf => 15,
    }
}

/// Register named by a nibble, as a total specification: nibbles are the
/// only values the decoder ever produces.
pub open spec fn spec_register_from_nibble(n: u8) -> Register {
    if n == 0 {
        Register::V0
    } else if n == 1 {
        Register::V1
    } else if n == 2 {
        Register::V2
    } else if n == 3 {
        Register::V3
    } else if n == 4 {
        Register::V4
    } else if n == 5 {
        Register::V5
    } else if n == 6 {
        Register::V6
    } else if n == 7 {
        Register::V7
    } else if n == 8 {
        Register::V8
    } else if n == 9 {
        Register::V9
    } else if n == 10 {
        Register::Va
    } else if n == 11 {
        Register::Vb
    } else if n == 12 {
        Register::Vc
    } else if n == 13 {
        Register::Vd
    } else if n == 14 {
        Register::Ve
    } else {
        Register::Vf
    }
}

impl Register {
    /// The register named by a 4-bit value. The decoder only ever extracts
    /// values below 16, so the mapping is total over its callers.
    pub fn from_nibble(n: u8) -> (r: Register)
        requires
            n < 16,
        ensures
            r == spec_register_from_nibble(n),
            reg_idx(r) == n as int,
    {
        match n {
            0 => Register::V0,
            1 => Register::V1,
            2 => Register::V2,
            3 => Register::V3,
            4 => Register::V4,
            5 => Register::V5,
            6 => Register::V6,
            7 => Register::V7,
            8 => Register::V8,
            9 => Register::V9,
            10 => Register::Va,
            11 => Register::Vb,
            12 => Register::Vc,
            13 => Register::Vd,
            14 => Register::Ve,
            _ => Register::Vf,
        }
    }

    /// The index of this register inside the register file.
    pub fn index(self) -> (i: usize)
        ensures
            i == reg_idx(self),
            i < 16,
    {
        match self {
            Register::V0 => 0,
            Register::V1 => 1,
            Register::V2 => 2,
            Register::V3 => 3,
            Register::V4 => 4,
            Register::V5 => 5,
            Register::V6 => 6,
            Register::V7 => 7,
            Register::V8 => 8,
            Register::V9 => 9,
            Register::Va => 10,
            Register::Vb => 11,
            Register::Vc => 12,
            Register::Vd => 13,
            Register::Ve => 14,
            Register::Vf => 15,
        }
    }
}

} // verus!
