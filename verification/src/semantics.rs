//! The mathematical model of the machine.
//!
//! `CpuView` is the abstract state; `spec_step` gives the meaning of one
//! fetch-decode-execute step and `spec_run` the meaning of a bounded burst
//! of them. The executable interpreter in `cpu` is proved to follow these
//! functions exactly.
use vstd::prelude::*;

use crate::instruction::{spec_decode, Instruction};
use crate::types::{reg_idx, Register};

verus! {

/// A fault that aborts the running program and is reported to the caller
/// of `tick`.
#[derive(Clone, Copy, PartialEq, Eq, Structural, Debug)]
pub enum CpuError {
    /// A call was made with the call stack already at capacity.
    StackOverflow,
    /// A return was executed with the call stack empty.
    StackUnderflow,
}

/// Abstract machine state: memory image, register file, call stack,
/// timers, display bits, keyboard surface and the random-sequence state.
#[verifier::ext_equal]
pub ghost struct CpuView {
    /// The 4096 memory bytes.
    pub memory: Seq<u8>,
    /// The sixteen data registers V0..VF.
    pub regs: Seq<u8>,
    /// The sixteen call-stack slots; only the first `sp` are live.
    pub stack: Seq<u16>,
    /// The stack pointer, counting live slots from the bottom.
    pub sp: nat,
    /// The delay timer.
    pub delay_timer: u8,
    /// The sound timer.
    pub sound_timer: u8,
    /// The 2048 display bits, row-major.
    pub display: Seq<bool>,
    /// The instruction pointer, a byte offset into memory.
    pub ip: nat,
    /// The address register I.
    pub i: u16,
    /// Which of the sixteen keys are down.
    pub keys: Seq<bool>,
    /// The key released since the last press, if any.
    pub registered: Option<u8>,
    /// State of the deterministic random sequence.
    pub rng: u16,
}

impl CpuView {
    /// Structural bounds every reachable machine state satisfies.
    pub open spec fn wf(self) -> bool {
        &&& self.memory.len() == 4096
        &&& self.regs.len() == 16
        &&& self.stack.len() == 16
        &&& self.sp <= 16
        &&& self.display.len() == 2048
        &&& self.ip <= 0xFFFF
        &&& self.keys.len() == 16
        &&& (self.registered matches Some(k) ==> k < 16)
    }
}

/// Outcome of one machine step: the tick's loop ended quietly, the step
/// completed, or the program faulted.
pub ghost enum StepOut {
    /// No instruction at the pointer (fetch out of range, or the word did
    /// not decode): the tick ends, state as given.
    Halted(CpuView),
    /// The instruction executed; state as given.
    Stepped(CpuView),
    /// A resource fault; state as given, error for the caller.
    Faulted(CpuError, CpuView),
}

/// The value of register `r` in state `s`.
pub open spec fn reg_val(s: CpuView, r: Register) -> u8 {
    s.regs[reg_idx(r)]
}

/// `s` with register `r` set to `v`.
pub open spec fn with_reg(s: CpuView, r: Register, v: u8) -> CpuView {
    CpuView { regs: s.regs.update(reg_idx(r), v), ..s }
}

/// `s` with the flag register VF set to `v`.
pub open spec fn with_flag(s: CpuView, v: u8) -> CpuView {
    CpuView { regs: s.regs.update(15, v), ..s }
}

/// `s` with the instruction pointer moved past one more instruction when
/// `cond` holds.
pub open spec fn skip_if(s: CpuView, cond: bool) -> CpuView {
    if cond {
        CpuView { ip: (s.ip + 2) as nat, ..s }
    } else {
        s
    }
}

/// The byte at `addr`, reading out-of-range addresses as zero.
pub open spec fn read_byte(mem: Seq<u8>, addr: int) -> u8 {
    if 0 <= addr < 4096 {
        mem[addr]
    } else {
        0
    }
}

/// `mem` with the byte at `addr` replaced, ignoring out-of-range writes.
pub open spec fn write_byte(mem: Seq<u8>, addr: int, v: u8) -> Seq<u8> {
    if 0 <= addr < 4096 {
        mem.update(addr, v)
    } else {
        mem
    }
}

/// Eight-bit wrapping addition.
pub open spec fn wrap_add8(a: u8, b: u8) -> u8 {
    ((a + b) % 256) as u8
}

/// Eight-bit wrapping subtraction.
pub open spec fn wrap_sub8(a: u8, b: u8) -> u8 {
    ((a - b + 256) % 256) as u8
}

/// Sixteen-bit wrapping addition.
pub open spec fn wrap_add16(a: u16, b: u16) -> u16 {
    ((a + b) % 0x10000) as u16
}

/// The successor of the random-sequence state: a 16-bit linear
/// congruential step.
pub open spec fn next_rand(r: u16) -> u16 {
    ((r * 25173 + 13849) % 0x10000) as u16
}

/// Whether the key named by the low nibble of `v` is down in `s`.
pub open spec fn key_down(s: CpuView, v: u8) -> bool {
    s.keys[(v % 16) as int]
}

/// The weight of sprite bit `bit`, most significant first: bit 0 weighs
/// 128, bit 7 weighs 1.
pub open spec fn bit_weight(bit: int) -> int {
    if bit == 0 {
        128
    } else if bit == 1 {
        64
    } else if bit == 2 {
        32
    } else if bit == 3 {
        16
    } else if bit == 4 {
        8
    } else if bit == 5 {
        4
    } else if bit == 6 {
        2
    } else {
        1
    }
}

/// Whether sprite bit `bit` (leftmost pixel first) of a sprite row byte is
/// set.
pub open spec fn sprite_bit(byte: u8, bit: int) -> bool {
    (byte as int / bit_weight(bit)) % 2 == 1
}

/// The linear display index of (row, col).
pub open spec fn pix_index(row: int, col: int) -> int {
    row * 64 + col
}

/// XOR the first `nbits` bits of one sprite row byte onto the display,
/// columns wrapping modulo the display width. Returns the new bits and
/// whether any pixel went from on to off.
pub open spec fn draw_row(d: Seq<bool>, byte: u8, col0: int, row: int, nbits: nat) -> (Seq<
    bool,
>, bool)
    decreases nbits,
{
    if nbits == 0 {
        (d, false)
    } else {
        let prev = draw_row(d, byte, col0, row, (nbits - 1) as nat);
        let b = nbits - 1;
        let sbit = sprite_bit(byte, b);
        let idx = pix_index(row, (col0 + b) % 64);
        let cur = prev.0[idx];
        (prev.0.update(idx, cur != sbit), prev.1 || (cur && sbit))
    }
}

/// XOR the first `nrows` sprite rows, read from memory starting at `base`,
/// onto the display; rows wrap modulo the display height. Returns the new
/// bits and whether any pixel went from on to off.
pub open spec fn draw_sprite(
    d: Seq<bool>,
    mem: Seq<u8>,
    base: int,
    col0: int,
    row0: int,
    nrows: nat,
) -> (Seq<bool>, bool)
    decreases nrows,
{
    if nrows == 0 {
        (d, false)
    } else {
        let prev = draw_sprite(d, mem, base, col0, row0, (nrows - 1) as nat);
        let k = nrows - 1;
        let byte = read_byte(mem, base + k);
        let row = (row0 + k) % 32;
        let this = draw_row(prev.0, byte, col0, row, 8);
        (this.0, prev.1 || this.1)
    }
}

/// Effect of the draw instruction on state `s`: blit `n` sprite rows from
/// I at column VX (mod 64), row VY (mod 32), then write the collision
/// outcome to VF as the last step.
pub open spec fn spec_draw(s: CpuView, x: Register, y: Register, n: u8) -> CpuView {
    let col0 = reg_val(s, x) % 64;
    let row0 = reg_val(s, y) % 32;
    let out = draw_sprite(s.display, s.memory, s.i as int, col0 as int, row0 as int, n as nat);
    CpuView {
        display: out.0,
        regs: s.regs.update(
            15,
            if out.1 {
                1u8
            } else {
                0u8
            },
        ),
        ..s
    }
}

/// The memory after storing registers V0..V(count-1) at ascending
/// addresses from `base`, out-of-range writes ignored.
pub open spec fn store_regs(mem: Seq<u8>, regs: Seq<u8>, base: int, count: nat) -> Seq<u8>
    decreases count,
{
    if count == 0 {
        mem
    } else {
        let prev = store_regs(mem, regs, base, (count - 1) as nat);
        write_byte(prev, base + count - 1, regs[count - 1])
    }
}

/// The register file after loading V0..V(count-1) from ascending
/// addresses from `base`, out-of-range reads yielding zero.
pub open spec fn load_regs(regs: Seq<u8>, mem: Seq<u8>, base: int, count: nat) -> Seq<u8>
    decreases count,
{
    if count == 0 {
        regs
    } else {
        let prev = load_regs(regs, mem, base, (count - 1) as nat);
        prev.update(count - 1, read_byte(mem, base + count - 1))
    }
}

/// The effect of executing one decoded instruction in state `s`, where
/// `s.ip` already points past the instruction word.
#[verifier::opaque]
pub open spec fn spec_exec(s: CpuView, instr: Instruction) -> StepOut {
    match instr {
        Instruction::i00E0 => StepOut::Stepped(
            CpuView { display: Seq::new(2048, |j: int| false), ..s },
        ),
        Instruction::i00E1 => StepOut::Stepped(
            CpuView { display: Seq::new(2048, |j: int| true), ..s },
        ),
        Instruction::i00EE => if s.sp == 0 {
            StepOut::Faulted(CpuError::StackUnderflow, s)
        } else {
            StepOut::Stepped(
                CpuView { ip: s.stack[s.sp - 1] as nat, sp: (s.sp - 1) as nat, ..s },
            )
        },
        Instruction::i1NNN(a) => StepOut::Stepped(CpuView { ip: a as nat, ..s }),
        Instruction::i2NNN(a) => if s.sp >= 16 {
            StepOut::Faulted(CpuError::StackOverflow, s)
        } else {
            StepOut::Stepped(
                CpuView {
                    stack: s.stack.update(s.sp as int, s.ip as u16),
                    sp: (s.sp + 1) as nat,
                    ip: a as nat,
                    ..s
                },
            )
        },
        Instruction::i3XNN(x, nn) => StepOut::Stepped(skip_if(s, reg_val(s, x) == nn)),
        Instruction::i4XNN(x, nn) => StepOut::Stepped(skip_if(s, reg_val(s, x) != nn)),
        Instruction::i5XY0(x, y) => StepOut::Stepped(skip_if(s, reg_val(s, x) == reg_val(s, y))),
        Instruction::i6XNN(x, nn) => StepOut::Stepped(with_reg(s, x, nn)),
        Instruction::i7XNN(x, nn) => StepOut::Stepped(
            with_reg(s, x, wrap_add8(reg_val(s, x), nn)),
        ),
        Instruction::i8XY0(x, y) => StepOut::Stepped(with_reg(s, x, reg_val(s, y))),
        Instruction::i8XY1(x, y) => StepOut::Stepped(
            with_reg(s, x, reg_val(s, x) | reg_val(s, y)),
        ),
        Instruction::i8XY2(x, y) => StepOut::Stepped(
            with_reg(s, x, reg_val(s, x) & reg_val(s, y)),
        ),
        Instruction::i8XY3(x, y) => StepOut::Stepped(
            with_reg(s, x, reg_val(s, x) ^ reg_val(s, y)),
        ),
        Instruction::i8XY4(x, y) => {
            let a = reg_val(s, x);
            let b = reg_val(s, y);
            let flag: u8 = if a + b > 255 {
                1
            } else {
                0
            };
            StepOut::Stepped(with_flag(with_reg(s, x, wrap_add8(a, b)), flag))
        },
        Instruction::i8XY5(x, y) => {
            let a = reg_val(s, x);
            let b = reg_val(s, y);
            let flag: u8 = if a >= b {
                1
            } else {
                0
            };
            StepOut::Stepped(with_flag(with_reg(s, x, wrap_sub8(a, b)), flag))
        },
        Instruction::i8XY6(x, y) => {
            let b = reg_val(s, y);
            StepOut::Stepped(with_flag(with_reg(s, x, b / 2), b % 2))
        },
        Instruction::i8XY7(x, y) => {
            let a = reg_val(s, x);
            let b = reg_val(s, y);
            let flag: u8 = if b >= a {
                1
            } else {
                0
            };
            StepOut::Stepped(with_flag(with_reg(s, x, wrap_sub8(b, a)), flag))
        },
        Instruction::i8XYE(x, y) => {
            let b = reg_val(s, y);
            StepOut::Stepped(with_flag(with_reg(s, x, ((b % 128) * 2) as u8), b / 128))
        },
        Instruction::i9XY0(x, y) => StepOut::Stepped(skip_if(s, reg_val(s, x) != reg_val(s, y))),
        Instruction::iANNN(a) => StepOut::Stepped(CpuView { i: a, ..s }),
        Instruction::iBNNN(a) => StepOut::Stepped(CpuView { ip: (a + s.regs[0]) as nat, ..s }),
        Instruction::iCXNN(x, mask) => {
            let r2 = next_rand(s.rng);
            StepOut::Stepped(
                CpuView { rng: r2, regs: s.regs.update(reg_idx(x), ((r2 & mask) % 256) as u8), ..s },
            )
        },
        Instruction::iDXYN(x, y, n) => StepOut::Stepped(spec_draw(s, x, y, n)),
        Instruction::iEX9E(x) => StepOut::Stepped(skip_if(s, key_down(s, reg_val(s, x)))),
        Instruction::iEXA1(x) => StepOut::Stepped(skip_if(s, !key_down(s, reg_val(s, x)))),
        Instruction::iFX07(x) => StepOut::Stepped(with_reg(s, x, s.delay_timer)),
        Instruction::iFX0A(x) => match s.registered {
            Some(k) => StepOut::Stepped(with_reg(s, x, k)),
            None => StepOut::Stepped(CpuView { ip: (s.ip - 2) as nat, ..s }),
        },
        Instruction::iFX15(x) => StepOut::Stepped(CpuView { delay_timer: reg_val(s, x), ..s }),
        Instruction::iFX18(x) => StepOut::Stepped(CpuView { sound_timer: reg_val(s, x), ..s }),
        Instruction::iFX1E(x) => StepOut::Stepped(
            CpuView { i: wrap_add16(s.i, reg_val(s, x) as u16), ..s },
        ),
        Instruction::iFX29(x) => StepOut::Stepped(
            CpuView { i: (0x50 + 5 * (reg_val(s, x) % 16)) as u16, ..s },
        ),
        Instruction::iFX33(x) => {
            let v = reg_val(s, x);
            let m1 = write_byte(s.memory, s.i as int, (v / 100) as u8);
            let m2 = write_byte(m1, s.i as int + 1, ((v / 10) % 10) as u8);
            let m3 = write_byte(m2, s.i as int + 2, (v % 10) as u8);
            StepOut::Stepped(CpuView { memory: m3, ..s })
        },
        Instruction::iFX55(x) => StepOut::Stepped(
            CpuView {
                memory: store_regs(s.memory, s.regs, s.i as int, (reg_idx(x) + 1) as nat),
                ..s
            },
        ),
        Instruction::iFX65(x) => StepOut::Stepped(
            CpuView {
                regs: load_regs(s.regs, s.memory, s.i as int, (reg_idx(x) + 1) as nat),
                ..s
            },
        ),
    }
}

/// One fetch-decode-execute step from state `s`: fetch two bytes at the
/// instruction pointer (halting, without advancing, if either is out of
/// range), advance the pointer past the word, then decode (halting on an
/// unrecognized word) and execute.
pub open spec fn spec_step(s: CpuView) -> StepOut {
    if s.ip + 1 < 4096 {
        let hi = s.memory[s.ip as int];
        let lo = s.memory[s.ip as int + 1];
        let s1 = CpuView { ip: (s.ip + 2) as nat, ..s };
        match spec_decode(hi, lo) {
            Some(instr) => spec_exec(s1, instr),
            None => StepOut::Halted(s1),
        }
    } else {
        StepOut::Halted(s)
    }
}

/// A burst of at most `fuel` steps: the state after the burst and the
/// fault, if one occurred.
pub open spec fn spec_run(s: CpuView, fuel: nat) -> (CpuView, Option<CpuError>)
    decreases fuel,
{
    if fuel == 0 {
        (s, None)
    } else {
        match spec_step(s) {
            StepOut::Halted(s1) => (s1, None),
            StepOut::Stepped(s1) => spec_run(s1, (fuel - 1) as nat),
            StepOut::Faulted(e, s1) => (s1, Some(e)),
        }
    }
}

} // verus!
