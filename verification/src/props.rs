//! Laws of the instruction semantics, stated over the model in
//! `semantics` and proved once and for all.
use vstd::prelude::*;

use crate::instruction::{spec_decode, Instruction};
use crate::semantics::{
    draw_row, draw_sprite, pix_index, read_byte, reg_val, spec_draw, spec_exec, spec_run,
    spec_step, sprite_bit, CpuError, CpuView, StepOut,
};
use crate::types::{Address, Register};

verus! {

/// Clearing the display turns every bit off and touches nothing else:
/// any query after the clear reads all-clear.
pub proof fn lemma_cls_clears(s: CpuView)
    requires
        s.wf(),
    ensures
        spec_exec(s, Instruction::i00E0) matches StepOut::Stepped(t) && t.display.len() == 2048
            && (forall|j: int| 0 <= j < 2048 ==> !t.display[j]) && t.regs == s.regs && t.memory
            == s.memory && t.ip == s.ip,
{
    reveal(spec_exec);
}

/// Setting the whole display turns every bit on: any query after it
/// reads all-set.
pub proof fn lemma_set_all_sets(s: CpuView)
    requires
        s.wf(),
    ensures
        spec_exec(s, Instruction::i00E1) matches StepOut::Stepped(t) && t.display.len() == 2048
            && (forall|j: int| 0 <= j < 2048 ==> t.display[j]) && t.regs == s.regs && t.memory
            == s.memory && t.ip == s.ip,
{
    reveal(spec_exec);
}

/// The carry convention of register addition: for any operand values,
/// VF ends as 1 exactly when the true sum exceeds 255.
pub proof fn lemma_add_reg_flag(s: CpuView, x: Register, y: Register)
    requires
        s.wf(),
    ensures
        spec_exec(s, Instruction::i8XY4(x, y)) matches StepOut::Stepped(t) && (t.regs[15] == 1
            <==> reg_val(s, x) + reg_val(s, y) > 255) && (t.regs[15] == 0 <==> reg_val(s, x)
            + reg_val(s, y) <= 255),
{
    reveal(spec_exec);
}

/// The borrow convention of subtraction: VF ends as 1 exactly when the
/// minuend VX is at least the subtrahend VY, that is, when no borrow
/// occurred.
pub proof fn lemma_sub_flag(s: CpuView, x: Register, y: Register)
    requires
        s.wf(),
    ensures
        spec_exec(s, Instruction::i8XY5(x, y)) matches StepOut::Stepped(t) && (t.regs[15] == 1
            <==> reg_val(s, x) >= reg_val(s, y)) && (t.regs[15] == 0 <==> reg_val(s, x) < reg_val(
            s,
            y,
        )),
{
    reveal(spec_exec);
}

/// The inverted borrow convention of reversed subtraction, which
/// computes VY - VX: VF ends as 0 exactly when that subtraction
/// borrowed, that is, when the minuend VY is smaller than VX.
pub proof fn lemma_subn_flag(s: CpuView, x: Register, y: Register)
    requires
        s.wf(),
    ensures
        spec_exec(s, Instruction::i8XY7(x, y)) matches StepOut::Stepped(t) && (t.regs[15] == 0
            <==> reg_val(s, y) < reg_val(s, x)) && (t.regs[15] == 1 <==> reg_val(s, y) >= reg_val(
            s,
            x,
        )),
{
    reveal(spec_exec);
}

/// Stack round trip: from a state with an empty stack, a call followed
/// by a return restores the instruction pointer to where it stood right
/// after the call instruction, whatever the pointer did in between, and
/// leaves the stack empty again.
pub proof fn lemma_call_ret_round_trip(s: CpuView, addr: Address, mid_ip: nat)
    requires
        s.wf(),
        s.sp == 0,
        s.ip <= 0xFFFF,
    ensures
        spec_exec(s, Instruction::i2NNN(addr)) matches StepOut::Stepped(s1) && s1.ip == addr
            && s1.sp == 1 && (spec_exec(
            CpuView { ip: mid_ip, ..s1 },
            Instruction::i00EE,
        ) matches StepOut::Stepped(s2) && s2.ip == s.ip && s2.sp == 0),
{
    reveal(spec_exec);
}

/// A call with room on the stack succeeds: it pushes the return address
/// and jumps.
pub proof fn lemma_call_succeeds(s: CpuView, addr: Address)
    requires
        s.wf(),
        s.sp < 16,
    ensures
        spec_exec(s, Instruction::i2NNN(addr)) matches StepOut::Stepped(t) && t.sp == s.sp + 1
            && t.stack[s.sp as int] == s.ip as u16 && t.ip == addr,
{
    reveal(spec_exec);
}

/// A call with the stack already at capacity faults with a stack
/// overflow and changes nothing.
pub proof fn lemma_call_overflow(s: CpuView, addr: Address)
    requires
        s.wf(),
        s.sp == 16,
    ensures
        spec_exec(s, Instruction::i2NNN(addr)) == StepOut::Faulted(CpuError::StackOverflow, s),
{
    reveal(spec_exec);
}

/// A return with the stack empty faults with a stack underflow and
/// changes nothing.
pub proof fn lemma_ret_underflow(s: CpuView)
    requires
        s.wf(),
        s.sp == 0,
    ensures
        spec_exec(s, Instruction::i00EE) == StepOut::Faulted(CpuError::StackUnderflow, s),
{
    reveal(spec_exec);
}

/// A burst that halts at once because the word at the pointer does not
/// decode leaves registers, memory, stack and display exactly as they
/// were before the halting fetch; only the instruction pointer has moved
/// past the unrecognized word.
pub proof fn lemma_unrecognized_halt_preserves_state(s: CpuView, fuel: nat)
    requires
        s.wf(),
        s.ip + 1 < 4096,
        spec_decode(s.memory[s.ip as int], s.memory[s.ip as int + 1]) is None,
        fuel > 0,
    ensures
        spec_run(s, fuel).1 is None,
        spec_run(s, fuel).0.regs == s.regs,
        spec_run(s, fuel).0.memory == s.memory,
        spec_run(s, fuel).0.stack == s.stack,
        spec_run(s, fuel).0.sp == s.sp,
        spec_run(s, fuel).0.display == s.display,
        spec_run(s, fuel).0.ip == s.ip + 2,
{
    assert(spec_step(s) matches StepOut::Halted(s1) && s1 == (CpuView {
        ip: (s.ip + 2) as nat,
        ..s
    }));
}

/// The display column hit by sprite bit `b` of a row starting at column
/// `col0`, wrapping at the right edge.
pub open spec fn col_of(col0: int, b: int) -> int {
    (col0 + b) % 64
}

/// The display row hit by sprite row `k` of a sprite starting at row
/// `row0`, wrapping at the bottom edge.
pub open spec fn row_of(row0: int, k: int) -> int {
    (row0 + k) % 32
}

/// The display index hit by bit `b` of a sprite row at (row, col0).
pub open spec fn target_idx(col0: int, row: int, b: int) -> int {
    pix_index(row, col_of(col0, b))
}

/// The display index hit by bit `b` of sprite row `k` of a sprite at
/// (row0, col0).
pub open spec fn sprite_idx(col0: int, row0: int, k: int, b: int) -> int {
    target_idx(col0, row_of(row0, k), b)
}

/// Bit `b` of sprite row `k` of the sprite stored at `base`.
pub open spec fn sprite_row_bit(mem: Seq<u8>, base: int, k: int, b: int) -> bool {
    sprite_bit(read_byte(mem, base + k), b)
}

/// Whether display index `j` is hit by one of the first `nbits` bits of
/// a sprite row at (row, col0).
pub open spec fn row_target(col0: int, row: int, nbits: nat, j: int) -> bool {
    exists|b: int| 0 <= b < nbits && j == #[trigger] target_idx(col0, row, b)
}

/// Whether display index `j` is hit by any bit of the first `nrows`
/// rows of a sprite at (row0, col0).
pub open spec fn sprite_target(col0: int, row0: int, nrows: nat, j: int) -> bool {
    exists|k: int, b: int|
        0 <= k < nrows && 0 <= b < 8 && j == #[trigger] sprite_idx(col0, row0, k, b)
}

/// Two distinct bits of one sprite row land on distinct display
/// columns: eight consecutive columns cannot collide modulo sixty-four.
proof fn lemma_cols_distinct(col0: int, b1: int, b2: int)
    requires
        0 <= col0 < 64,
        0 <= b1 < 8,
        0 <= b2 < 8,
        b1 != b2,
    ensures
        col_of(col0, b1) != col_of(col0, b2),
{
}

/// What drawing one sprite row does, bit for bit: every hit pixel is
/// XORed with its sprite bit, every other pixel keeps its value, and a
/// collision is reported exactly when a hit pixel was already on under
/// an on sprite bit.
proof fn lemma_draw_row_char(d: Seq<bool>, byte: u8, col0: int, row: int, nbits: nat)
    requires
        d.len() == 2048,
        0 <= col0 < 64,
        0 <= row < 32,
        nbits <= 8,
    ensures
        draw_row(d, byte, col0, row, nbits).0.len() == 2048,
        forall|j: int|
            0 <= j < 2048 && !row_target(col0, row, nbits, j) ==> draw_row(
                d,
                byte,
                col0,
                row,
                nbits,
            ).0[j] == d[j],
        forall|b: int|
            0 <= b < nbits ==> draw_row(d, byte, col0, row, nbits).0[#[trigger] target_idx(
                col0,
                row,
                b,
            )] == (d[target_idx(col0, row, b)] != sprite_bit(byte, b)),
        draw_row(d, byte, col0, row, nbits).1 == exists|b: int|
            0 <= b < nbits && d[#[trigger] target_idx(col0, row, b)] && sprite_bit(byte, b),
    decreases nbits,
{
    if nbits == 0 {
        assert(!(exists|b: int|
            0 <= b < 0 && d[#[trigger] target_idx(col0, row, b)] && sprite_bit(byte, b)));
    } else {
        let m = (nbits - 1) as nat;
        lemma_draw_row_char(d, byte, col0, row, m);
        let prev = draw_row(d, byte, col0, row, m);
        let b0 = nbits - 1;
        let idx = target_idx(col0, row, b0);
        assert(0 <= col_of(col0, b0) < 64);
        assert(0 <= idx < 2048);
        assert forall|b: int| 0 <= b < b0 implies #[trigger] target_idx(col0, row, b)
            != idx by {
            lemma_cols_distinct(col0, b, b0);
        }
        assert(!row_target(col0, row, m, idx));
        assert(prev.0[idx] == d[idx]);
        let out = draw_row(d, byte, col0, row, nbits);
        assert(out.0 == prev.0.update(idx, prev.0[idx] != sprite_bit(byte, b0)));
        // Pixels outside the first nbits targets keep their value.
        assert forall|j: int|
            0 <= j < 2048 && !row_target(col0, row, nbits, j) implies out.0[j] == d[j] by {
            assert(!row_target(col0, row, m, j));
            assert(j != idx);
        }
        // Every hit pixel is the XOR of its old value and its sprite bit.
        assert forall|b: int| 0 <= b < nbits implies out.0[#[trigger] target_idx(col0, row, b)]
            == (d[target_idx(col0, row, b)] != sprite_bit(byte, b)) by {
            if b < b0 {
                assert(target_idx(col0, row, b) != idx);
            }
        }
        // The collision flag is exactly "some hit pixel was on under an
        // on sprite bit".
        if out.1 {
            if prev.1 {
                let bw = choose|b: int|
                    0 <= b < m && d[#[trigger] target_idx(col0, row, b)] && sprite_bit(byte, b);
                assert(0 <= bw < nbits && d[target_idx(col0, row, bw)] && sprite_bit(byte, bw));
            } else {
                assert(d[idx] && sprite_bit(byte, b0));
            }
        }
        if exists|b: int|
            0 <= b < nbits && d[#[trigger] target_idx(col0, row, b)] && sprite_bit(byte, b) {
            let bw = choose|b: int|
                0 <= b < nbits && d[#[trigger] target_idx(col0, row, b)] && sprite_bit(byte, b);
            if bw < b0 {
                assert(prev.1);
            } else {
                assert(prev.0[idx] && sprite_bit(byte, b0));
            }
            assert(out.1);
        }
    }
}

/// Two distinct rows of one sprite land on distinct display rows:
/// up to sixteen consecutive rows cannot collide modulo thirty-two.
proof fn lemma_rows_distinct(row0: int, k1: int, k2: int)
    requires
        0 <= row0 < 32,
        0 <= k1 < 16,
        0 <= k2 < 16,
        k1 != k2,
    ensures
        row_of(row0, k1) != row_of(row0, k2),
{
}

/// Indices on distinct display rows are distinct.
proof fn lemma_idx_rows_distinct(col0: int, row0: int, k1: int, b1: int, k2: int, b2: int)
    requires
        0 <= col0 < 64,
        0 <= row0 < 32,
        0 <= k1 < 16,
        0 <= k2 < 16,
        0 <= b1 < 8,
        0 <= b2 < 8,
        k1 != k2,
    ensures
        sprite_idx(col0, row0, k1, b1) != sprite_idx(col0, row0, k2, b2),
{
    lemma_rows_distinct(row0, k1, k2);
    assert(0 <= col_of(col0, b1) < 64);
    assert(0 <= col_of(col0, b2) < 64);
}

/// What drawing a whole sprite does, pixel for pixel: every hit pixel is
/// XORed with its sprite bit, every other pixel keeps its value, and a
/// collision is reported exactly when some hit pixel was already on
/// under an on sprite bit.
proof fn lemma_draw_sprite_char(
    d: Seq<bool>,
    mem: Seq<u8>,
    base: int,
    col0: int,
    row0: int,
    nrows: nat,
)
    requires
        d.len() == 2048,
        0 <= col0 < 64,
        0 <= row0 < 32,
        nrows <= 16,
    ensures
        draw_sprite(d, mem, base, col0, row0, nrows).0.len() == 2048,
        forall|j: int|
            0 <= j < 2048 && !sprite_target(col0, row0, nrows, j) ==> draw_sprite(
                d,
                mem,
                base,
                col0,
                row0,
                nrows,
            ).0[j] == d[j],
        forall|k: int, b: int|
            0 <= k < nrows && 0 <= b < 8 ==> draw_sprite(d, mem, base, col0, row0, nrows).0[
                #[trigger] sprite_idx(col0, row0, k, b)] == (d[sprite_idx(col0, row0, k, b)]
                != sprite_row_bit(mem, base, k, b)),
        draw_sprite(d, mem, base, col0, row0, nrows).1 == exists|k: int, b: int|
            0 <= k < nrows && 0 <= b < 8 && d[#[trigger] sprite_idx(col0, row0, k, b)]
                && sprite_row_bit(mem, base, k, b),
    decreases nrows,
{
    if nrows == 0 {
        assert(!(exists|k: int, b: int|
            0 <= k < 0 && 0 <= b < 8 && d[#[trigger] sprite_idx(col0, row0, k, b)]
                && sprite_row_bit(mem, base, k, b)));
    } else {
        let m = (nrows - 1) as nat;
        lemma_draw_sprite_char(d, mem, base, col0, row0, m);
        let prev = draw_sprite(d, mem, base, col0, row0, m);
        let k0 = nrows - 1;
        let byte = read_byte(mem, base + k0);
        let row = row_of(row0, k0);
        assert(0 <= row < 32);
        lemma_draw_row_char(prev.0, byte, col0, row, 8);
        let this = draw_row(prev.0, byte, col0, row, 8);
        let out = draw_sprite(d, mem, base, col0, row0, nrows);
        assert(out.0 == this.0 && out.1 == (prev.1 || this.1));
        // A pixel hit by the last row is not hit by any earlier row.
        assert forall|b: int| 0 <= b < 8 implies !sprite_target(
            col0,
            row0,
            m,
            #[trigger] target_idx(col0, row, b),
        ) by {
            assert forall|k2: int, b2: int| 0 <= k2 < m && 0 <= b2 < 8 implies #[trigger]
            sprite_idx(col0, row0, k2, b2) != target_idx(col0, row, b) by {
                lemma_idx_rows_distinct(col0, row0, k2, b2, k0, b);
            }
        }
        // Earlier-row pixels are untouched by the last row.
        assert forall|k: int, b: int| 0 <= k < m && 0 <= b < 8 implies !row_target(
            col0,
            row,
            8,
            #[trigger] sprite_idx(col0, row0, k, b),
        ) by {
            assert forall|b2: int| 0 <= b2 < 8 implies #[trigger] target_idx(col0, row, b2)
                != sprite_idx(col0, row0, k, b) by {
                lemma_idx_rows_distinct(col0, row0, k0, b2, k, b);
            }
        }
        // Pixels outside all targets keep their value.
        assert forall|j: int|
            0 <= j < 2048 && !sprite_target(col0, row0, nrows, j) implies out.0[j] == d[j] by {
            assert(!sprite_target(col0, row0, m, j));
            assert(!row_target(col0, row, 8, j)) by {
                if row_target(col0, row, 8, j) {
                    let bw = choose|b: int| 0 <= b < 8 && j == #[trigger] target_idx(col0, row, b);
                    assert(j == sprite_idx(col0, row0, k0, bw));
                }
            }
        }
        // Every hit pixel is the XOR of its old value and its sprite bit.
        assert forall|k: int, b: int| 0 <= k < nrows && 0 <= b < 8 implies out.0[#[trigger]
        sprite_idx(col0, row0, k, b)] == (d[sprite_idx(col0, row0, k, b)] != sprite_row_bit(
            mem,
            base,
            k,
            b,
        )) by {
            if k < m {
                assert(out.0[sprite_idx(col0, row0, k, b)] == prev.0[sprite_idx(
                    col0,
                    row0,
                    k,
                    b,
                )]);
            } else {
                assert(sprite_idx(col0, row0, k, b) == target_idx(col0, row, b));
                assert(prev.0[target_idx(col0, row, b)] == d[target_idx(col0, row, b)]);
                assert(this.0[target_idx(col0, row, b)] == (prev.0[target_idx(col0, row, b)]
                    != sprite_bit(byte, b)));
            }
        }
        // The collision flag is exactly "some hit pixel was on under an
        // on sprite bit".
        let collided = exists|k: int, b: int|
            0 <= k < nrows && 0 <= b < 8 && d[#[trigger] sprite_idx(col0, row0, k, b)]
                && sprite_row_bit(mem, base, k, b);
        if out.1 {
            if prev.1 {
                let (kw, bw) = choose|k: int, b: int|
                    0 <= k < m && 0 <= b < 8 && d[#[trigger] sprite_idx(col0, row0, k, b)]
                        && sprite_row_bit(mem, base, k, b);
                assert(0 <= kw < nrows && 0 <= bw < 8 && d[sprite_idx(col0, row0, kw, bw)]
                    && sprite_row_bit(mem, base, kw, bw));
            } else {
                let bw = choose|b: int|
                    0 <= b < 8 && prev.0[#[trigger] target_idx(col0, row, b)] && sprite_bit(
                        byte,
                        b,
                    );
                assert(prev.0[target_idx(col0, row, bw)] == d[target_idx(col0, row, bw)]);
                assert(d[sprite_idx(col0, row0, k0, bw)] && sprite_row_bit(mem, base, k0, bw));
            }
            assert(collided);
        }
        if collided {
            let (kw, bw) = choose|k: int, b: int|
                0 <= k < nrows && 0 <= b < 8 && d[#[trigger] sprite_idx(col0, row0, k, b)]
                    && sprite_row_bit(mem, base, k, b);
            if kw < m {
                assert(prev.1);
            } else {
                assert(prev.0[target_idx(col0, row, bw)] == d[sprite_idx(col0, row0, kw, bw)]);
                assert(prev.0[target_idx(col0, row, bw)] && sprite_bit(byte, bw));
                assert(this.1);
            }
            assert(out.1);
        }
    }
}

/// Drawing any sprite onto an all-clear display never reports a
/// collision: VF ends as 0, and every hit pixel shows its sprite bit.
pub proof fn lemma_draw_on_clear_no_collision(s: CpuView, x: Register, y: Register, n: u8)
    requires
        s.wf(),
        n < 16,
        forall|j: int| 0 <= j < 2048 ==> !s.display[j],
    ensures
        spec_exec(s, Instruction::iDXYN(x, y, n)) matches StepOut::Stepped(t) && t.regs[15] == 0
            && (forall|k: int, b: int|
            0 <= k < n && 0 <= b < 8 ==> t.display[#[trigger] sprite_idx(
                (reg_val(s, x) % 64) as int,
                (reg_val(s, y) % 32) as int,
                k,
                b,
            )] == sprite_row_bit(s.memory, s.i as int, k, b)) && (forall|j: int|
            0 <= j < 2048 && !sprite_target(
                (reg_val(s, x) % 64) as int,
                (reg_val(s, y) % 32) as int,
                n as nat,
                j,
            ) ==> !t.display[j]),
{
    reveal(spec_exec);
    let col0 = (reg_val(s, x) % 64) as int;
    let row0 = (reg_val(s, y) % 32) as int;
    lemma_draw_sprite_char(s.display, s.memory, s.i as int, col0, row0, n as nat);
    let out = draw_sprite(s.display, s.memory, s.i as int, col0, row0, n as nat);
    assert forall|k: int, b: int| 0 <= k < n && 0 <= b < 8 implies 0 <= #[trigger] sprite_idx(
        col0,
        row0,
        k,
        b,
    ) < 2048 by {
        assert(0 <= row_of(row0, k) < 32);
        assert(0 <= col_of(col0, b) < 64);
    }
    assert(!out.1) by {
        if out.1 {
            let (kw, bw) = choose|k: int, b: int|
                0 <= k < n && 0 <= b < 8 && s.display[#[trigger] sprite_idx(col0, row0, k, b)]
                    && sprite_row_bit(s.memory, s.i as int, k, b);
            assert(!s.display[sprite_idx(col0, row0, kw, bw)]);
        }
    }
    assert forall|k: int, b: int| 0 <= k < n && 0 <= b < 8 implies out.0[#[trigger] sprite_idx(
        col0,
        row0,
        k,
        b,
    )] == sprite_row_bit(s.memory, s.i as int, k, b) by {
        assert(!s.display[sprite_idx(col0, row0, k, b)]);
    }
    assert forall|j: int|
        0 <= j < 2048 && !sprite_target(col0, row0, n as nat, j) implies !out.0[j] by {
        assert(out.0[j] == s.display[j]);
    }
}

/// Drawing the same sprite twice at the same position, starting from an
/// all-clear display, reports a collision the second time (as long as
/// the sprite has any bit on) and leaves the display all-clear again:
/// the XOR blit is its own inverse.
pub proof fn lemma_draw_twice_collides_and_clears(s: CpuView, x: Register, y: Register, n: u8)
    requires
        s.wf(),
        n < 16,
        x != Register::Vf,
        y != Register::Vf,
        forall|j: int| 0 <= j < 2048 ==> !s.display[j],
        exists|k: int, b: int|
            0 <= k < n && 0 <= b < 8 && #[trigger] sprite_row_bit(s.memory, s.i as int, k, b),
    ensures
        spec_exec(s, Instruction::iDXYN(x, y, n)) matches StepOut::Stepped(t1) && (spec_exec(
            t1,
            Instruction::iDXYN(x, y, n),
        ) matches StepOut::Stepped(t2) && t2.regs[15] == 1 && (forall|j: int|
            0 <= j < 2048 ==> !t2.display[j])),
{
    reveal(spec_exec);
    let col0 = (reg_val(s, x) % 64) as int;
    let row0 = (reg_val(s, y) % 32) as int;
    lemma_draw_sprite_char(s.display, s.memory, s.i as int, col0, row0, n as nat);
    let t1 = spec_draw(s, x, y, n);
    assert(reg_val(t1, x) == reg_val(s, x));
    assert(reg_val(t1, y) == reg_val(s, y));
    assert(t1.memory == s.memory && t1.i == s.i);
    lemma_draw_sprite_char(t1.display, s.memory, s.i as int, col0, row0, n as nat);
    let t2 = spec_draw(t1, x, y, n);
    // The second blit turns every hit pixel back off.
    assert forall|j: int| 0 <= j < 2048 implies !t2.display[j] by {
        if sprite_target(col0, row0, n as nat, j) {
            let (kw, bw) = choose|k: int, b: int|
                0 <= k < n && 0 <= b < 8 && j == #[trigger] sprite_idx(col0, row0, k, b);
            assert(t1.display[j] == sprite_row_bit(s.memory, s.i as int, kw, bw));
            assert(t2.display[j] == (t1.display[j] != sprite_row_bit(
                s.memory,
                s.i as int,
                kw,
                bw,
            )));
        } else {
            assert(t2.display[j] == t1.display[j]);
            assert(t1.display[j] == s.display[j]);
        }
    }
    // And it collides on the sprite's on bits.
    let (kw, bw) = choose|k: int, b: int|
        0 <= k < n && 0 <= b < 8 && #[trigger] sprite_row_bit(s.memory, s.i as int, k, b);
    assert(t1.display[sprite_idx(col0, row0, kw, bw)] && sprite_row_bit(
        s.memory,
        s.i as int,
        kw,
        bw,
    ));
}

/// A burst that halts at once because the fetch itself lies out of range
/// changes nothing at all.
pub proof fn lemma_fetch_out_of_range_preserves_state(s: CpuView, fuel: nat)
    requires
        s.wf(),
        s.ip + 1 >= 4096,
        fuel > 0,
    ensures
        spec_run(s, fuel) == (s, None::<CpuError>),
{
}

} // verus!
