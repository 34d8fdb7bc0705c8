//! The 64x32 monochrome display surface.
//!
//! The pixel store itself is a `fixedbitset::FixedBitSet`; the wrappers
//! below state what each of its operations does to the bits, and the
//! `Display` type builds its verified interface on top of them.
use vstd::prelude::*;

use fixedbitset::FixedBitSet;

verus! {

/// Width of the display in pixels.
pub const DISPLAY_WIDTH: usize = 64;

/// Height of the display in pixels.
pub const DISPLAY_HEIGHT: usize = 32;

/// Number of pixels on the display.
pub const DISPLAY_BITS: usize = 2048;

#[verifier::external_type_specification]
#[verifier::external_body]
pub struct ExFixedBitSet(FixedBitSet);

/// The bits held by a `FixedBitSet`, in index order.
pub uninterp spec fn fbs_bits(s: FixedBitSet) -> Seq<bool>;

/// Relies on FixedBitSet::with_capacity: a set with the given number of
/// bits, all initially clear.
#[verifier::external_body]
fn fbs_with_capacity(bits: usize) -> (s: FixedBitSet)
    ensures
        fbs_bits(s).len() == bits,
        forall|i: int| 0 <= i < bits ==> !fbs_bits(s)[i],
{
    FixedBitSet::with_capacity(bits)
}

/// Relies on FixedBitSet::set: writes one bit in place; it panics only on
/// an index at or past the length, which the precondition rules out.
#[verifier::external_body]
fn fbs_set(s: &mut FixedBitSet, bit: usize, enabled: bool)
    requires
        bit < fbs_bits(*old(s)).len(),
    ensures
        fbs_bits(*final(s)) == fbs_bits(*old(s)).update(bit as int, enabled),
{
    s.set(bit, enabled)
}

/// Relies on FixedBitSet::contains: reads one bit; an index at or past the
/// length reads as false.
#[verifier::external_body]
fn fbs_contains(s: &FixedBitSet, bit: usize) -> (b: bool)
    ensures
        b == (bit < fbs_bits(*s).len() && fbs_bits(*s)[bit as int]),
{
    s.contains(bit)
}

/// Relies on FixedBitSet::clear: clears every bit, keeping the length.
#[verifier::external_body]
fn fbs_clear(s: &mut FixedBitSet)
    ensures
        fbs_bits(*final(s)).len() == fbs_bits(*old(s)).len(),
        forall|i: int| 0 <= i < fbs_bits(*final(s)).len() ==> !fbs_bits(*final(s))[i],
{
    s.clear()
}

/// Relies on FixedBitSet::set_range over the full range: enables every
/// bit, keeping the length; the full range never panics.
#[verifier::external_body]
fn fbs_set_all(s: &mut FixedBitSet)
    ensures
        fbs_bits(*final(s)).len() == fbs_bits(*old(s)).len(),
        forall|i: int| 0 <= i < fbs_bits(*final(s)).len() ==> fbs_bits(*final(s))[i],
{
    s.set_range(.., true)
}

/// The monochrome bitmap the machine draws on. A pixel at (row, col) lives
/// at linear index `row * DISPLAY_WIDTH + col`.
pub struct Display {
    bits: FixedBitSet,
}

impl View for Display {
    type V = Seq<bool>;

    closed spec fn view(&self) -> Seq<bool> {
        fbs_bits(self.bits)
    }
}

impl Display {
    /// A display with every pixel off.
    pub fn new() -> (d: Display)
        ensures
            d@.len() == DISPLAY_BITS,
            forall|i: int| 0 <= i < DISPLAY_BITS ==> !d@[i],
    {
        Display { bits: fbs_with_capacity(DISPLAY_BITS) }
    }

    /// Turn every pixel off.
    pub fn clear(&mut self)
        ensures
            final(self)@.len() == old(self)@.len(),
            forall|i: int| 0 <= i < final(self)@.len() ==> !final(self)@[i],
    {
        fbs_clear(&mut self.bits)
    }

    /// Turn every pixel on.
    pub fn set_all(&mut self)
        ensures
            final(self)@.len() == old(self)@.len(),
            forall|i: int| 0 <= i < final(self)@.len() ==> final(self)@[i],
    {
        fbs_set_all(&mut self.bits)
    }

    /// Write the pixel at a linear index.
    pub fn set(&mut self, index: usize, value: bool)
        requires
            index < old(self)@.len(),
        ensures
            final(self)@ == old(self)@.update(index as int, value),
    {
        fbs_set(&mut self.bits, index, value)
    }

    /// Read the pixel at a linear index; an index past the end reads as off.
    pub fn get(&self, index: usize) -> (b: bool)
        ensures
            b == (index < self@.len() && self@[index as int]),
    {
        fbs_contains(&self.bits, index)
    }
}

} // verus!
