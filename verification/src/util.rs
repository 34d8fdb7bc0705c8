//! Small arithmetic helpers shared by the interpreter.
use vstd::prelude::*;

verus! {

/// Decompose a byte into its three decimal digits, most significant first.
/// This is the work behind the BCD instruction: `0xFF` becomes `[2, 5, 5]`.
pub fn hex2decimal(hex_number: u8) -> (digits: [u8; 3])
    ensures
        digits[0] == hex_number as int / 100,
        digits[1] == (hex_number as int / 10) % 10,
        digits[2] == hex_number as int % 10,
{
    let hundreds: u8 = hex_number / 100;
    let tens: u8 = (hex_number / 10) % 10;
    let ones: u8 = hex_number % 10;
    [hundreds, tens, ones]
}

} // verus!
