//! Reading IEEE-754 double-precision bit patterns as plain 64-bit words.
//!
//! The library stores every neuron parameter and weight as the bit pattern
//! of its double-precision value: bit 63 is the sign, bits 62 to 52 the
//! exponent, bits 51 to 0 the mantissa. The builder's check that lateral
//! weights are not positive is a statement about such patterns, made here.

use vstd::prelude::*;

verus! {

/// Sign bit of a double-precision pattern.
pub open spec fn spec_sign_bit(bits: u64) -> bool {
    bits & 0x8000_0000_0000_0000 != 0
}

/// The pattern encodes a NaN: exponent all ones with a non-zero mantissa.
pub open spec fn spec_is_nan(bits: u64) -> bool {
    bits & 0x7FF0_0000_0000_0000 == 0x7FF0_0000_0000_0000 && bits & 0x000F_FFFF_FFFF_FFFF != 0
}

/// The encoded value compares strictly greater than zero: the sign bit is
/// clear, the pattern is not positive zero, and it is not a NaN (a NaN
/// compares false against everything).
pub open spec fn spec_is_positive(bits: u64) -> bool {
    !spec_sign_bit(bits) && bits != 0 && !spec_is_nan(bits)
}

/// Whether the double-precision value encoded by `bits` is strictly greater
/// than zero under IEEE-754 comparison.
pub fn is_positive_value(bits: u64) -> (r: bool)
    ensures
        r == spec_is_positive(bits),
{
    let sign_clear = bits & 0x8000_0000_0000_0000 == 0;
    let is_nan = bits & 0x7FF0_0000_0000_0000 == 0x7FF0_0000_0000_0000 && bits
        & 0x000F_FFFF_FFFF_FFFF != 0;
    sign_clear && bits != 0 && !is_nan
}

} // verus!
