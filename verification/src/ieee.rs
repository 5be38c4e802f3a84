//! Comparisons of `f64` values held as their IEEE-754 bit patterns. The
//! library never does floating-point arithmetic; where a rule compares
//! numbers it reads their encodings, exactly as the hardware comparison
//! would.
use vstd::prelude::*;

verus! {

/// Bits of the exponent field.
pub const EXPONENT_MASK: u64 = 0x7FF0_0000_0000_0000;

/// Bits of the fraction field.
pub const FRACTION_MASK: u64 = 0x000F_FFFF_FFFF_FFFF;

/// Every bit but the sign.
pub const MAGNITUDE_MASK: u64 = 0x7FFF_FFFF_FFFF_FFFF;

/// The sign bit.
pub const SIGN_MASK: u64 = 0x8000_0000_0000_0000;

/// A NaN: all exponent bits set and a non-zero fraction.
pub open spec fn f64_is_nan(bits: u64) -> bool {
    (bits & EXPONENT_MASK) == EXPONENT_MASK && (bits & FRACTION_MASK) != 0
}

/// The position of a non-NaN value on the number line: IEEE-754 encodes
/// non-negative values so that their bit patterns grow with the value, and
/// negative values as the same magnitude with the sign bit set; both zeros
/// sit at 0.
pub open spec fn f64_rank(bits: u64) -> int {
    if (bits & SIGN_MASK) != 0 {
        -((bits & MAGNITUDE_MASK) as int)
    } else {
        (bits & MAGNITUDE_MASK) as int
    }
}

/// `a <= b` on `f64` values; false when either is NaN.
pub open spec fn f64_le(a: u64, b: u64) -> bool {
    !f64_is_nan(a) && !f64_is_nan(b) && f64_rank(a) <= f64_rank(b)
}

/// `a < b` on `f64` values; false when either is NaN.
pub open spec fn f64_lt(a: u64, b: u64) -> bool {
    !f64_is_nan(a) && !f64_is_nan(b) && f64_rank(a) < f64_rank(b)
}

/// Whether the value is NaN.
pub fn is_nan(bits: u64) -> (res: bool)
    ensures
        res == f64_is_nan(bits),
{
    (bits & EXPONENT_MASK) == EXPONENT_MASK && (bits & FRACTION_MASK) != 0
}

fn rank(bits: u64) -> (res: i64)
    ensures
        res as int == f64_rank(bits),
{
    let magnitude: u64 = bits & MAGNITUDE_MASK;
    assert(magnitude <= 0x7FFF_FFFF_FFFF_FFFF) by (bit_vector)
        requires
            magnitude == bits & 0x7FFF_FFFF_FFFF_FFFFu64,
    ;
    if (bits & SIGN_MASK) != 0 {
        -(magnitude as i64)
    } else {
        magnitude as i64
    }
}

/// `a <= b` on `f64` values.
pub fn le(a: u64, b: u64) -> (res: bool)
    ensures
        res == f64_le(a, b),
{
    !is_nan(a) && !is_nan(b) && rank(a) <= rank(b)
}

/// `a < b` on `f64` values.
pub fn lt(a: u64, b: u64) -> (res: bool)
    ensures
        res == f64_lt(a, b),
{
    !is_nan(a) && !is_nan(b) && rank(a) < rank(b)
}

/// The order is a strict one: no two values are each below the other, and
/// NaN compares with nothing.
pub proof fn f64_lt_asymmetric(a: u64, b: u64)
    ensures
        !(f64_lt(a, b) && f64_lt(b, a)),
        f64_is_nan(a) ==> !f64_le(a, b) && !f64_le(b, a) && !f64_lt(a, b) && !f64_lt(b, a),
        f64_lt(a, b) ==> f64_le(a, b),
{
}

/// Positive and negative zero compare equal.
pub proof fn f64_zeros_equal()
    ensures
        f64_le(0, SIGN_MASK),
        f64_le(SIGN_MASK, 0),
{
    assert((0u64 & 0x7FF0_0000_0000_0000u64) == 0u64) by (bit_vector);
    assert((0u64 & 0x8000_0000_0000_0000u64) == 0u64) by (bit_vector);
    assert((0u64 & 0x7FFF_FFFF_FFFF_FFFFu64) == 0u64) by (bit_vector);
    assert((0x8000_0000_0000_0000u64 & 0x7FF0_0000_0000_0000u64) == 0u64) by (bit_vector);
    assert((0x8000_0000_0000_0000u64 & 0x8000_0000_0000_0000u64) != 0u64) by (bit_vector);
    assert((0x8000_0000_0000_0000u64 & 0x7FFF_FFFF_FFFF_FFFFu64) == 0u64) by (bit_vector);
}

} // verus!
