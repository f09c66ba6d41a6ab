//! Single-precision numbers, held as their IEEE 754 bit patterns.
//!
//! The patterns are plain `u32` values: one sign bit, eight exponent bits and
//! twenty-three fraction bits. With the sign bit cleared, the patterns of the
//! numbers from zero up to infinity rise with the numbers themselves, and every
//! pattern above that of infinity is a NaN. The comparisons here are built on
//! that fact alone, so they need no arithmetic on the numbers themselves.

use vstd::prelude::*;

verus! {

/// The pattern in which only the sign bit is set (negative zero).
pub const SIGN_BIT: u32 = 0x8000_0000;

/// The pattern of positive infinity.
pub const INFINITY: u32 = 0x7F80_0000;

/// The pattern of positive zero.
pub const ZERO: u32 = 0;

/// The pattern of the absolute value: `bits` with the sign bit cleared.
pub open spec fn magnitude(bits: u32) -> u32 {
    if bits >= SIGN_BIT {
        (bits - SIGN_BIT) as u32
    } else {
        bits
    }
}

/// Whether the pattern is a NaN, which compares with nothing.
pub open spec fn is_nan(bits: u32) -> bool {
    magnitude(bits) > INFINITY
}

/// Where a pattern that is no NaN stands on the number line: patterns of
/// greater numbers have greater ranks, and both zeros have rank 0.
pub open spec fn rank(bits: u32) -> int {
    if bits >= SIGN_BIT {
        -(magnitude(bits) as int)
    } else {
        bits as int
    }
}

/// The IEEE 754 relation "less than": false as soon as either side is a NaN.
pub open spec fn less(a: u32, b: u32) -> bool {
    !is_nan(a) && !is_nan(b) && rank(a) < rank(b)
}

/// The IEEE 754 relation "greater than or equal": false as soon as either
/// side is a NaN.
pub open spec fn at_least(a: u32, b: u32) -> bool {
    !is_nan(a) && !is_nan(b) && rank(a) >= rank(b)
}

/// Clears the sign bit.
pub fn abs(bits: u32) -> (r: u32)
    ensures
        r == magnitude(bits),
        r < SIGN_BIT,
{
    if bits >= SIGN_BIT {
        bits - SIGN_BIT
    } else {
        bits
    }
}

/// Tells whether the pattern is a NaN.
pub fn nan(bits: u32) -> (r: bool)
    ensures
        r == is_nan(bits),
{
    abs(bits) > INFINITY
}

/// The rank of a pattern, NaN or not, as a machine integer.
fn signed_rank(bits: u32) -> (r: i64)
    ensures
        r == rank(bits),
{
    if bits >= SIGN_BIT {
        let m: u32 = bits - SIGN_BIT;
        0 - (m as i64)
    } else {
        bits as i64
    }
}

/// `a < b` as IEEE 754 defines it.
pub fn lt(a: u32, b: u32) -> (r: bool)
    ensures
        r == less(a, b),
{
    !nan(a) && !nan(b) && signed_rank(a) < signed_rank(b)
}

/// `a > b` as IEEE 754 defines it.
pub fn gt(a: u32, b: u32) -> (r: bool)
    ensures
        r == less(b, a),
{
    lt(b, a)
}

/// `a >= b` as IEEE 754 defines it.
pub fn ge(a: u32, b: u32) -> (r: bool)
    ensures
        r == at_least(a, b),
{
    !nan(a) && !nan(b) && signed_rank(a) >= signed_rank(b)
}

} // verus!
