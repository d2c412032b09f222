use vstd::prelude::*;

verus! {

// Binary64 numbers, held by their IEEE 754 bit patterns.

/// Positive zero.
pub const ZERO: u64 = 0;

/// The number one.
pub const ONE: u64 = 0x3FF0_0000_0000_0000;

/// The decay factor of the built-in functors, 0.995 rounded to binary64.
pub const LAMBDA: u64 = 0x3FEF_D70A_3D70_A3D7;

/// The machine epsilon of binary64, two to the power of minus 52.
pub const EPSILON: u64 = 0x3CB0_0000_0000_0000;

/// Positive infinity; every larger magnitude is a NaN.
pub const INFINITY: u64 = 0x7FF0_0000_0000_0000;

/// The sign bit.
pub const SIGN: u64 = 0x8000_0000_0000_0000;

/// The bit pattern of `x` with its sign bit cleared: the absolute value.
pub open spec fn magnitude(x: u64) -> u64 {
    if x >= SIGN {
        (x - SIGN) as u64
    } else {
        x
    }
}

/// Whether `x` is a NaN.
pub open spec fn is_nan(x: u64) -> bool {
    magnitude(x) > INFINITY
}

/// Whether the absolute value of `x` is greater than the machine epsilon.
/// A NaN is greater than nothing; of two patterns without sign that are no
/// NaN, the greater stands for the greater number.
pub open spec fn exceeds_epsilon(x: u64) -> bool {
    !is_nan(x) && magnitude(x) > EPSILON
}

/// The absolute value of `x`.
pub fn abs(x: u64) -> (r: u64)
    ensures
        r == magnitude(x),
{
    if x >= SIGN {
        x - SIGN
    } else {
        x
    }
}

/// Tests whether the absolute value of `x` is greater than the machine
/// epsilon.
pub fn above_epsilon(x: u64) -> (r: bool)
    ensures
        r == exceeds_epsilon(x),
{
    let m: u64 = abs(x);
    EPSILON < m && m <= INFINITY
}

} // verus!
