//! IEEE-754 binary64 values held as their 64-bit patterns.
//!
//! Bit 63 is the sign; the low 63 bits are the magnitude, whose unsigned
//! order is the order of absolute values for every value that is not NaN.
use vstd::prelude::*;

verus! {

/// One past the largest 63-bit magnitude: the weight of the sign bit.
pub const SIGN_BIT: u64 = 0x8000_0000_0000_0000;

/// Magnitude of positive infinity; any larger magnitude is a NaN.
pub const INFINITY_MAGNITUDE: u64 = 0x7ff0_0000_0000_0000;

/// Bits of the machine epsilon of binary64, 2^-52.
pub const MACHINE_EPSILON: u64 = 0x3cb0_0000_0000_0000;

/// The low 63 bits: the encoding of the absolute value.
pub open spec fn magnitude(x: u64) -> int {
    x as int % (SIGN_BIT as int)
}

/// The sign bit is set.
pub open spec fn is_negative(x: u64) -> bool {
    x >= SIGN_BIT
}

pub open spec fn is_nan(x: u64) -> bool {
    magnitude(x) > INFINITY_MAGNITUDE as int
}

/// Positive or negative zero.
pub open spec fn is_zero(x: u64) -> bool {
    magnitude(x) == 0
}

/// IEEE equality (`==` on binary64): NaN equals nothing, and the two zeros
/// are equal.
pub open spec fn same_value(a: u64, b: u64) -> bool {
    !is_nan(a) && !is_nan(b) && (a == b || (is_zero(a) && is_zero(b)))
}

/// IEEE `<` on binary64.
pub open spec fn less_than(a: u64, b: u64) -> bool {
    &&& !is_nan(a)
    &&& !is_nan(b)
    &&& !(is_zero(a) && is_zero(b))
    &&& if !is_negative(a) && !is_negative(b) {
        a < b
    } else if is_negative(a) && is_negative(b) {
        a > b
    } else {
        is_negative(a)
    }
}

/// `|a| > |b|` on binary64: false whenever either is NaN.
pub open spec fn abs_greater(a: u64, b: u64) -> bool {
    !is_nan(a) && !is_nan(b) && magnitude(a) > magnitude(b)
}

/// `a.max(b)` on binary64: a NaN argument yields the other one.
pub open spec fn maximum(a: u64, b: u64) -> u64 {
    if is_nan(a) {
        b
    } else if is_nan(b) {
        a
    } else if less_than(a, b) {
        b
    } else {
        a
    }
}

pub fn magnitude_of(x: u64) -> (r: u64)
    ensures
        r as int == magnitude(x),
{
    x % SIGN_BIT
}

pub fn is_nan_value(x: u64) -> (r: bool)
    ensures
        r == is_nan(x),
{
    magnitude_of(x) > INFINITY_MAGNITUDE
}

pub fn is_zero_value(x: u64) -> (r: bool)
    ensures
        r == is_zero(x),
{
    magnitude_of(x) == 0
}

/// Exact binary64 equality of two bit patterns.
pub fn values_equal(a: u64, b: u64) -> (r: bool)
    ensures
        r == same_value(a, b),
{
    !is_nan_value(a) && !is_nan_value(b) && (a == b || (is_zero_value(a) && is_zero_value(b)))
}

/// Binary64 `a < b`.
pub fn value_less(a: u64, b: u64) -> (r: bool)
    ensures
        r == less_than(a, b),
{
    if is_nan_value(a) || is_nan_value(b) || (is_zero_value(a) && is_zero_value(b)) {
        false
    } else if a < SIGN_BIT && b < SIGN_BIT {
        a < b
    } else if a >= SIGN_BIT && b >= SIGN_BIT {
        a > b
    } else {
        a >= SIGN_BIT
    }
}

/// Binary64 `|a| > |b|`.
pub fn abs_exceeds(a: u64, b: u64) -> (r: bool)
    ensures
        r == abs_greater(a, b),
{
    !is_nan_value(a) && !is_nan_value(b) && magnitude_of(a) > magnitude_of(b)
}

/// Floors a squared distance at the machine epsilon, as `d.max(f64::EPSILON)`
/// does, so that no kernel is ever evaluated at a distance of zero.
pub fn floor_distance(d: u64) -> (r: u64)
    ensures
        r == maximum(d, MACHINE_EPSILON),
        !is_nan(r),
        !is_negative(r),
        magnitude(r) >= MACHINE_EPSILON as int,
{
    if is_nan_value(d) || value_less(d, MACHINE_EPSILON) {
        MACHINE_EPSILON
    } else {
        d
    }
}

} // verus!
