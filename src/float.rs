//! IEEE-754 binary64 values, held as their bit patterns.
//!
//! A value is carried as the `u64` that `f64::to_bits` gives and turned back
//! with `f64::from_bits`. For values that are not NaN, the order of the
//! reals they denote is the order of their signed magnitudes: the pattern
//! without its sign bit, negated when the sign bit is set. Both zeros share
//! the ordinal 0 and so compare equal, as `0.0 == -0.0` does. A NaN compares
//! with nothing, as `<` and `<=` on `f64` do.
use vstd::prelude::*;

verus! {

/// The sign bit.
pub const SIGN_BIT: u64 = 0x8000_0000_0000_0000;

/// Positive zero.
pub const ZERO: u64 = 0;

/// One.
pub const ONE: u64 = 0x3ff0_0000_0000_0000;

/// Positive infinity; every larger magnitude is a NaN.
pub const INFINITY: u64 = 0x7ff0_0000_0000_0000;

/// Negative infinity.
pub const NEG_INFINITY: u64 = 0xfff0_0000_0000_0000;

/// The pattern without its sign bit.
pub open spec fn magnitude(b: u64) -> int {
    if b < SIGN_BIT {
        b as int
    } else {
        b - SIGN_BIT
    }
}

/// Whether `b` is a NaN.
pub open spec fn is_nan_spec(b: u64) -> bool {
    magnitude(b) > INFINITY
}

/// The position of `b` in the order of the reals: its signed magnitude.
pub open spec fn ordinal(b: u64) -> int {
    if b < SIGN_BIT {
        b as int
    } else {
        -(b - SIGN_BIT)
    }
}

/// `a < b` on the values that `a` and `b` encode.
pub open spec fn less_spec(a: u64, b: u64) -> bool {
    !is_nan_spec(a) && !is_nan_spec(b) && ordinal(a) < ordinal(b)
}

/// `a <= b` on the values that `a` and `b` encode.
pub open spec fn less_eq_spec(a: u64, b: u64) -> bool {
    !is_nan_spec(a) && !is_nan_spec(b) && ordinal(a) <= ordinal(b)
}

/// Tells whether `b` is a NaN.
pub fn is_nan(b: u64) -> (r: bool)
    ensures
        r == is_nan_spec(b),
{
    if b < SIGN_BIT {
        b > INFINITY
    } else {
        b - SIGN_BIT > INFINITY
    }
}

/// Compares two values as `<` does.
pub fn less(a: u64, b: u64) -> (r: bool)
    ensures
        r == less_spec(a, b),
{
    if is_nan(a) || is_nan(b) {
        false
    } else if a < SIGN_BIT {
        // `a` is non-negative: only a larger non-negative value lies above it.
        b < SIGN_BIT && a < b
    } else if b < SIGN_BIT {
        // `a` is non-positive and `b` non-negative: equal only for the two zeros.
        a != SIGN_BIT || b != ZERO
    } else {
        // Both non-positive: the larger magnitude is the smaller value.
        b < a
    }
}

/// Compares two values as `<=` does.
pub fn less_eq(a: u64, b: u64) -> (r: bool)
    ensures
        r == less_eq_spec(a, b),
{
    if is_nan(a) || is_nan(b) {
        false
    } else {
        !less(b, a)
    }
}

/// Both zeros denote the same value.
pub proof fn lemma_zeros_equal()
    ensures
        less_eq_spec(ZERO, SIGN_BIT),
        less_eq_spec(SIGN_BIT, ZERO),
        !less_spec(ZERO, SIGN_BIT),
        !less_spec(SIGN_BIT, ZERO),
{
}

/// Every value but a NaN lies between negative and positive infinity.
pub proof fn lemma_infinities_bound(x: u64)
    requires
        !is_nan_spec(x),
    ensures
        less_eq_spec(NEG_INFINITY, x),
        less_eq_spec(x, INFINITY),
{
}

/// `<=` is transitive.
pub proof fn lemma_less_eq_transitive(a: u64, b: u64, c: u64)
    requires
        less_eq_spec(a, b),
        less_eq_spec(b, c),
    ensures
        less_eq_spec(a, c),
{
}

/// Two values that are not NaN are ordered one way or the other.
pub proof fn lemma_total(a: u64, b: u64)
    requires
        !is_nan_spec(a),
        !is_nan_spec(b),
    ensures
        less_spec(a, b) || less_eq_spec(b, a),
        less_spec(a, b) <==> !less_eq_spec(b, a),
{
}

} // verus!
