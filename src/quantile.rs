//! The domain and boundary policy of a quantile function.
//!
//! A quantile takes a probability `p` in `[0, 1]` and fails on anything
//! else, NaN included. `p = 0` goes to the infimum of the support and
//! `p = 1` to its supremum, without evaluating the closed form; only `p`
//! strictly inside `(0, 1)` is left to the formula.
use vstd::prelude::*;
use crate::float::{less, less_eq, less_eq_spec, less_spec, ONE, ZERO};

verus! {

/// Where a probability falls for a quantile function.
#[derive(Clone, Copy, Debug, PartialEq, Eq, Structural)]
pub enum Region {
    /// `p = 0`: the infimum of the support.
    Infimum,
    /// `p = 1`: the supremum of the support.
    Supremum,
    /// `0 < p < 1`: the closed form applies.
    Interior,
}

/// A probability outside `[0, 1]`, or a NaN.
#[derive(Clone, Copy, Debug, PartialEq, Eq, Structural)]
pub enum ProbabilityError {
    OutOfRange,
}

/// Whether `p` encodes a probability: a value in `[0, 1]`.
pub open spec fn is_probability(p: u64) -> bool {
    less_eq_spec(ZERO, p) && less_eq_spec(p, ONE)
}

/// The region of `p`, for a probability.
pub open spec fn region_spec(p: u64) -> Region {
    if less_eq_spec(p, ZERO) {
        Region::Infimum
    } else if less_eq_spec(ONE, p) {
        Region::Supremum
    } else {
        Region::Interior
    }
}

/// Checks that `p` is a probability and tells where it falls.
pub fn region(p: u64) -> (r: Result<Region, ProbabilityError>)
    ensures
        r is Err <==> !is_probability(p),
        is_probability(p) ==> r == Ok::<Region, ProbabilityError>(region_spec(p)),
        r == Ok::<Region, ProbabilityError>(Region::Interior) <==> less_spec(ZERO, p) && less_spec(p, ONE),
{
    if !(less_eq(ZERO, p) && less_eq(p, ONE)) {
        Err(ProbabilityError::OutOfRange)
    } else if less_eq(p, ZERO) {
        Ok(Region::Infimum)
    } else if less_eq(ONE, p) {
        Ok(Region::Supremum)
    } else {
        Ok(Region::Interior)
    }
}

} // verus!
