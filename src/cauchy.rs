//! The Cauchy distribution.
//!
//! A Cauchy (or Lorentz) distribution has a location `x_0` and a scale
//! `gamma > 0`, and the density `gamma / (pi * (gamma^2 + (x - x_0)^2))`.
//! It is long tailed, has no mean or variance, and is symmetric and
//! unimodal about `x_0`. Its support is the whole real line.
//!
//! Parameters are IEEE-754 values held as bit patterns (see `float`).
use vstd::prelude::*;
use crate::float::{less, less_eq_spec, less_spec, INFINITY, NEG_INFINITY, ONE, ZERO};
use crate::quantile::{is_probability, region, ProbabilityError, Region};

verus! {

/// A parameter that the distribution's formulas cannot take.
#[derive(Clone, Copy, Debug, PartialEq, Eq, Structural)]
pub enum ParameterError {
    /// The scale is zero, negative or NaN.
    NonPositiveScale,
}

/// A Cauchy distribution with location `x_0` and scale `gamma`.
#[derive(Clone, Copy, Debug)]
pub struct Cauchy {
    x_0: u64,
    gamma: u64,
}

impl Cauchy {
    /// The scale is positive for as long as the value lives.
    #[verifier::type_invariant]
    spec fn scale_is_positive(self) -> bool {
        less_spec(ZERO, self.gamma)
    }

    /// The location parameter.
    pub closed spec fn location(self) -> u64 {
        self.x_0
    }

    /// The scale parameter.
    pub closed spec fn scale(self) -> u64 {
        self.gamma
    }

    /// Creates the distribution with location `x_0` and scale `gamma`;
    /// fails unless `gamma > 0`.
    pub fn new(x_0: u64, gamma: u64) -> (r: Result<Cauchy, ParameterError>)
        ensures
            r is Err <==> !less_spec(ZERO, gamma),
            r matches Ok(d) ==> d.location() == x_0 && d.scale() == gamma,
            r matches Err(e) ==> e == ParameterError::NonPositiveScale,
    {
        if less(ZERO, gamma) {
            Ok(Cauchy { x_0, gamma })
        } else {
            Err(ParameterError::NonPositiveScale)
        }
    }

    /// Returns the location parameter.
    pub fn x_0(&self) -> (r: u64)
        ensures
            r == self.location(),
    {
        self.x_0
    }

    /// Returns the scale parameter, which is positive.
    pub fn gamma(&self) -> (r: u64)
        ensures
            r == self.scale(),
            less_spec(ZERO, r),
    {
        proof {
            use_type_invariant(self);
        }
        self.gamma
    }

    /// The median: the location, by symmetry.
    pub fn median(&self) -> (r: u64)
        ensures
            r == self.location(),
    {
        self.x_0
    }

    /// The modes: the location alone, the distribution being unimodal.
    pub fn modes(&self) -> (r: Vec<u64>)
        ensures
            r@ == seq![self.location()],
    {
        vec![self.x_0]
    }

    /// The quantile at a boundary of `[0, 1]`.
    ///
    /// Fails unless `p` is a probability. At `p = 0` gives negative infinity
    /// and at `p = 1` positive infinity, the bounds of the support. Gives
    /// `None` for `0 < p < 1`, where the quantile is
    /// `x_0 + gamma * tan(pi * (p - 1/2))`.
    pub fn inverse_bound(&self, p: u64) -> (r: Result<Option<u64>, ProbabilityError>)
        ensures
            r is Err <==> !is_probability(p),
            r == Ok::<Option<u64>, ProbabilityError>(Some(NEG_INFINITY))
                <==> is_probability(p) && less_eq_spec(p, ZERO),
            r == Ok::<Option<u64>, ProbabilityError>(Some(INFINITY))
                <==> is_probability(p) && less_eq_spec(ONE, p),
            r == Ok::<Option<u64>, ProbabilityError>(None)
                <==> less_spec(ZERO, p) && less_spec(p, ONE),
    {
        match region(p) {
            Err(e) => Err(e),
            Ok(Region::Infimum) => Ok(Some(NEG_INFINITY)),
            Ok(Region::Supremum) => Ok(Some(INFINITY)),
            Ok(Region::Interior) => Ok(None),
        }
    }
}

} // verus!
