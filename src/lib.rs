//! Probability distributions: the parameter checks and the edge-case policy
//! of their capabilities, over IEEE-754 values held as bit patterns.
pub mod float;
pub mod quantile;
pub mod cauchy;

pub use cauchy::{Cauchy, ParameterError};
