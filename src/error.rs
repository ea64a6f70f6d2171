use vstd::prelude::*;

verus! {

/// The ways a call into the engine can be refused.
#[derive(Debug, Clone, Copy, PartialEq, Eq, Structural)]
pub enum LinalgError {
    /// The model's declared dimension is zero.
    InvalidDimension,
    /// An array's length disagrees with the declared or implied dimension.
    ShapeMismatch,
    /// A number that must be finite is NaN or infinite.
    NonFiniteInput,
    /// The rank-one update's denominator is non-finite or too close to zero.
    NumericalInstability,
    /// A vector that must be non-empty has no entries.
    EmptyInput,
}

} // verus!
