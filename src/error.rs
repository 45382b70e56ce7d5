use vstd::prelude::*;

verus! {

/// The ways in which building or running a filter can fail.
#[derive(Clone, Copy, Debug, PartialEq, Eq, Structural)]
pub enum FilterError {
    /// The matrices or vectors handed to a Kalman filter have inconsistent shapes.
    DimensionMismatch,
    /// A scalar setting is out of range (a zero window size, a smoothing factor outside (0, 1)).
    InvalidArgument,
    /// The innovation covariance could not be inverted while computing the Kalman gain.
    SingularMatrix,
}

} // verus!
