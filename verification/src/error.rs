//! The error taxonomy of the filter core.
use vstd::prelude::*;

verus! {

/// Failure of a filtering or smoothing operation.
///
/// The only modelling error is a positivity check that fails: an innovation
/// covariance (measurement update) or a predicted state covariance (smoother
/// step) was not positive-definite. Because the arithmetic here is exact but
/// fixed-width, an operation can also run out of representable range; that is
/// reported separately and never silently recovered.
#[derive(Clone, Copy, Debug, PartialEq, Eq, Structural)]
pub enum Error {
    /// A covariance matrix that must be (numerically) positive-definite was
    /// not: either the state covariance lost positive-semi-definiteness or an
    /// observation noise covariance was not positive-definite.
    CovarianceNotPositiveSemiDefinite,
    /// A numeric guard failed rather than a modelling assumption: the exact
    /// rational arithmetic left the fixed 128-bit integer range, an internal
    /// exactness check on a computed inverse could not be confirmed, or a
    /// computed Joseph-form covariance turned out asymmetric (possible only
    /// when a covariance the caller promised symmetric was not).
    ArithmeticLimit,
}

} // verus!
