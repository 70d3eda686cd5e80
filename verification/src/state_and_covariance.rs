//! State and covariance pair for a given estimate.
use vstd::prelude::*;

verus! {

use crate::matrix::Matrix;

/// One Gaussian belief over the state: a mean vector (stored as a one-column
/// matrix) together with its covariance matrix.
///
/// It is assumed that the covariance matrix is symmetric and positive
/// semi-definite; this is not checked here. The numeric safeguards of the
/// update and smoothing steps report the cases where that assumption has
/// (numerically) broken down.
#[derive(Debug)]
pub struct StateAndCovariance {
    pub state: Matrix,
    pub covariance: Matrix,
}

impl StateAndCovariance {
    /// Well formed: a one-column state vector of dimension `n` and an
    /// `n` by `n` covariance, all entries well-formed rationals.
    pub open spec fn wf(&self) -> bool {
        &&& self.state.wf()
        &&& self.covariance.wf()
        &&& self.state.cols == 1
        &&& self.covariance.rows == self.state.rows
        &&& self.covariance.cols == self.state.rows
    }

    /// The state dimension.
    pub open spec fn dim(&self) -> int {
        self.state.rows as int
    }

    /// Create a new `StateAndCovariance`.
    pub fn new(state: Matrix, covariance: Matrix) -> (r: StateAndCovariance)
        requires
            state.wf(),
            covariance.wf(),
            state.cols == 1,
            covariance.rows == state.rows,
            covariance.cols == state.rows,
        ensures
            r.wf(),
            r.state == state,
            r.covariance == covariance,
    {
        StateAndCovariance { state, covariance }
    }

    /// Get a reference to the state vector.
    pub fn state(&self) -> (r: &Matrix)
        ensures
            r == &self.state,
    {
        &self.state
    }

    /// Get a reference to the covariance matrix.
    pub fn covariance(&self) -> (r: &Matrix)
        ensures
            r == &self.covariance,
    {
        &self.covariance
    }

    /// Get a mutable reference to the state vector.
    pub fn state_mut(&mut self) -> (r: &mut Matrix)
        ensures
            *r == old(self).state,
            final(self).state == *final(r),
            final(self).covariance == old(self).covariance,
    {
        &mut self.state
    }

    /// Get a mutable reference to the covariance matrix.
    pub fn covariance_mut(&mut self) -> (r: &mut Matrix)
        ensures
            *r == old(self).covariance,
            final(self).covariance == *final(r),
            final(self).state == old(self).state,
    {
        &mut self.covariance
    }

    /// Get the state vector and covariance matrix.
    pub fn inner(self) -> (r: (Matrix, Matrix))
        ensures
            r.0 == self.state,
            r.1 == self.covariance,
    {
        (self.state, self.covariance)
    }

    /// An identical copy.
    pub fn duplicate(&self) -> (r: StateAndCovariance)
        requires
            self.wf(),
        ensures
            r.wf(),
            r.state.rows == self.state.rows,
            r.state@ == self.state@,
            r.covariance@ == self.covariance@,
    {
        StateAndCovariance {
            state: self.state.duplicate(),
            covariance: self.covariance.duplicate(),
        }
    }
}

} // verus!
