//! Concrete time-invariant linear models.
//!
//! The filter drivers accept any implementation of the model traits; these
//! two hold fixed matrices and are the models an application with
//! time-invariant dynamics uses directly.
use vstd::prelude::*;

verus! {

use crate::matrix::{Matrix, m_transpose};
use crate::{ObservationModel, TransitionModelLinearNoControl};

/// A time-invariant linear transition model: `F`, its transpose and `Q`.
#[derive(Debug)]
pub struct LinearTransitionModel {
    pub f: Matrix,
    pub ft: Matrix,
    pub q: Matrix,
}

impl LinearTransitionModel {
    /// Build the model from the dynamics matrix `F` and the process noise
    /// covariance `Q`; the transpose is computed here once.
    pub fn new(f: Matrix, q: Matrix) -> (r: LinearTransitionModel)
        requires
            f.wf(),
            q.wf(),
            f.rows == f.cols,
            q.rows == f.rows,
            q.cols == f.rows,
        ensures
            r.t_wf(),
            r.state_dim_spec() == f.rows as int,
            r.f_spec() == f@,
            r.q_spec() == q@,
    {
        let ft = f.transpose();
        LinearTransitionModel { f, ft, q }
    }
}

impl TransitionModelLinearNoControl for LinearTransitionModel {
    open spec fn state_dim_spec(&self) -> int {
        self.f.rows as int
    }

    open spec fn f_spec(&self) -> Seq<Seq<(int, int)>> {
        self.f@
    }

    open spec fn q_spec(&self) -> Seq<Seq<(int, int)>> {
        self.q@
    }

    open spec fn t_wf(&self) -> bool {
        &&& self.f.wf()
        &&& self.ft.wf()
        &&& self.q.wf()
        &&& self.f.rows == self.f.cols
        &&& self.ft.rows == self.f.rows
        &&& self.ft.cols == self.f.rows
        &&& self.q.rows == self.f.rows
        &&& self.q.cols == self.f.rows
        &&& self.ft@ == m_transpose(self.f@, self.f.rows as int, self.f.rows as int)
    }

    fn state_dim(&self) -> usize {
        self.f.rows
    }

    fn F(&self) -> &Matrix {
        &self.f
    }

    fn FT(&self) -> &Matrix {
        &self.ft
    }

    fn Q(&self) -> &Matrix {
        &self.q
    }
}

/// A time-invariant linear observation model: `H`, its transpose and `R`.
#[derive(Debug)]
pub struct LinearObservationModel {
    pub h: Matrix,
    pub ht: Matrix,
    pub r: Matrix,
}

impl LinearObservationModel {
    /// Build the model from the observation matrix `H` and the observation
    /// noise covariance `R`; the transpose is computed here once.
    pub fn new(h: Matrix, r: Matrix) -> (res: LinearObservationModel)
        requires
            h.wf(),
            r.wf(),
            r.rows == h.rows,
            r.cols == h.rows,
        ensures
            res.o_wf(),
            res.state_dim_spec() == h.cols as int,
            res.obs_dim_spec() == h.rows as int,
            res.h_spec() == h@,
            res.r_spec() == r@,
    {
        let ht = h.transpose();
        LinearObservationModel { h, ht, r }
    }
}

impl ObservationModel for LinearObservationModel {
    open spec fn state_dim_spec(&self) -> int {
        self.h.cols as int
    }

    open spec fn obs_dim_spec(&self) -> int {
        self.h.rows as int
    }

    open spec fn h_spec(&self) -> Seq<Seq<(int, int)>> {
        self.h@
    }

    open spec fn r_spec(&self) -> Seq<Seq<(int, int)>> {
        self.r@
    }

    open spec fn o_wf(&self) -> bool {
        &&& self.h.wf()
        &&& self.ht.wf()
        &&& self.r.wf()
        &&& self.ht.rows == self.h.cols
        &&& self.ht.cols == self.h.rows
        &&& self.r.rows == self.h.rows
        &&& self.r.cols == self.h.rows
        &&& self.ht@ == m_transpose(self.h@, self.h.rows as int, self.h.cols as int)
    }

    fn H(&self) -> &Matrix {
        &self.h
    }

    fn HT(&self) -> &Matrix {
        &self.ht
    }

    fn R(&self) -> &Matrix {
        &self.r
    }

    fn state_dim(&self) -> usize {
        self.h.cols
    }

    fn obs_dim(&self) -> usize {
        self.h.rows
    }
}

} // verus!
