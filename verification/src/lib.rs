//! Discrete-time linear Kalman filter and Rauch-Tung-Striebel smoother over
//! exact rational arithmetic.
//!
//! The state estimate is a Gaussian belief: a mean vector paired with a
//! covariance matrix ([`StateAndCovariance`]). A transition model predicts
//! the next belief, an observation model corrects it against a measurement
//! with a selectable covariance-update formula ([`CovarianceUpdateMethod`]),
//! and a backward pass smooths a completed forward pass. All linear algebra
//! is carried out over exact rationals in canonical form, so every contract
//! states the result of a step as an exact equality against the textbook
//! formula.
//!
//! An observation is a vector of optional components: a component that the
//! sensor could not deliver (for instance a not-a-number reading) is
//! `None`, and an observation with any missing component is treated as
//! entirely missing — the update step is skipped for that time index.
use vstd::prelude::*;

pub mod error;
pub mod linalg;
pub mod matrix;
pub mod models;
pub mod rational;
pub mod state_and_covariance;

pub use error::Error;
pub use matrix::Matrix;
pub use models::{LinearObservationModel, LinearTransitionModel};
pub use rational::Rat;
pub use state_and_covariance::StateAndCovariance;

verus! {

use crate::linalg::{inverse_pair, spd, spd_fits};
use crate::matrix::{m_add, m_id, m_mul, m_scale, m_sub, m_sym, m_transpose};
use crate::matrix::{m_add_fits, m_mul_fits};

/// The predicted mean: `F x`.
pub open spec fn predict_mean(
    f: Seq<Seq<(int, int)>>,
    x0: Seq<Seq<(int, int)>>,
) -> Seq<Seq<(int, int)>> {
    m_mul(f, x0)
}

/// The predicted covariance: `F P Ft + Q`.
pub open spec fn predict_cov(
    f: Seq<Seq<(int, int)>>,
    q: Seq<Seq<(int, int)>>,
    n: int,
    p0: Seq<Seq<(int, int)>>,
) -> Seq<Seq<(int, int)>> {
    m_add(m_mul(m_mul(f, p0), m_transpose(f, n, n)), q)
}

/// When the prediction step stays inside the 128-bit range: each of its
/// four matrix operations, in evaluation order, stays representable.
pub open spec fn predict_fits(
    f: Seq<Seq<(int, int)>>,
    q: Seq<Seq<(int, int)>>,
    n: int,
    x0: Seq<Seq<(int, int)>>,
    p0: Seq<Seq<(int, int)>>,
) -> bool {
    &&& m_mul_fits(f, x0)
    &&& m_mul_fits(f, p0)
    &&& m_mul_fits(m_mul(f, p0), m_transpose(f, n, n))
    &&& m_add_fits(m_mul(m_mul(f, p0), m_transpose(f, n, n)), q)
}

/// The prediction step: `(x1, p1)` is exactly the belief predicted from
/// `(x0, p0)` under dynamics `f` and process noise `q`.
pub open spec fn predict_rel(
    f: Seq<Seq<(int, int)>>,
    q: Seq<Seq<(int, int)>>,
    n: int,
    x0: Seq<Seq<(int, int)>>,
    p0: Seq<Seq<(int, int)>>,
    x1: Seq<Seq<(int, int)>>,
    p1: Seq<Seq<(int, int)>>,
) -> bool {
    x1 == predict_mean(f, x0) && p1 == predict_cov(f, q, n, p0)
}

/// The innovation covariance of the measurement update: `H P Ht + R`.
pub open spec fn innovation_cov(
    h: Seq<Seq<(int, int)>>,
    r_mat: Seq<Seq<(int, int)>>,
    n: int,
    m: int,
    p0: Seq<Seq<(int, int)>>,
) -> Seq<Seq<(int, int)>> {
    m_add(m_mul(m_mul(h, p0), m_transpose(h, m, n)), r_mat)
}

/// When computing the innovation covariance stays inside the 128-bit
/// range: its three matrix operations, in evaluation order.
pub open spec fn innovation_fits(
    h: Seq<Seq<(int, int)>>,
    r_mat: Seq<Seq<(int, int)>>,
    n: int,
    m: int,
    p0: Seq<Seq<(int, int)>>,
) -> bool {
    &&& m_mul_fits(h, p0)
    &&& m_mul_fits(m_mul(h, p0), m_transpose(h, m, n))
    &&& m_add_fits(m_mul(m_mul(h, p0), m_transpose(h, m, n)), r_mat)
}

/// The measurement update: from the prior belief `(x0, p0)` and the
/// observation column `y`, the posterior `(x1, p1)` is exactly the belief
/// given by the Kalman formulas with gain `K = P Ht S^-1`, where `S^-1` is
/// the (unique) exact inverse of the innovation covariance, and the
/// covariance formula selected by `method`.
#[verifier::opaque]
pub open spec fn update_rel(
    h: Seq<Seq<(int, int)>>,
    r_mat: Seq<Seq<(int, int)>>,
    n: int,
    m: int,
    x0: Seq<Seq<(int, int)>>,
    p0: Seq<Seq<(int, int)>>,
    y: Seq<Seq<(int, int)>>,
    method: CovarianceUpdateMethod,
    x1: Seq<Seq<(int, int)>>,
    p1: Seq<Seq<(int, int)>>,
) -> bool {
    let s = innovation_cov(h, r_mat, n, m, p0);
    exists|si: Seq<Seq<(int, int)>>|
        #[trigger] inverse_pair(s, si, m) && {
            let k = m_mul(m_mul(p0, m_transpose(h, m, n)), si);
            let innovation = m_sub(y, m_mul(h, x0));
            let t = m_sub(m_id(n), m_mul(k, h));
            &&& x1 == m_add(x0, m_mul(k, innovation))
            &&& match method {
                CovarianceUpdateMethod::JosephForm => p1 == m_add(
                    m_mul(m_mul(t, p0), m_transpose(t, n, n)),
                    m_mul(m_mul(k, r_mat), m_transpose(k, n, m)),
                ),
                CovarianceUpdateMethod::OptimalKalman => p1 == m_mul(t, p0),
                CovarianceUpdateMethod::OptimalKalmanForcedSymmetric => p1 == m_scale(
                    m_add(m_mul(t, p0), m_transpose(m_mul(t, p0), n, n)),
                    (1int, 2int),
                ),
            }
        }
}

/// Whether an observation is missing: any component absent makes the whole
/// observation absent for that step (no partial observations).
pub open spec fn obs_missing(s: Seq<Option<Rat>>) -> bool {
    exists|i: int| 0 <= i < s.len() && s[i] is None
}

/// Well-formedness of an observation's present components.
pub open spec fn obs_wf(s: Seq<Option<Rat>>) -> bool {
    forall|i: int| 0 <= i < s.len() ==> ((#[trigger] s[i]) matches Some(v) ==> v.wf())
}

/// The observation as a one-column matrix view (absent components read as
/// zero; they only ever matter when no component is absent).
pub open spec fn obs_col(s: Seq<Option<Rat>>) -> Seq<Seq<(int, int)>> {
    Seq::new(
        s.len(),
        |i: int| Seq::new(
            1nat,
            |j: int| match s[i] {
                Some(v) => v@,
                None => (0int, 1int),
            },
        ),
    )
}

/// Whether any component of the observation is missing.
pub fn observation_is_missing(observation: &Vec<Option<Rat>>) -> (r: bool)
    ensures
        r == obs_missing(observation@),
{
    let mut i: usize = 0;
    while i < observation.len()
        invariant
            i <= observation@.len(),
            forall|ii: int| 0 <= ii < i ==> !((#[trigger] observation@[ii]) is None),
        decreases observation@.len() - i,
    {
        if observation[i].is_none() {
            return true;
        }
        i = i + 1;
    }
    false
}

/// The observation as a one-column matrix; callers have checked that no
/// component is missing.
fn observation_values(observation: &Vec<Option<Rat>>) -> (r: Matrix)
    requires
        obs_wf(observation@),
    ensures
        r.wf(),
        r.rows == observation@.len(),
        r.cols == 1,
        r@ == obs_col(observation@),
{
    let mut data: Vec<Vec<Rat>> = Vec::new();
    let mut i: usize = 0;
    while i < observation.len()
        invariant
            obs_wf(observation@),
            i <= observation@.len(),
            data@.len() == i,
            forall|ii: int| 0 <= ii < i ==> (#[trigger] data@[ii])@.len() == 1,
            forall|ii: int|
                0 <= ii < i ==> (#[trigger] data@[ii])@[0].wf() && data@[ii]@[0]@ == (
                match observation@[ii] {
                    Some(v) => v@,
                    None => (0int, 1int),
                }),
        decreases observation@.len() - i,
    {
        let mut row: Vec<Rat> = Vec::new();
        let e: Rat = match &observation[i] {
            Some(v) => *v,
            None => Rat::zero(),
        };
        row.push(e);
        data.push(row);
        i = i + 1;
    }
    let r = Matrix { rows: observation.len(), cols: 1, data };
    proof {
        assert(r@ =~~= obs_col(observation@));
    }
    r
}

/// A linear model of process dynamics with no control inputs.
#[allow(non_snake_case)]
pub trait TransitionModelLinearNoControl: Sized {
    /// The state dimension.
    spec fn state_dim_spec(&self) -> int;

    /// The dynamics matrix as a view.
    spec fn f_spec(&self) -> Seq<Seq<(int, int)>>;

    /// The process noise covariance as a view.
    spec fn q_spec(&self) -> Seq<Seq<(int, int)>>;

    /// The model hands out well-formed matrices of the documented shapes.
    spec fn t_wf(&self) -> bool;

    /// The state dimension.
    fn state_dim(&self) -> (n: usize)
        requires
            self.t_wf(),
        ensures
            n as int == self.state_dim_spec(),
    ;

    /// Get the state transition model, `F`.
    fn F(&self) -> (m: &Matrix)
        requires
            self.t_wf(),
        ensures
            m.wf(),
            m.rows as int == self.state_dim_spec(),
            m.cols as int == self.state_dim_spec(),
            m@ == self.f_spec(),
    ;

    /// Get the transpose of the state transition model, `FT`.
    fn FT(&self) -> (m: &Matrix)
        requires
            self.t_wf(),
        ensures
            m.wf(),
            m.rows as int == self.state_dim_spec(),
            m.cols as int == self.state_dim_spec(),
            m@ == m_transpose(self.f_spec(), self.state_dim_spec(), self.state_dim_spec()),
    ;

    /// Get the process covariance, `Q`.
    fn Q(&self) -> (m: &Matrix)
        requires
            self.t_wf(),
        ensures
            m.wf(),
            m.rows as int == self.state_dim_spec(),
            m.cols as int == self.state_dim_spec(),
            m@ == self.q_spec(),
    ;

    /// Predict new state from previous estimate: the time update
    /// `x1 = F x0`, `P1 = F P0 Ft + Q`.
    fn predict(&self, previous_estimate: &StateAndCovariance) -> (r: Result<
        StateAndCovariance,
        Error,
    >)
        requires
            self.t_wf(),
            self.state_dim_spec() >= 1,
            previous_estimate.wf(),
            previous_estimate.dim() == self.state_dim_spec(),
        ensures
            r matches Ok(v) ==> v.wf() && v.dim() == self.state_dim_spec() && predict_rel(
                self.f_spec(),
                self.q_spec(),
                self.state_dim_spec(),
                previous_estimate.state@,
                previous_estimate.covariance@,
                v.state@,
                v.covariance@,
            ),
            r matches Err(e) ==> e == Error::ArithmeticLimit,
            r is Ok <==> predict_fits(
                self.f_spec(),
                self.q_spec(),
                self.state_dim_spec(),
                previous_estimate.state@,
                previous_estimate.covariance@,
            ),
    {
        let f = self.F();
        let state: Matrix = match f.mul_mat(&previous_estimate.state) {
            Ok(v) => v,
            Err(e) => {
                return Err(e);
            },
        };
        let fp: Matrix = match f.mul_mat(&previous_estimate.covariance) {
            Ok(v) => v,
            Err(e) => {
                return Err(e);
            },
        };
        let fpft: Matrix = match fp.mul_mat(self.FT()) {
            Ok(v) => v,
            Err(e) => {
                return Err(e);
            },
        };
        let covariance: Matrix = match fpft.add_mat(self.Q()) {
            Ok(v) => v,
            Err(e) => {
                return Err(e);
            },
        };
        Ok(StateAndCovariance { state, covariance })
    }
}

/// Specifies the approach used for updating the covariance matrix.
#[derive(Clone, Copy, Debug, PartialEq, Eq, Structural)]
pub enum CovarianceUpdateMethod {
    /// Assumes optimal Kalman gain: `P1 = (I - K H) P0`.
    OptimalKalman,
    /// Assumes optimal Kalman gain and then forces a symmetric covariance
    /// matrix by replacing it with `(P1 + P1t) / 2`.
    OptimalKalmanForcedSymmetric,
    /// Joseph form of covariance update,
    /// `P1 = (I - K H) P0 (I - K H)t + K R Kt`, keeps the covariance matrix
    /// symmetric.
    JosephForm,
}

/// An observation model: the observation matrix `H`, its transpose, and the
/// observation noise covariance `R`, together with the measurement update.
///
/// The predicted observation is linear, `y = H x`; a non-linear sensor must
/// be linearized around the current state estimate, each time step anew,
/// before it is presented here.
#[allow(non_snake_case)]
pub trait ObservationModel: Sized {
    /// The state dimension.
    spec fn state_dim_spec(&self) -> int;

    /// The observation dimension.
    spec fn obs_dim_spec(&self) -> int;

    /// The observation matrix as a view.
    spec fn h_spec(&self) -> Seq<Seq<(int, int)>>;

    /// The observation noise covariance as a view.
    spec fn r_spec(&self) -> Seq<Seq<(int, int)>>;

    /// The model hands out well-formed matrices of the documented shapes.
    spec fn o_wf(&self) -> bool;

    /// Get the observation matrix, `H`.
    fn H(&self) -> (m: &Matrix)
        requires
            self.o_wf(),
        ensures
            m.wf(),
            m.rows as int == self.obs_dim_spec(),
            m.cols as int == self.state_dim_spec(),
            m@ == self.h_spec(),
    ;

    /// Get the transpose of the observation matrix, `HT`.
    fn HT(&self) -> (m: &Matrix)
        requires
            self.o_wf(),
        ensures
            m.wf(),
            m.rows as int == self.state_dim_spec(),
            m.cols as int == self.obs_dim_spec(),
            m@ == m_transpose(self.h_spec(), self.obs_dim_spec(), self.state_dim_spec()),
    ;

    /// Get the observation noise covariance, `R`.
    fn R(&self) -> (m: &Matrix)
        requires
            self.o_wf(),
        ensures
            m.wf(),
            m.rows as int == self.obs_dim_spec(),
            m.cols as int == self.obs_dim_spec(),
            m@ == self.r_spec(),
    ;

    /// The state dimension.
    fn state_dim(&self) -> (n: usize)
        requires
            self.o_wf(),
        ensures
            n as int == self.state_dim_spec(),
    ;

    /// The observation dimension.
    fn obs_dim(&self) -> (n: usize)
        requires
            self.o_wf(),
        ensures
            n as int == self.obs_dim_spec(),
    ;

    /// For a given state, predict the observation: `y = H x` for this linear
    /// model.
    fn predict_observation(&self, state: &Matrix) -> (r: Result<Matrix, Error>)
        requires
            self.o_wf(),
            self.state_dim_spec() >= 1,
            state.wf(),
            state.rows as int == self.state_dim_spec(),
            state.cols == 1,
        ensures
            r matches Ok(v) ==> v.wf() && v.rows as int == self.obs_dim_spec() && v.cols == 1
                && v@ == m_mul(self.h_spec(), state@),
            r matches Err(e) ==> e == Error::ArithmeticLimit,
            r is Ok <==> m_mul_fits(self.h_spec(), state@),
    {
        self.H().mul_mat(state)
    }

    /// Given prior state and observation, estimate the posterior state.
    ///
    /// This is the *update* step in the Kalman filter literature: with
    /// innovation covariance `S = H P0 Ht + R`, gain `K = P0 Ht S^-1`, and
    /// innovation `y - H x0`, the posterior mean is `x0 + K (y - H x0)` and
    /// the posterior covariance is given by the selected formula. It fails
    /// with [`Error::CovarianceNotPositiveSemiDefinite`] when `S` is not
    /// positive-definite: that signals that either `P0` lost
    /// positive-semi-definiteness or `R` was not positive-definite as
    /// required.
    fn update(
        &self,
        prior: &StateAndCovariance,
        observation: &Matrix,
        covariance_method: CovarianceUpdateMethod,
    ) -> (r: Result<StateAndCovariance, Error>)
        requires
            self.o_wf(),
            self.state_dim_spec() >= 1,
            self.obs_dim_spec() >= 1,
            prior.wf(),
            prior.dim() == self.state_dim_spec(),
            observation.wf(),
            observation.rows as int == self.obs_dim_spec(),
            observation.cols == 1,
        ensures
            r matches Ok(post) ==> post.wf() && post.dim() == self.state_dim_spec()
                && update_rel(
                self.h_spec(),
                self.r_spec(),
                self.state_dim_spec(),
                self.obs_dim_spec(),
                prior.state@,
                prior.covariance@,
                observation@,
                covariance_method,
                post.state@,
                post.covariance@,
            ),
            r matches Ok(post) ==> (covariance_method == CovarianceUpdateMethod::JosephForm
                ==> m_sym(post.covariance@, self.state_dim_spec())),
            r matches Ok(post) ==> (covariance_method
                == CovarianceUpdateMethod::OptimalKalmanForcedSymmetric ==> m_sym(
                post.covariance@,
                self.state_dim_spec(),
            )),
            r matches Ok(post) ==> spd(
                innovation_cov(
                    self.h_spec(),
                    self.r_spec(),
                    self.state_dim_spec(),
                    self.obs_dim_spec(),
                    prior.covariance@,
                ),
            ),
            (r matches Err(e) && e == Error::CovarianceNotPositiveSemiDefinite) ==> !spd(
                innovation_cov(
                    self.h_spec(),
                    self.r_spec(),
                    self.state_dim_spec(),
                    self.obs_dim_spec(),
                    prior.covariance@,
                ),
            ),
            innovation_fits(
                self.h_spec(),
                self.r_spec(),
                self.state_dim_spec(),
                self.obs_dim_spec(),
                prior.covariance@,
            ) && !spd(
                innovation_cov(
                    self.h_spec(),
                    self.r_spec(),
                    self.state_dim_spec(),
                    self.obs_dim_spec(),
                    prior.covariance@,
                ),
            ) && spd_fits(
                innovation_cov(
                    self.h_spec(),
                    self.r_spec(),
                    self.state_dim_spec(),
                    self.obs_dim_spec(),
                    prior.covariance@,
                ),
            ) ==> r == Err::<StateAndCovariance, Error>(
                Error::CovarianceNotPositiveSemiDefinite,
            ),
    {
        let h = self.H();
        let p = prior.covariance();
        let ht = self.HT();
        let rm = self.R();
        // innovation covariance S = H P Ht + R
        let hp: Matrix = match h.mul_mat(p) {
            Ok(v) => v,
            Err(e) => {
                return Err(e);
            },
        };
        let hpht: Matrix = match hp.mul_mat(ht) {
            Ok(v) => v,
            Err(e) => {
                return Err(e);
            },
        };
        let s: Matrix = match hpht.add_mat(rm) {
            Ok(v) => v,
            Err(e) => {
                return Err(e);
            },
        };
        // Kalman gain K = P Ht S^-1, via the certified exact inverse
        let s_inv: Matrix = match s.invert_spd() {
            Ok(v) => v,
            Err(e) => {
                return Err(e);
            },
        };
        let pht: Matrix = match p.mul_mat(ht) {
            Ok(v) => v,
            Err(e) => {
                return Err(e);
            },
        };
        let k_gain: Matrix = match pht.mul_mat(&s_inv) {
            Ok(v) => v,
            Err(e) => {
                return Err(e);
            },
        };
        // posterior mean x1 = x0 + K (y - H x0)
        let predicted: Matrix = match self.predict_observation(prior.state()) {
            Ok(v) => v,
            Err(e) => {
                return Err(e);
            },
        };
        let innovation: Matrix = match observation.sub_mat(&predicted) {
            Ok(v) => v,
            Err(e) => {
                return Err(e);
            },
        };
        let kv: Matrix = match k_gain.mul_mat(&innovation) {
            Ok(v) => v,
            Err(e) => {
                return Err(e);
            },
        };
        let state: Matrix = match prior.state().add_mat(&kv) {
            Ok(v) => v,
            Err(e) => {
                return Err(e);
            },
        };
        // posterior covariance, by the selected formula over T = I - K H
        let kh: Matrix = match k_gain.mul_mat(h) {
            Ok(v) => v,
            Err(e) => {
                return Err(e);
            },
        };
        let ident: Matrix = Matrix::identity(self.state_dim());
        let one_minus_kh: Matrix = match ident.sub_mat(&kh) {
            Ok(v) => v,
            Err(e) => {
                return Err(e);
            },
        };
        let covariance: Matrix = match covariance_method {
            CovarianceUpdateMethod::JosephForm => {
                let tp: Matrix = match one_minus_kh.mul_mat(p) {
                    Ok(v) => v,
                    Err(e) => {
                        return Err(e);
                    },
                };
                let tt: Matrix = one_minus_kh.transpose();
                let left: Matrix = match tp.mul_mat(&tt) {
                    Ok(v) => v,
                    Err(e) => {
                        return Err(e);
                    },
                };
                let kr: Matrix = match k_gain.mul_mat(rm) {
                    Ok(v) => v,
                    Err(e) => {
                        return Err(e);
                    },
                };
                let kt: Matrix = k_gain.transpose();
                let right: Matrix = match kr.mul_mat(&kt) {
                    Ok(v) => v,
                    Err(e) => {
                        return Err(e);
                    },
                };
                let c: Matrix = match left.add_mat(&right) {
                    Ok(v) => v,
                    Err(e) => {
                        return Err(e);
                    },
                };
                // The Joseph form preserves symmetry whenever the prior
                // covariance and the noise matrix are themselves symmetric,
                // which the caller guarantees but nothing here enforces.
                // Checking the result outright makes symmetry part of the
                // contract; with a well-formed model the check cannot fail,
                // and a failure (only possible when that caller guarantee
                // was broken) is reported as a numeric failure rather than
                // returning an asymmetric covariance.
                if !c.symmetric() {
                    return Err(Error::ArithmeticLimit);
                }
                c
            },
            CovarianceUpdateMethod::OptimalKalman => {
                match one_minus_kh.mul_mat(p) {
                    Ok(v) => v,
                    Err(e) => {
                        return Err(e);
                    },
                }
            },
            CovarianceUpdateMethod::OptimalKalmanForcedSymmetric => {
                let c1: Matrix = match one_minus_kh.mul_mat(p) {
                    Ok(v) => v,
                    Err(e) => {
                        return Err(e);
                    },
                };
                let c1t: Matrix = c1.transpose();
                let sum: Matrix = match c1.add_mat(&c1t) {
                    Ok(v) => v,
                    Err(e) => {
                        return Err(e);
                    },
                };
                let half: Rat = Rat::new(1, 2);
                proof {
                    crate::rational::lemma_half_canonical();
                }
                match sum.scale(&half) {
                    Ok(v) => v,
                    Err(e) => {
                        return Err(e);
                    },
                }
            },
        };
        proof {
            reveal(update_rel);
            let n = self.state_dim_spec();
            let m = self.obs_dim_spec();
            let s_spec = innovation_cov(self.h_spec(), self.r_spec(), n, m, prior.covariance@);
            assert(s@ == s_spec);
            assert(inverse_pair(s_spec, s_inv@, m));
            if covariance_method == CovarianceUpdateMethod::OptimalKalmanForcedSymmetric {
                crate::matrix::lemma_forced_symmetric(m_mul(one_minus_kh@, prior.covariance@), n);
            }
        }
        Ok(StateAndCovariance { state, covariance })
    }
}

/// One filter step: predict, then — unless the observation is missing —
/// update with the selected covariance formula. A missing observation
/// leaves the predicted belief untouched.
pub open spec fn step_rel(
    f: Seq<Seq<(int, int)>>,
    q: Seq<Seq<(int, int)>>,
    h: Seq<Seq<(int, int)>>,
    rm: Seq<Seq<(int, int)>>,
    n: int,
    m: int,
    x0: Seq<Seq<(int, int)>>,
    p0: Seq<Seq<(int, int)>>,
    obs: Seq<Option<Rat>>,
    method: CovarianceUpdateMethod,
    x1: Seq<Seq<(int, int)>>,
    p1: Seq<Seq<(int, int)>>,
) -> bool {
    let xp = predict_mean(f, x0);
    let pp = predict_cov(f, q, n, p0);
    if obs_missing(obs) {
        x1 == xp && p1 == pp
    } else {
        update_rel(h, rm, n, m, xp, pp, obs_col(obs), method, x1, p1)
    }
}

/// The first `k` beliefs of `ests` form a filtered chain: each is obtained
/// from its predecessor (or from the initial belief) by one filter step on
/// the corresponding observation.
pub open spec fn filter_chain(
    f: Seq<Seq<(int, int)>>,
    q: Seq<Seq<(int, int)>>,
    h: Seq<Seq<(int, int)>>,
    rm: Seq<Seq<(int, int)>>,
    n: int,
    m: int,
    x0: Seq<Seq<(int, int)>>,
    p0: Seq<Seq<(int, int)>>,
    observations: Seq<Vec<Option<Rat>>>,
    method: CovarianceUpdateMethod,
    ests: Seq<StateAndCovariance>,
    k: int,
) -> bool {
    forall|i: int|
        0 <= i < k ==> (#[trigger] ests[i]).wf() && ests[i].dim() == n && step_rel(
            f,
            q,
            h,
            rm,
            n,
            m,
            if i == 0 {
                x0
            } else {
                ests[i - 1].state@
            },
            if i == 0 {
                p0
            } else {
                ests[i - 1].covariance@
            },
            observations[i]@,
            method,
            ests[i].state@,
            ests[i].covariance@,
        )
}

/// One backward smoothing step: re-predict the filtered belief, invert the
/// predicted covariance, and correct with the smoother gain
/// `J = Pf Ft Pp^-1`.
#[verifier::opaque]
pub open spec fn smooth_rel(
    f: Seq<Seq<(int, int)>>,
    q: Seq<Seq<(int, int)>>,
    n: int,
    xf: Seq<Seq<(int, int)>>,
    pf: Seq<Seq<(int, int)>>,
    xs_next: Seq<Seq<(int, int)>>,
    ps_next: Seq<Seq<(int, int)>>,
    xs: Seq<Seq<(int, int)>>,
    ps: Seq<Seq<(int, int)>>,
) -> bool {
    let xp = predict_mean(f, xf);
    let pp = predict_cov(f, q, n, pf);
    exists|si: Seq<Seq<(int, int)>>|
        #[trigger] inverse_pair(pp, si, n) && {
            let j = m_mul(pf, m_mul(m_transpose(f, n, n), si));
            &&& xs == m_add(xf, m_mul(j, m_sub(xs_next, xp)))
            &&& ps == m_add(pf, m_mul(j, m_mul(m_sub(ps_next, pp), m_transpose(j, n, n))))
        }
}

/// The smoothed sequence `sm` corresponds to the forward-filtered sequence
/// `fr`: same length, the last beliefs agree, and each earlier smoothed
/// belief comes from one backward smoothing step.
pub open spec fn smooth_chain(
    f: Seq<Seq<(int, int)>>,
    q: Seq<Seq<(int, int)>>,
    n: int,
    fr: Seq<StateAndCovariance>,
    sm: Seq<StateAndCovariance>,
) -> bool {
    &&& sm.len() == fr.len()
    &&& fr.len() >= 1 ==> (#[trigger] sm[fr.len() - 1]).wf() && sm[fr.len() - 1].dim() == n && sm[
        fr.len() - 1
    ].state@ == fr[fr.len() - 1].state@ && sm[fr.len() - 1].covariance@ == fr[fr.len()
        - 1].covariance@
    &&& forall|i: int|
        0 <= i < fr.len() - 1 ==> (#[trigger] sm[i]).wf() && sm[i].dim() == n && smooth_rel(
            f,
            q,
            n,
            fr[i].state@,
            fr[i].covariance@,
            sm[i + 1].state@,
            sm[i + 1].covariance@,
            sm[i].state@,
            sm[i].covariance@,
        )
}

/// A Kalman filter with no control inputs, a linear process model and
/// linear observation model.
///
/// The structure is cheap to create, storing only references to the state
/// transition model and the observation model; the system state is passed
/// as an argument to methods like [`Self::step`].
pub struct KalmanFilterNoControl<'a, TM, OM> where
    TM: TransitionModelLinearNoControl,
    OM: ObservationModel,
 {
    pub transition_model: &'a TM,
    pub observation_matrix: &'a OM,
}

impl<'a, TM, OM> KalmanFilterNoControl<'a, TM, OM> where
    TM: TransitionModelLinearNoControl,
    OM: ObservationModel,
 {
    /// Well formed: both models are well formed and agree on the state
    /// dimension, and the dimensions are non-trivial.
    pub open spec fn kf_wf(&self) -> bool {
        &&& self.transition_model.t_wf()
        &&& self.observation_matrix.o_wf()
        &&& self.transition_model.state_dim_spec() == self.observation_matrix.state_dim_spec()
        &&& self.transition_model.state_dim_spec() >= 1
        &&& self.observation_matrix.obs_dim_spec() >= 1
    }

    /// The state dimension.
    pub open spec fn n_spec(&self) -> int {
        self.transition_model.state_dim_spec()
    }

    /// The observation dimension.
    pub open spec fn m_spec(&self) -> int {
        self.observation_matrix.obs_dim_spec()
    }

    /// Initialize a new `KalmanFilterNoControl` struct.
    ///
    /// The first parameter specifies the state transition model, including
    /// the function `F` and the process covariance `Q`. The second specifies
    /// the observation model, including the measurement function `H` and the
    /// measurement covariance `R`.
    pub fn new(transition_model: &'a TM, observation_matrix: &'a OM) -> (r: Self)
        ensures
            r.transition_model == transition_model,
            r.observation_matrix == observation_matrix,
    {
        KalmanFilterNoControl { transition_model, observation_matrix }
    }

    /// Perform Kalman prediction and update steps with default values.
    ///
    /// If any component of the observation is missing, the observation will
    /// not be used: the prior (the predicted belief) is returned as the
    /// posterior without performing the update step. Otherwise this calls
    /// the update step with the `JosephForm` covariance update method.
    pub fn step(
        &self,
        previous_estimate: &StateAndCovariance,
        observation: &Vec<Option<Rat>>,
    ) -> (r: Result<StateAndCovariance, Error>)
        requires
            self.kf_wf(),
            previous_estimate.wf(),
            previous_estimate.dim() == self.n_spec(),
            observation@.len() == self.m_spec(),
            obs_wf(observation@),
        ensures
            r matches Ok(post) ==> post.wf() && post.dim() == self.n_spec() && step_rel(
                self.transition_model.f_spec(),
                self.transition_model.q_spec(),
                self.observation_matrix.h_spec(),
                self.observation_matrix.r_spec(),
                self.n_spec(),
                self.m_spec(),
                previous_estimate.state@,
                previous_estimate.covariance@,
                observation@,
                CovarianceUpdateMethod::JosephForm,
                post.state@,
                post.covariance@,
            ),
            r matches Ok(post) ==> (obs_missing(observation@) ==> predict_rel(
                self.transition_model.f_spec(),
                self.transition_model.q_spec(),
                self.n_spec(),
                previous_estimate.state@,
                previous_estimate.covariance@,
                post.state@,
                post.covariance@,
            )),
            r matches Ok(post) ==> (!obs_missing(observation@) ==> m_sym(
                post.covariance@,
                self.n_spec(),
            )),
            obs_missing(observation@) ==> ((r is Ok) <==> predict_fits(
                self.transition_model.f_spec(),
                self.transition_model.q_spec(),
                self.n_spec(),
                previous_estimate.state@,
                previous_estimate.covariance@,
            )),
            !obs_missing(observation@) && predict_fits(
                self.transition_model.f_spec(),
                self.transition_model.q_spec(),
                self.n_spec(),
                previous_estimate.state@,
                previous_estimate.covariance@,
            ) && innovation_fits(
                self.observation_matrix.h_spec(),
                self.observation_matrix.r_spec(),
                self.n_spec(),
                self.m_spec(),
                predict_cov(
                    self.transition_model.f_spec(),
                    self.transition_model.q_spec(),
                    self.n_spec(),
                    previous_estimate.covariance@,
                ),
            ) && !spd(
                innovation_cov(
                    self.observation_matrix.h_spec(),
                    self.observation_matrix.r_spec(),
                    self.n_spec(),
                    self.m_spec(),
                    predict_cov(
                        self.transition_model.f_spec(),
                        self.transition_model.q_spec(),
                        self.n_spec(),
                        previous_estimate.covariance@,
                    ),
                ),
            ) && spd_fits(
                innovation_cov(
                    self.observation_matrix.h_spec(),
                    self.observation_matrix.r_spec(),
                    self.n_spec(),
                    self.m_spec(),
                    predict_cov(
                        self.transition_model.f_spec(),
                        self.transition_model.q_spec(),
                        self.n_spec(),
                        previous_estimate.covariance@,
                    ),
                ),
            ) ==> r == Err::<StateAndCovariance, Error>(
                Error::CovarianceNotPositiveSemiDefinite,
            ),
            r matches Err(e) ==> (e == Error::CovarianceNotPositiveSemiDefinite ==> !obs_missing(
                observation@,
            )),
            r matches Err(e) ==> (e == Error::CovarianceNotPositiveSemiDefinite ==> !spd(
                innovation_cov(
                    self.observation_matrix.h_spec(),
                    self.observation_matrix.r_spec(),
                    self.n_spec(),
                    self.m_spec(),
                    predict_cov(
                        self.transition_model.f_spec(),
                        self.transition_model.q_spec(),
                        self.n_spec(),
                        previous_estimate.covariance@,
                    ),
                ),
            )),
    {
        self.step_with_options(previous_estimate, observation, CovarianceUpdateMethod::JosephForm)
    }

    /// Perform Kalman prediction and update steps with the given covariance
    /// update method.
    ///
    /// If any component of the observation is missing, the observation will
    /// not be used: the prior (the predicted belief) is returned as the
    /// posterior without performing the update step.
    pub fn step_with_options(
        &self,
        previous_estimate: &StateAndCovariance,
        observation: &Vec<Option<Rat>>,
        covariance_update_method: CovarianceUpdateMethod,
    ) -> (r: Result<StateAndCovariance, Error>)
        requires
            self.kf_wf(),
            previous_estimate.wf(),
            previous_estimate.dim() == self.n_spec(),
            observation@.len() == self.m_spec(),
            obs_wf(observation@),
        ensures
            r matches Ok(post) ==> post.wf() && post.dim() == self.n_spec() && step_rel(
                self.transition_model.f_spec(),
                self.transition_model.q_spec(),
                self.observation_matrix.h_spec(),
                self.observation_matrix.r_spec(),
                self.n_spec(),
                self.m_spec(),
                previous_estimate.state@,
                previous_estimate.covariance@,
                observation@,
                covariance_update_method,
                post.state@,
                post.covariance@,
            ),
            r matches Ok(post) ==> (obs_missing(observation@) ==> predict_rel(
                self.transition_model.f_spec(),
                self.transition_model.q_spec(),
                self.n_spec(),
                previous_estimate.state@,
                previous_estimate.covariance@,
                post.state@,
                post.covariance@,
            )),
            r matches Ok(post) ==> (!obs_missing(observation@) && covariance_update_method
                == CovarianceUpdateMethod::JosephForm ==> m_sym(post.covariance@, self.n_spec())),
            obs_missing(observation@) ==> ((r is Ok) <==> predict_fits(
                self.transition_model.f_spec(),
                self.transition_model.q_spec(),
                self.n_spec(),
                previous_estimate.state@,
                previous_estimate.covariance@,
            )),
            !obs_missing(observation@) && predict_fits(
                self.transition_model.f_spec(),
                self.transition_model.q_spec(),
                self.n_spec(),
                previous_estimate.state@,
                previous_estimate.covariance@,
            ) && innovation_fits(
                self.observation_matrix.h_spec(),
                self.observation_matrix.r_spec(),
                self.n_spec(),
                self.m_spec(),
                predict_cov(
                    self.transition_model.f_spec(),
                    self.transition_model.q_spec(),
                    self.n_spec(),
                    previous_estimate.covariance@,
                ),
            ) && !spd(
                innovation_cov(
                    self.observation_matrix.h_spec(),
                    self.observation_matrix.r_spec(),
                    self.n_spec(),
                    self.m_spec(),
                    predict_cov(
                        self.transition_model.f_spec(),
                        self.transition_model.q_spec(),
                        self.n_spec(),
                        previous_estimate.covariance@,
                    ),
                ),
            ) && spd_fits(
                innovation_cov(
                    self.observation_matrix.h_spec(),
                    self.observation_matrix.r_spec(),
                    self.n_spec(),
                    self.m_spec(),
                    predict_cov(
                        self.transition_model.f_spec(),
                        self.transition_model.q_spec(),
                        self.n_spec(),
                        previous_estimate.covariance@,
                    ),
                ),
            ) ==> r == Err::<StateAndCovariance, Error>(
                Error::CovarianceNotPositiveSemiDefinite,
            ),
            r matches Err(e) ==> (e == Error::CovarianceNotPositiveSemiDefinite ==> !obs_missing(
                observation@,
            )),
            r matches Err(e) ==> (e == Error::CovarianceNotPositiveSemiDefinite ==> !spd(
                innovation_cov(
                    self.observation_matrix.h_spec(),
                    self.observation_matrix.r_spec(),
                    self.n_spec(),
                    self.m_spec(),
                    predict_cov(
                        self.transition_model.f_spec(),
                        self.transition_model.q_spec(),
                        self.n_spec(),
                        previous_estimate.covariance@,
                    ),
                ),
            )),
    {
        let prior: StateAndCovariance = match self.transition_model.predict(previous_estimate) {
            Ok(v) => v,
            Err(e) => {
                return Err(e);
            },
        };
        if observation_is_missing(observation) {
            Ok(prior)
        } else {
            let y: Matrix = observation_values(observation);
            self.observation_matrix.update(&prior, &y, covariance_update_method)
        }
    }

    /// Kalman filter over an entire time series.
    ///
    /// Operates by repeatedly calling [`Self::step`] for each observation
    /// and returns a vector of state estimates, one per observation. A step
    /// that fails aborts the whole pass and surfaces that error.
    pub fn filter(
        &self,
        initial_estimate: &StateAndCovariance,
        observations: &Vec<Vec<Option<Rat>>>,
    ) -> (r: Result<Vec<StateAndCovariance>, Error>)
        requires
            self.kf_wf(),
            initial_estimate.wf(),
            initial_estimate.dim() == self.n_spec(),
            forall|i: int|
                0 <= i < observations@.len() ==> (#[trigger] observations@[i])@.len()
                    == self.m_spec() && obs_wf(observations@[i]@),
        ensures
            r matches Ok(ests) ==> ests@.len() == observations@.len() && filter_chain(
                self.transition_model.f_spec(),
                self.transition_model.q_spec(),
                self.observation_matrix.h_spec(),
                self.observation_matrix.r_spec(),
                self.n_spec(),
                self.m_spec(),
                initial_estimate.state@,
                initial_estimate.covariance@,
                observations@,
                CovarianceUpdateMethod::JosephForm,
                ests@,
                observations@.len() as int,
            ),
            r matches Err(e) ==> (e == Error::CovarianceNotPositiveSemiDefinite ==> exists|
                pre: Seq<StateAndCovariance>,
                k: int,
            |
                0 <= k < observations@.len() && pre.len() == k && #[trigger] filter_chain(
                    self.transition_model.f_spec(),
                    self.transition_model.q_spec(),
                    self.observation_matrix.h_spec(),
                    self.observation_matrix.r_spec(),
                    self.n_spec(),
                    self.m_spec(),
                    initial_estimate.state@,
                    initial_estimate.covariance@,
                    observations@,
                    CovarianceUpdateMethod::JosephForm,
                    pre,
                    k,
                ) && !spd(
                    innovation_cov(
                        self.observation_matrix.h_spec(),
                        self.observation_matrix.r_spec(),
                        self.n_spec(),
                        self.m_spec(),
                        predict_cov(
                            self.transition_model.f_spec(),
                            self.transition_model.q_spec(),
                            self.n_spec(),
                            if k == 0 {
                                initial_estimate.covariance@
                            } else {
                                pre[k - 1].covariance@
                            },
                        ),
                    ),
                )),
    {
        let mut ests: Vec<StateAndCovariance> = Vec::new();
        let mut idx: usize = 0;
        while idx < observations.len()
            invariant
                self.kf_wf(),
                initial_estimate.wf(),
                initial_estimate.dim() == self.n_spec(),
                forall|i: int|
                    0 <= i < observations@.len() ==> (#[trigger] observations@[i])@.len()
                        == self.m_spec() && obs_wf(observations@[i]@),
                idx <= observations@.len(),
                ests@.len() == idx,
                filter_chain(
                    self.transition_model.f_spec(),
                    self.transition_model.q_spec(),
                    self.observation_matrix.h_spec(),
                    self.observation_matrix.r_spec(),
                    self.n_spec(),
                    self.m_spec(),
                    initial_estimate.state@,
                    initial_estimate.covariance@,
                    observations@,
                    CovarianceUpdateMethod::JosephForm,
                    ests@,
                    idx as int,
                ),
            decreases observations@.len() - idx,
        {
            let post: StateAndCovariance = if idx == 0 {
                match self.step(initial_estimate, &observations[idx]) {
                    Ok(v) => v,
                    Err(e) => {
                        return Err(e);
                    },
                }
            } else {
                match self.step(&ests[idx - 1], &observations[idx]) {
                    Ok(v) => v,
                    Err(e) => {
                        return Err(e);
                    },
                }
            };
            ests.push(post);
            idx = idx + 1;
        }
        Ok(ests)
    }

    /// Kalman filter over an entire time series, writing into a
    /// caller-provided buffer.
    ///
    /// The buffer must hold at least as many slots as there are
    /// observations; slots beyond the observations are left untouched. If a
    /// step fails, the completed prefix (up to the failing index) has been
    /// written, every later slot is unchanged, and the error is surfaced.
    #[verifier::rlimit(60)]
    pub fn filter_inplace(
        &self,
        initial_estimate: &StateAndCovariance,
        observations: &Vec<Vec<Option<Rat>>>,
        state_estimates: &mut Vec<StateAndCovariance>,
    ) -> (r: Result<(), Error>)
        requires
            self.kf_wf(),
            initial_estimate.wf(),
            initial_estimate.dim() == self.n_spec(),
            old(state_estimates)@.len() >= observations@.len(),
            forall|i: int|
                0 <= i < observations@.len() ==> (#[trigger] observations@[i])@.len()
                    == self.m_spec() && obs_wf(observations@[i]@),
        ensures
            final(state_estimates)@.len() == old(state_estimates)@.len(),
            forall|i: int|
                observations@.len() <= i < old(state_estimates)@.len()
                    ==> #[trigger] final(state_estimates)@[i] == old(state_estimates)@[i],
            r matches Ok(_) ==> filter_chain(
                self.transition_model.f_spec(),
                self.transition_model.q_spec(),
                self.observation_matrix.h_spec(),
                self.observation_matrix.r_spec(),
                self.n_spec(),
                self.m_spec(),
                initial_estimate.state@,
                initial_estimate.covariance@,
                observations@,
                CovarianceUpdateMethod::JosephForm,
                final(state_estimates)@,
                observations@.len() as int,
            ),
            r matches Err(e) ==> exists|k: int|
                0 <= k < observations@.len() && #[trigger] filter_chain(
                    self.transition_model.f_spec(),
                    self.transition_model.q_spec(),
                    self.observation_matrix.h_spec(),
                    self.observation_matrix.r_spec(),
                    self.n_spec(),
                    self.m_spec(),
                    initial_estimate.state@,
                    initial_estimate.covariance@,
                    observations@,
                    CovarianceUpdateMethod::JosephForm,
                    final(state_estimates)@,
                    k,
                ) && (forall|i: int|
                    k <= i < old(state_estimates)@.len() ==> final(state_estimates)@[i] == old(
                        state_estimates,
                    )@[i]) && (e == Error::CovarianceNotPositiveSemiDefinite ==> !spd(
                    innovation_cov(
                        self.observation_matrix.h_spec(),
                        self.observation_matrix.r_spec(),
                        self.n_spec(),
                        self.m_spec(),
                        predict_cov(
                            self.transition_model.f_spec(),
                            self.transition_model.q_spec(),
                            self.n_spec(),
                            if k == 0 {
                                initial_estimate.covariance@
                            } else {
                                final(state_estimates)@[k - 1].covariance@
                            },
                        ),
                    ),
                )),
    {
        let mut idx: usize = 0;
        while idx < observations.len()
            invariant
                self.kf_wf(),
                initial_estimate.wf(),
                initial_estimate.dim() == self.n_spec(),
                state_estimates@.len() == old(state_estimates)@.len(),
                old(state_estimates)@.len() >= observations@.len(),
                forall|i: int|
                    0 <= i < observations@.len() ==> (#[trigger] observations@[i])@.len()
                        == self.m_spec() && obs_wf(observations@[i]@),
                idx <= observations@.len(),
                forall|i: int|
                    idx <= i < old(state_estimates)@.len() ==> #[trigger] state_estimates@[i]
                        == old(state_estimates)@[i],
                filter_chain(
                    self.transition_model.f_spec(),
                    self.transition_model.q_spec(),
                    self.observation_matrix.h_spec(),
                    self.observation_matrix.r_spec(),
                    self.n_spec(),
                    self.m_spec(),
                    initial_estimate.state@,
                    initial_estimate.covariance@,
                    observations@,
                    CovarianceUpdateMethod::JosephForm,
                    state_estimates@,
                    idx as int,
                ),
            decreases observations@.len() - idx,
        {
            let post: StateAndCovariance = if idx == 0 {
                match self.step(initial_estimate, &observations[idx]) {
                    Ok(v) => v,
                    Err(e) => {
                        return Err(e);
                    },
                }
            } else {
                match self.step(&state_estimates[idx - 1], &observations[idx]) {
                    Ok(v) => v,
                    Err(e) => {
                        return Err(e);
                    },
                }
            };
            state_estimates[idx] = post;
            idx = idx + 1;
        }
        Ok(())
    }

    /// Rauch-Tung-Striebel (RTS) smoother.
    ///
    /// Operates on an entire time series in one shot, by running the forward
    /// filter and then the backward smoothing pass, and returns a vector of
    /// smoothed state estimates. An observation with any missing component
    /// is treated as missing.
    pub fn smooth(
        &self,
        initial_estimate: &StateAndCovariance,
        observations: &Vec<Vec<Option<Rat>>>,
    ) -> (r: Result<Vec<StateAndCovariance>, Error>)
        requires
            self.kf_wf(),
            initial_estimate.wf(),
            initial_estimate.dim() == self.n_spec(),
            observations@.len() >= 1,
            forall|i: int|
                0 <= i < observations@.len() ==> (#[trigger] observations@[i])@.len()
                    == self.m_spec() && obs_wf(observations@[i]@),
        ensures
            r matches Ok(sm) ==> sm@.len() == observations@.len() && (exists|
                fr: Seq<StateAndCovariance>,
            |
                fr.len() == observations@.len() && #[trigger] filter_chain(
                    self.transition_model.f_spec(),
                    self.transition_model.q_spec(),
                    self.observation_matrix.h_spec(),
                    self.observation_matrix.r_spec(),
                    self.n_spec(),
                    self.m_spec(),
                    initial_estimate.state@,
                    initial_estimate.covariance@,
                    observations@,
                    CovarianceUpdateMethod::JosephForm,
                    fr,
                    observations@.len() as int,
                ) && smooth_chain(
                    self.transition_model.f_spec(),
                    self.transition_model.q_spec(),
                    self.n_spec(),
                    fr,
                    sm@,
                )),
            r matches Err(e) ==> (e == Error::CovarianceNotPositiveSemiDefinite ==> ((exists|
                pre: Seq<StateAndCovariance>,
                k: int,
            |
                0 <= k < observations@.len() && pre.len() == k && #[trigger] filter_chain(
                    self.transition_model.f_spec(),
                    self.transition_model.q_spec(),
                    self.observation_matrix.h_spec(),
                    self.observation_matrix.r_spec(),
                    self.n_spec(),
                    self.m_spec(),
                    initial_estimate.state@,
                    initial_estimate.covariance@,
                    observations@,
                    CovarianceUpdateMethod::JosephForm,
                    pre,
                    k,
                ) && !spd(
                    innovation_cov(
                        self.observation_matrix.h_spec(),
                        self.observation_matrix.r_spec(),
                        self.n_spec(),
                        self.m_spec(),
                        predict_cov(
                            self.transition_model.f_spec(),
                            self.transition_model.q_spec(),
                            self.n_spec(),
                            if k == 0 {
                                initial_estimate.covariance@
                            } else {
                                pre[k - 1].covariance@
                            },
                        ),
                    ),
                )) || (exists|fr: Seq<StateAndCovariance>|
                fr.len() == observations@.len() && #[trigger] filter_chain(
                    self.transition_model.f_spec(),
                    self.transition_model.q_spec(),
                    self.observation_matrix.h_spec(),
                    self.observation_matrix.r_spec(),
                    self.n_spec(),
                    self.m_spec(),
                    initial_estimate.state@,
                    initial_estimate.covariance@,
                    observations@,
                    CovarianceUpdateMethod::JosephForm,
                    fr,
                    observations@.len() as int,
                ) && (exists|i: int|
                    0 <= i < fr.len() - 1 && !spd(
                        predict_cov(
                            self.transition_model.f_spec(),
                            self.transition_model.q_spec(),
                            self.n_spec(),
                            (#[trigger] fr[i]).covariance@,
                        ),
                    ))))),
    {
        let forward_results: Vec<StateAndCovariance> = match self.filter(
            initial_estimate,
            observations,
        ) {
            Ok(v) => v,
            Err(e) => {
                return Err(e);
            },
        };
        let ghost frv = forward_results@;
        let r: Vec<StateAndCovariance> = match self.smooth_from_filtered(forward_results) {
            Ok(v) => v,
            Err(e) => {
                return Err(e);
            },
        };
        Ok(r)
    }

    /// Rauch-Tung-Striebel (RTS) smoother using already Kalman filtered
    /// estimates.
    ///
    /// Walks the forward-filtered sequence backward: the last smoothed
    /// belief equals the last filtered belief, and each earlier belief is
    /// corrected using the already-smoothed belief of the next time step. A
    /// failing step aborts the whole pass.
    pub fn smooth_from_filtered(&self, forward_results: Vec<StateAndCovariance>) -> (r: Result<
        Vec<StateAndCovariance>,
        Error,
    >)
        requires
            self.transition_model.t_wf(),
            self.transition_model.state_dim_spec() >= 1,
            forward_results@.len() >= 1,
            forall|i: int|
                0 <= i < forward_results@.len() ==> (#[trigger] forward_results@[i]).wf()
                    && forward_results@[i].dim() == self.transition_model.state_dim_spec(),
        ensures
            r matches Ok(sm) ==> smooth_chain(
                self.transition_model.f_spec(),
                self.transition_model.q_spec(),
                self.transition_model.state_dim_spec(),
                forward_results@,
                sm@,
            ),
            forward_results@.len() == 1 ==> r is Ok,
            r matches Err(e) ==> (e == Error::CovarianceNotPositiveSemiDefinite ==> exists|i: int|
                0 <= i < forward_results@.len() - 1 && !spd(
                    predict_cov(
                        self.transition_model.f_spec(),
                        self.transition_model.q_spec(),
                        self.transition_model.state_dim_spec(),
                        (#[trigger] forward_results@[i]).covariance@,
                    ),
                )),
    {
        let ghost n = self.transition_model.state_dim_spec();
        let ghost fr = forward_results@;
        let ell: usize = forward_results.len();
        let mut back: Vec<StateAndCovariance> = Vec::new();
        back.push(forward_results[ell - 1].duplicate());
        let mut t: usize = 1;
        while t < ell
            invariant
                self.transition_model.t_wf(),
                n == self.transition_model.state_dim_spec(),
                n >= 1,
                fr == forward_results@,
                ell == fr.len(),
                ell >= 1,
                forall|i: int|
                    0 <= i < fr.len() ==> (#[trigger] fr[i]).wf() && fr[i].dim() == n,
                1 <= t <= ell,
                back@.len() == t,
                back@[0].wf() && back@[0].dim() == n && back@[0].state@ == fr[ell - 1].state@
                    && back@[0].covariance@ == fr[ell - 1].covariance@,
                forall|tt: int|
                    1 <= tt < t ==> (#[trigger] back@[tt]).wf() && back@[tt].dim() == n
                        && smooth_rel(
                        self.transition_model.f_spec(),
                        self.transition_model.q_spec(),
                        n,
                        fr[ell - 1 - tt].state@,
                        fr[ell - 1 - tt].covariance@,
                        back@[tt - 1].state@,
                        back@[tt - 1].covariance@,
                        back@[tt].state@,
                        back@[tt].covariance@,
                    ),
            decreases ell - t,
        {
            let snew: StateAndCovariance = match self.smooth_step(
                &back[t - 1],
                &forward_results[ell - 1 - t],
            ) {
                Ok(v) => v,
                Err(e) => {
                    return Err(e);
                },
            };
            back.push(snew);
            t = t + 1;
        }
        let mut sm: Vec<StateAndCovariance> = Vec::new();
        let mut i: usize = 0;
        while i < ell
            invariant
                ell == fr.len(),
                back@.len() == ell,
                forall|tt: int|
                    0 <= tt < ell ==> (#[trigger] back@[tt]).wf() && back@[tt].dim() == n,
                i <= ell,
                sm@.len() == i,
                forall|ii: int|
                    0 <= ii < i ==> (#[trigger] sm@[ii]).wf() && sm@[ii].dim() == n && sm@[ii].state@
                        == back@[ell - 1 - ii].state@ && sm@[ii].covariance@ == back@[ell - 1
                        - ii].covariance@,
            decreases ell - i,
        {
            sm.push(back[ell - 1 - i].duplicate());
            i = i + 1;
        }
        proof {
            assert forall|ii: int| 0 <= ii < ell - 1 implies (#[trigger] sm@[ii]).wf()
                && sm@[ii].dim() == n && smooth_rel(
                self.transition_model.f_spec(),
                self.transition_model.q_spec(),
                n,
                fr[ii].state@,
                fr[ii].covariance@,
                sm@[ii + 1].state@,
                sm@[ii + 1].covariance@,
                sm@[ii].state@,
                sm@[ii].covariance@,
            ) by {
                let tt = ell - 1 - ii;
                assert(1 <= tt < ell);
                assert(back@[tt].wf() && back@[tt].dim() == n && smooth_rel(
                    self.transition_model.f_spec(),
                    self.transition_model.q_spec(),
                    n,
                    fr[ell - 1 - tt].state@,
                    fr[ell - 1 - tt].covariance@,
                    back@[tt - 1].state@,
                    back@[tt - 1].covariance@,
                    back@[tt].state@,
                    back@[tt].covariance@,
                ));
                assert(ell - 1 - tt == ii);
            }
        }
        Ok(sm)
    }

    /// One backward smoothing step: from the already-smoothed belief of the
    /// next time step and the forward-filtered belief of this one, produce
    /// this step's smoothed belief.
    fn smooth_step(
        &self,
        smooth_future: &StateAndCovariance,
        filt: &StateAndCovariance,
    ) -> (r: Result<StateAndCovariance, Error>)
        requires
            self.transition_model.t_wf(),
            self.transition_model.state_dim_spec() >= 1,
            smooth_future.wf(),
            smooth_future.dim() == self.transition_model.state_dim_spec(),
            filt.wf(),
            filt.dim() == self.transition_model.state_dim_spec(),
        ensures
            r matches Ok(v) ==> v.wf() && v.dim() == self.transition_model.state_dim_spec()
                && smooth_rel(
                self.transition_model.f_spec(),
                self.transition_model.q_spec(),
                self.transition_model.state_dim_spec(),
                filt.state@,
                filt.covariance@,
                smooth_future.state@,
                smooth_future.covariance@,
                v.state@,
                v.covariance@,
            ),
            r matches Err(e) ==> (e == Error::CovarianceNotPositiveSemiDefinite ==> !spd(
                predict_cov(
                    self.transition_model.f_spec(),
                    self.transition_model.q_spec(),
                    self.transition_model.state_dim_spec(),
                    filt.covariance@,
                ),
            )),
    {
        let prior: StateAndCovariance = match self.transition_model.predict(filt) {
            Ok(v) => v,
            Err(e) => {
                return Err(e);
            },
        };
        let inv_prior_covariance: Matrix = match prior.covariance.invert_spd() {
            Ok(v) => v,
            Err(e) => {
                return Err(e);
            },
        };
        // smoother gain J = Pf Ft Pp^-1
        let ftinv: Matrix = match self.transition_model.FT().mul_mat(&inv_prior_covariance) {
            Ok(v) => v,
            Err(e) => {
                return Err(e);
            },
        };
        let j: Matrix = match filt.covariance().mul_mat(&ftinv) {
            Ok(v) => v,
            Err(e) => {
                return Err(e);
            },
        };
        // smoothed mean xf + J (xs_next - xp)
        let residuals: Matrix = match smooth_future.state().sub_mat(&prior.state) {
            Ok(v) => v,
            Err(e) => {
                return Err(e);
            },
        };
        let jres: Matrix = match j.mul_mat(&residuals) {
            Ok(v) => v,
            Err(e) => {
                return Err(e);
            },
        };
        let state: Matrix = match filt.state().add_mat(&jres) {
            Ok(v) => v,
            Err(e) => {
                return Err(e);
            },
        };
        // smoothed covariance Pf + J (Ps_next - Pp) Jt
        let covar_residuals: Matrix = match smooth_future.covariance().sub_mat(&prior.covariance) {
            Ok(v) => v,
            Err(e) => {
                return Err(e);
            },
        };
        let jt: Matrix = j.transpose();
        let crjt: Matrix = match covar_residuals.mul_mat(&jt) {
            Ok(v) => v,
            Err(e) => {
                return Err(e);
            },
        };
        let jcrjt: Matrix = match j.mul_mat(&crjt) {
            Ok(v) => v,
            Err(e) => {
                return Err(e);
            },
        };
        let covariance: Matrix = match filt.covariance().add_mat(&jcrjt) {
            Ok(v) => v,
            Err(e) => {
                return Err(e);
            },
        };
        proof {
            reveal(smooth_rel);
            let n = self.transition_model.state_dim_spec();
            let pp = predict_cov(
                self.transition_model.f_spec(),
                self.transition_model.q_spec(),
                n,
                filt.covariance@,
            );
            assert(inverse_pair(pp, inv_prior_covariance@, n));
        }
        Ok(StateAndCovariance { state, covariance })
    }
}

/// Smoothing a single-step series returns the filtered belief unchanged:
/// with no future information to incorporate, the one smoothed belief
/// equals the one filtered belief.
pub proof fn lemma_smooth_single(
    f: Seq<Seq<(int, int)>>,
    q: Seq<Seq<(int, int)>>,
    n: int,
    fr: Seq<StateAndCovariance>,
    sm: Seq<StateAndCovariance>,
)
    requires
        fr.len() == 1,
        smooth_chain(f, q, n, fr, sm),
    ensures
        sm.len() == 1,
        sm[0].state@ == fr[0].state@,
        sm[0].covariance@ == fr[0].covariance@,
{
}

} // verus!
