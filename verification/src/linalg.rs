//! Positive-definiteness and inversion of symmetric matrices.
//!
//! Positive-definiteness is defined by the Schur-complement recursion
//! [`spd`]: the leading entry must be positive and the Schur complement of
//! the leading entry must again be positive-definite. For symmetric
//! matrices this is exactly the condition under which a Cholesky
//! factorization exists, and the executable check follows the recursion
//! step for step in exact arithmetic.
//!
//! [`Matrix::invert_spd`] first runs that check and then computes the
//! inverse by Gauss-Jordan elimination; the result is multiplied back
//! against the input on both sides and compared with the identity, so the
//! returned matrix is proved to be a two-sided exact inverse.
use vstd::prelude::*;

verus! {

use crate::error::Error;
use crate::matrix::{Matrix, m_shape, m_mul, m_id};
use crate::rational::{Rat, rv_sub, rv_mul, rv_div};
use crate::rational::{rv_div_fits, rv_mul_fits, rv_sub_fits};

/// The Schur complement of the leading entry of `s`.
pub open spec fn m_schur(s: Seq<Seq<(int, int)>>) -> Seq<Seq<(int, int)>> {
    Seq::new(
        (s.len() - 1) as nat,
        |i: int| Seq::new(
            (s.len() - 1) as nat,
            |j: int| rv_sub(s[i + 1][j + 1], rv_div(rv_mul(s[i + 1][0], s[0][j + 1]), s[0][0])),
        ),
    )
}

/// Positive-definiteness of a square matrix view, by the Schur-complement
/// recursion: every pivot produced by a Cholesky-style elimination is
/// strictly positive.
pub open spec fn spd(s: Seq<Seq<(int, int)>>) -> bool
    decreases s.len(),
{
    if s.len() == 0 {
        true
    } else {
        s[0][0].0 > 0 && spd(m_schur(s))
    }
}

/// When one entry of the Schur complement stays representable: the product,
/// the division by the pivot, and the subtraction, in evaluation order.
pub open spec fn schur_entry_fits(s: Seq<Seq<(int, int)>>, i: int, j: int) -> bool {
    &&& rv_mul_fits(s[i + 1][0], s[0][j + 1])
    &&& rv_div_fits(rv_mul(s[i + 1][0], s[0][j + 1]), s[0][0])
    &&& rv_sub_fits(s[i + 1][j + 1], rv_div(rv_mul(s[i + 1][0], s[0][j + 1]), s[0][0]))
}

/// When the positivity check itself stays inside the 128-bit range. The
/// check stops at the first non-positive pivot, so nothing beyond that
/// point needs to be representable.
pub open spec fn spd_fits(s: Seq<Seq<(int, int)>>) -> bool
    decreases s.len(),
{
    if s.len() == 0 {
        true
    } else if !(s[0][0].0 > 0) {
        true
    } else {
        &&& forall|i: int, j: int|
            0 <= i < s.len() - 1 && 0 <= j < s.len() - 1 ==> #[trigger] schur_entry_fits(s, i, j)
        &&& spd_fits(m_schur(s))
    }
}

/// A two-sided exact inverse of `s` of size `n`.
pub open spec fn inverse_pair(s: Seq<Seq<(int, int)>>, x: Seq<Seq<(int, int)>>, n: int) -> bool {
    m_shape(x, n, n) && m_mul(s, x) == m_id(n) && m_mul(x, s) == m_id(n)
}

impl Matrix {
    /// Whether the matrix is positive-definite, by the Schur recursion that
    /// mirrors [`spd`] in exact arithmetic.
    pub fn spd_check(&self) -> (r: Result<bool, Error>)
        requires
            self.wf(),
            self.rows == self.cols,
        ensures
            r matches Ok(b) ==> b == spd(self@),
            r matches Err(e) ==> e == Error::ArithmeticLimit,
            r is Ok <==> spd_fits(self@),
        decreases self.rows,
    {
        if self.rows == 0 {
            return Ok(true);
        }
        let pivot: Rat = self.data[0][0];
        if !pivot.is_positive() {
            return Ok(false);
        }
        let m: usize = self.rows - 1;
        let mut data: Vec<Vec<Rat>> = Vec::new();
        let mut i: usize = 0;
        while i < m
            invariant
                self.wf(),
                self.rows == self.cols,
                m == self.rows - 1,
                pivot == self.data@[0]@[0],
                pivot@.0 > 0,
                i <= m,
                data@.len() == i,
                forall|ii: int| 0 <= ii < i ==> (#[trigger] data@[ii])@.len() == m,
                forall|ii: int, jj: int|
                    0 <= ii < i && 0 <= jj < m ==> (#[trigger] data@[ii]@[jj]).wf()
                        && data@[ii]@[jj]@ == rv_sub(
                        self@[ii + 1][jj + 1],
                        rv_div(rv_mul(self@[ii + 1][0], self@[0][jj + 1]), self@[0][0]),
                    ),
                forall|ii: int, jj: int|
                    0 <= ii < i && 0 <= jj < m ==> #[trigger] schur_entry_fits(self@, ii, jj),
            decreases m - i,
        {
            let mut row: Vec<Rat> = Vec::new();
            let mut j: usize = 0;
            while j < m
                invariant
                    self.wf(),
                    self.rows == self.cols,
                    m == self.rows - 1,
                    pivot == self.data@[0]@[0],
                    pivot@.0 > 0,
                    i < m,
                    j <= m,
                    row@.len() == j,
                    forall|jj: int| 0 <= jj < j ==> (#[trigger] row@[jj]).wf()
                        && row@[jj]@ == rv_sub(
                        self@[i + 1][jj + 1],
                        rv_div(rv_mul(self@[i + 1][0], self@[0][jj + 1]), self@[0][0]),
                    ),
                    forall|ii: int, jj: int|
                        0 <= ii < i && 0 <= jj < m ==> #[trigger] schur_entry_fits(self@, ii, jj),
                    forall|jj: int|
                        0 <= jj < j ==> #[trigger] schur_entry_fits(self@, i as int, jj),
                decreases m - j,
            {
                let a: Rat = self.data[i + 1][j + 1];
                let b: Rat = self.data[i + 1][0];
                let c: Rat = self.data[0][j + 1];
                let prod: Rat = match b.mul(&c) {
                    Ok(v) => v,
                    Err(e) => {
                        proof {
                            assert(!schur_entry_fits(self@, i as int, j as int));
                        }
                        return Err(e);
                    },
                };
                let q: Rat = match prod.div(&pivot) {
                    Ok(v) => v,
                    Err(e) => {
                        proof {
                            assert(!schur_entry_fits(self@, i as int, j as int));
                        }
                        return Err(e);
                    },
                };
                let e2: Rat = match a.sub(&q) {
                    Ok(v) => v,
                    Err(e) => {
                        proof {
                            assert(!schur_entry_fits(self@, i as int, j as int));
                        }
                        return Err(e);
                    },
                };
                row.push(e2);
                j = j + 1;
            }
            data.push(row);
            i = i + 1;
        }
        let sc = Matrix { rows: m, cols: m, data };
        proof {
            assert(sc@ =~~= m_schur(self@));
        }
        let res = sc.spd_check();
        proof {
            assert(spd_fits(self@) == (res is Ok));
        }
        res
    }

    /// Inverse by Gauss-Jordan elimination without pivot search; fails with
    /// [`Error::ArithmeticLimit`] when a pivot vanishes or the range is
    /// exhausted. Its result is certified by `invert_spd`.
    fn invert_raw(&self) -> (r: Result<Matrix, Error>)
        requires
            self.wf(),
            self.rows == self.cols,
        ensures
            r matches Ok(m) ==> m.wf() && m.rows == self.rows && m.cols == self.cols,
            r matches Err(e) ==> e == Error::ArithmeticLimit,
    {
        let n: usize = self.rows;
        if n > usize::MAX / 2 {
            return Err(Error::ArithmeticLimit);
        }
        let w: usize = 2 * n;
        // augmented matrix [ self | identity ]
        let mut aug: Vec<Vec<Rat>> = Vec::new();
        let mut i: usize = 0;
        while i < n
            invariant
                self.wf(),
                self.rows == self.cols,
                n == self.rows,
                w == 2 * n,
                i <= n,
                aug@.len() == i,
                forall|ii: int| 0 <= ii < i ==> (#[trigger] aug@[ii])@.len() == w,
                forall|ii: int, jj: int|
                    0 <= ii < i && 0 <= jj < w ==> (#[trigger] aug@[ii]@[jj]).wf(),
            decreases n - i,
        {
            let mut row: Vec<Rat> = Vec::new();
            let mut j: usize = 0;
            while j < w
                invariant
                    self.wf(),
                    self.rows == self.cols,
                    n == self.rows,
                    w == 2 * n,
                    i < n,
                    j <= w,
                    row@.len() == j,
                    forall|jj: int| 0 <= jj < j ==> (#[trigger] row@[jj]).wf(),
                decreases w - j,
            {
                if j < n {
                    row.push(self.data[i][j]);
                } else {
                    if j - n == i {
                        row.push(Rat::one());
                    } else {
                        row.push(Rat::zero());
                    }
                }
                j = j + 1;
            }
            aug.push(row);
            i = i + 1;
        }
        // elimination
        let mut col: usize = 0;
        while col < n
            invariant
                n == self.rows,
                w == 2 * n,
                aug@.len() == n,
                forall|ii: int| 0 <= ii < n ==> (#[trigger] aug@[ii])@.len() == w,
                forall|ii: int, jj: int|
                    0 <= ii < n && 0 <= jj < w ==> (#[trigger] aug@[ii]@[jj]).wf(),
            decreases n - col,
        {
            let pivot: Rat = aug[col][col];
            if pivot.num() == 0 {
                return Err(Error::ArithmeticLimit);
            }
            let mut prow: Vec<Rat> = Vec::new();
            let mut j: usize = 0;
            while j < w
                invariant
                    n == self.rows,
                    w == 2 * n,
                    col < n,
                    pivot.wf(),
                    pivot@.0 != 0,
                    aug@.len() == n,
                    forall|ii: int| 0 <= ii < n ==> (#[trigger] aug@[ii])@.len() == w,
                    forall|ii: int, jj: int|
                        0 <= ii < n && 0 <= jj < w ==> (#[trigger] aug@[ii]@[jj]).wf(),
                    j <= w,
                    prow@.len() == j,
                    forall|jj: int| 0 <= jj < j ==> (#[trigger] prow@[jj]).wf(),
                decreases w - j,
            {
                let e: Rat = aug[col][j];
                let q: Rat = match e.div(&pivot) {
                    Ok(v) => v,
                    Err(err) => {
                        return Err(err);
                    },
                };
                prow.push(q);
                j = j + 1;
            }
            aug[col] = prow;
            let mut r: usize = 0;
            while r < n
                invariant
                    n == self.rows,
                    w == 2 * n,
                    col < n,
                    r <= n,
                    aug@.len() == n,
                    forall|ii: int| 0 <= ii < n ==> (#[trigger] aug@[ii])@.len() == w,
                    forall|ii: int, jj: int|
                        0 <= ii < n && 0 <= jj < w ==> (#[trigger] aug@[ii]@[jj]).wf(),
                decreases n - r,
            {
                if r != col {
                    let factor: Rat = aug[r][col];
                    let mut nrow: Vec<Rat> = Vec::new();
                    let mut j2: usize = 0;
                    while j2 < w
                        invariant
                            n == self.rows,
                            w == 2 * n,
                            col < n,
                            r < n,
                            factor.wf(),
                            aug@.len() == n,
                            forall|ii: int| 0 <= ii < n ==> (#[trigger] aug@[ii])@.len() == w,
                            forall|ii: int, jj: int|
                                0 <= ii < n && 0 <= jj < w ==> (#[trigger] aug@[ii]@[jj]).wf(),
                            j2 <= w,
                            nrow@.len() == j2,
                            forall|jj: int| 0 <= jj < j2 ==> (#[trigger] nrow@[jj]).wf(),
                        decreases w - j2,
                    {
                        let e: Rat = aug[r][j2];
                        let p: Rat = aug[col][j2];
                        let t: Rat = match factor.mul(&p) {
                            Ok(v) => v,
                            Err(err) => {
                                return Err(err);
                            },
                        };
                        let q: Rat = match e.sub(&t) {
                            Ok(v) => v,
                            Err(err) => {
                                return Err(err);
                            },
                        };
                        nrow.push(q);
                        j2 = j2 + 1;
                    }
                    aug[r] = nrow;
                }
                r = r + 1;
            }
            col = col + 1;
        }
        // extract the right half
        let mut data: Vec<Vec<Rat>> = Vec::new();
        let mut i2: usize = 0;
        while i2 < n
            invariant
                n == self.rows,
                w == 2 * n,
                aug@.len() == n,
                forall|ii: int| 0 <= ii < n ==> (#[trigger] aug@[ii])@.len() == w,
                forall|ii: int, jj: int|
                    0 <= ii < n && 0 <= jj < w ==> (#[trigger] aug@[ii]@[jj]).wf(),
                i2 <= n,
                data@.len() == i2,
                forall|ii: int| 0 <= ii < i2 ==> (#[trigger] data@[ii])@.len() == n,
                forall|ii: int, jj: int|
                    0 <= ii < i2 && 0 <= jj < n ==> (#[trigger] data@[ii]@[jj]).wf(),
            decreases n - i2,
        {
            let mut row: Vec<Rat> = Vec::new();
            let mut j3: usize = 0;
            while j3 < n
                invariant
                    n == self.rows,
                    w == 2 * n,
                    aug@.len() == n,
                    forall|ii: int| 0 <= ii < n ==> (#[trigger] aug@[ii])@.len() == w,
                    forall|ii: int, jj: int|
                        0 <= ii < n && 0 <= jj < w ==> (#[trigger] aug@[ii]@[jj]).wf(),
                    i2 < n,
                    j3 <= n,
                    row@.len() == j3,
                    forall|jj: int| 0 <= jj < j3 ==> (#[trigger] row@[jj]).wf(),
                decreases n - j3,
            {
                row.push(aug[i2][n + j3]);
                j3 = j3 + 1;
            }
            data.push(row);
            i2 = i2 + 1;
        }
        Ok(Matrix { rows: n, cols: n, data })
    }

    /// Inverse of a positive-definite matrix.
    ///
    /// Fails with [`Error::CovarianceNotPositiveSemiDefinite`] exactly on the
    /// matrices whose Schur pivots are not all positive; on success the
    /// result is a certified two-sided exact inverse.
    pub fn invert_spd(&self) -> (r: Result<Matrix, Error>)
        requires
            self.wf(),
            self.rows == self.cols,
            self.rows >= 1,
        ensures
            r matches Ok(m) ==> m.wf() && m.rows == self.rows && m.cols == self.rows
                && inverse_pair(self@, m@, self.rows as int) && spd(self@),
            (r matches Err(e) && e == Error::CovarianceNotPositiveSemiDefinite) ==> !spd(self@),
            !spd(self@) && spd_fits(self@) ==> r == Err::<
                Matrix,
                Error,
            >(Error::CovarianceNotPositiveSemiDefinite),
    {
        let pos: bool = match self.spd_check() {
            Ok(b) => b,
            Err(_) => {
                return Err(Error::ArithmeticLimit);
            },
        };
        if !pos {
            return Err(Error::CovarianceNotPositiveSemiDefinite);
        }
        let x: Matrix = match self.invert_raw() {
            Ok(m) => m,
            Err(_) => {
                return Err(Error::ArithmeticLimit);
            },
        };
        let id: Matrix = Matrix::identity(self.rows);
        let p1: Matrix = match self.mul_mat(&x) {
            Ok(m) => m,
            Err(_) => {
                return Err(Error::ArithmeticLimit);
            },
        };
        let p2: Matrix = match x.mul_mat(self) {
            Ok(m) => m,
            Err(_) => {
                return Err(Error::ArithmeticLimit);
            },
        };
        if p1.eq_mat(&id) && p2.eq_mat(&id) {
            Ok(x)
        } else {
            Err(Error::ArithmeticLimit)
        }
    }
}

} // verus!
