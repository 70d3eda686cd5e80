//! Dense matrices of exact rationals.
//!
//! A matrix view is a sequence of rows of raw rational pairs. The spec-level
//! operations [`m_add`], [`m_sub`], [`m_mul`], [`m_transpose`], [`m_scale`]
//! and [`m_id`] define the linear algebra the filter is specified against;
//! every executable operation returns exactly the matrix its spec
//! counterpart describes (entries in canonical form), or reports
//! [`Error::ArithmeticLimit`] when the 128-bit range is exhausted.
use vstd::prelude::*;

verus! {

use crate::error::Error;
use crate::rational::{Rat, rv_add, rv_sub, rv_mul, lemma_rat_view_eq};
use crate::rational::{rv_add_fits, rv_mul_fits, rv_sub_fits};

/// Shape of a matrix view: `r` rows, each of length `c`.
pub open spec fn m_shape(s: Seq<Seq<(int, int)>>, r: int, c: int) -> bool {
    s.len() == r && (forall|i: int| 0 <= i < s.len() ==> (#[trigger] s[i]).len() == c)
}

/// Number of columns of a non-empty matrix view.
pub open spec fn m_cols(s: Seq<Seq<(int, int)>>) -> int {
    if s.len() > 0 {
        s[0].len() as int
    } else {
        0
    }
}

/// Inner product of row `row` with column `j` of `b`, over the first `k`
/// terms, each partial sum in canonical form.
pub open spec fn m_dot(row: Seq<(int, int)>, b: Seq<Seq<(int, int)>>, j: int, k: int) -> (int, int)
    decreases k,
{
    if k <= 0 {
        (0int, 1int)
    } else {
        rv_add(m_dot(row, b, j, k - 1), rv_mul(row[k - 1], b[k - 1][j]))
    }
}

/// Matrix product.
pub open spec fn m_mul(a: Seq<Seq<(int, int)>>, b: Seq<Seq<(int, int)>>) -> Seq<Seq<(int, int)>> {
    Seq::new(a.len(), |i: int| Seq::new(m_cols(b) as nat, |j: int| m_dot(a[i], b, j, m_cols(a))))
}

/// Entrywise sum.
pub open spec fn m_add(a: Seq<Seq<(int, int)>>, b: Seq<Seq<(int, int)>>) -> Seq<Seq<(int, int)>> {
    Seq::new(a.len(), |i: int| Seq::new(a[i].len(), |j: int| rv_add(a[i][j], b[i][j])))
}

/// Entrywise difference.
pub open spec fn m_sub(a: Seq<Seq<(int, int)>>, b: Seq<Seq<(int, int)>>) -> Seq<Seq<(int, int)>> {
    Seq::new(a.len(), |i: int| Seq::new(a[i].len(), |j: int| rv_sub(a[i][j], b[i][j])))
}

/// Transpose of an `r` by `c` matrix view.
pub open spec fn m_transpose(s: Seq<Seq<(int, int)>>, r: int, c: int) -> Seq<Seq<(int, int)>> {
    Seq::new(c as nat, |j: int| Seq::new(r as nat, |i: int| s[i][j]))
}

/// The `n` by `n` identity.
pub open spec fn m_id(n: int) -> Seq<Seq<(int, int)>> {
    Seq::new(
        n as nat,
        |i: int| Seq::new(n as nat, |j: int| if i == j { (1int, 1int) } else { (0int, 1int) }),
    )
}

/// Multiplication of every entry by the scalar `c`.
pub open spec fn m_scale(s: Seq<Seq<(int, int)>>, c: (int, int)) -> Seq<Seq<(int, int)>> {
    Seq::new(s.len(), |i: int| Seq::new(s[i].len(), |j: int| rv_mul(c, s[i][j])))
}

/// Symmetry of a square matrix view: entries are (exactly) mirrored.
pub open spec fn m_sym(s: Seq<Seq<(int, int)>>, n: int) -> bool {
    m_shape(s, n, n) && (forall|i: int, j: int|
        0 <= i < n && 0 <= j < n ==> #[trigger] s[i][j] == s[j][i])
}

/// When the entrywise sum of two same-shape matrices stays representable.
pub open spec fn m_add_fits(a: Seq<Seq<(int, int)>>, b: Seq<Seq<(int, int)>>) -> bool {
    forall|i: int, j: int|
        0 <= i < a.len() && 0 <= j < a[i].len() ==> rv_add_fits(#[trigger] a[i][j], b[i][j])
}

/// When the entrywise difference stays representable.
pub open spec fn m_sub_fits(a: Seq<Seq<(int, int)>>, b: Seq<Seq<(int, int)>>) -> bool {
    forall|i: int, j: int|
        0 <= i < a.len() && 0 <= j < a[i].len() ==> rv_sub_fits(#[trigger] a[i][j], b[i][j])
}

/// When scaling every entry by `c` stays representable.
pub open spec fn m_scale_fits(s: Seq<Seq<(int, int)>>, c: (int, int)) -> bool {
    forall|i: int, j: int|
        0 <= i < s.len() && 0 <= j < s[i].len() ==> rv_mul_fits(c, #[trigger] s[i][j])
}

/// When the first `k` terms of the inner product of `row` with column `j`
/// of `b` stay representable, each product and each partial sum.
pub open spec fn m_dot_fits(
    row: Seq<(int, int)>,
    b: Seq<Seq<(int, int)>>,
    j: int,
    k: int,
) -> bool
    decreases k,
{
    if k <= 0 {
        true
    } else {
        &&& m_dot_fits(row, b, j, k - 1)
        &&& rv_mul_fits(row[k - 1], b[k - 1][j])
        &&& rv_add_fits(m_dot(row, b, j, k - 1), rv_mul(row[k - 1], b[k - 1][j]))
    }
}

/// When the whole matrix product stays representable.
pub open spec fn m_mul_fits(a: Seq<Seq<(int, int)>>, b: Seq<Seq<(int, int)>>) -> bool {
    forall|i: int, j: int|
        0 <= i < a.len() && 0 <= j < m_cols(b) ==> #[trigger] m_dot_fits(a[i], b, j, m_cols(a))
}

/// A failed term makes every longer inner product fail too.
proof fn lemma_dot_fits_mono(row: Seq<(int, int)>, b: Seq<Seq<(int, int)>>, j: int, k1: int, k2: int)
    requires
        0 <= k1 <= k2,
        !m_dot_fits(row, b, j, k1),
    ensures
        !m_dot_fits(row, b, j, k2),
    decreases k2,
{
    if k1 < k2 {
        lemma_dot_fits_mono(row, b, j, k1, k2 - 1);
    }
}

/// Halving the sum of a square matrix and its transpose yields an exactly
/// symmetric matrix, whatever the input.
pub proof fn lemma_forced_symmetric(a: Seq<Seq<(int, int)>>, n: int)
    requires
        m_shape(a, n, n),
    ensures
        m_sym(m_scale(m_add(a, m_transpose(a, n, n)), (1int, 2int)), n),
{
    let sum = m_add(a, m_transpose(a, n, n));
    let sc = m_scale(sum, (1int, 2int));
    assert forall|i: int, j: int| 0 <= i < n && 0 <= j < n implies #[trigger] sc[i][j]
        == sc[j][i] by {
        crate::rational::lemma_rv_add_comm(a[i][j], a[j][i]);
    }
}

/// A dense matrix of exact rationals, stored row-major.
#[derive(Debug)]
pub struct Matrix {
    pub rows: usize,
    pub cols: usize,
    pub data: Vec<Vec<Rat>>,
}

impl View for Matrix {
    type V = Seq<Seq<(int, int)>>;

    open spec fn view(&self) -> Seq<Seq<(int, int)>> {
        Seq::new(
            self.data@.len(),
            |i: int| Seq::new(self.data@[i]@.len(), |j: int| self.data@[i]@[j]@),
        )
    }
}

impl Matrix {
    /// Well formed: the stored shape matches the data and every entry is a
    /// well-formed rational.
    pub open spec fn wf(&self) -> bool {
        &&& self.data@.len() == self.rows
        &&& forall|i: int| 0 <= i < self.data@.len() ==> (#[trigger] self.data@[i])@.len()
            == self.cols
        &&& forall|i: int, j: int|
            0 <= i < self.data@.len() && 0 <= j < self.data@[i]@.len() ==> (
            #[trigger] self.data@[i]@[j]).wf()
    }

    /// Build a matrix from rows of entries.
    pub fn new(rows: usize, cols: usize, data: Vec<Vec<Rat>>) -> (r: Matrix)
        requires
            data@.len() == rows,
            forall|i: int| 0 <= i < data@.len() ==> (#[trigger] data@[i])@.len() == cols,
            forall|i: int, j: int|
                0 <= i < data@.len() && 0 <= j < data@[i]@.len() ==> (
                #[trigger] data@[i]@[j]).wf(),
        ensures
            r.wf(),
            r.rows == rows,
            r.cols == cols,
            r@ == (Matrix { rows, cols, data })@,
    {
        Matrix { rows, cols, data }
    }

    /// Read one entry.
    pub fn entry(&self, i: usize, j: usize) -> (e: Rat)
        requires
            self.wf(),
            i < self.rows,
            j < self.cols,
        ensures
            e.wf(),
            e@ == self@[i as int][j as int],
    {
        self.data[i][j]
    }

    /// An identical copy.
    pub fn duplicate(&self) -> (r: Matrix)
        requires
            self.wf(),
        ensures
            r.wf(),
            r.rows == self.rows,
            r.cols == self.cols,
            r@ == self@,
    {
        let mut data: Vec<Vec<Rat>> = Vec::new();
        let mut i: usize = 0;
        while i < self.rows
            invariant
                self.wf(),
                i <= self.rows,
                data@.len() == i,
                forall|ii: int| 0 <= ii < i ==> (#[trigger] data@[ii])@.len() == self.cols,
                forall|ii: int, jj: int|
                    0 <= ii < i && 0 <= jj < self.cols ==> #[trigger] data@[ii]@[jj]
                        == self.data@[ii]@[jj],
            decreases self.rows - i,
        {
            let mut row: Vec<Rat> = Vec::new();
            let mut j: usize = 0;
            while j < self.cols
                invariant
                    self.wf(),
                    i < self.rows,
                    j <= self.cols,
                    row@.len() == j,
                    forall|jj: int| 0 <= jj < j ==> #[trigger] row@[jj] == self.data@[i as int]@[jj],
                decreases self.cols - j,
            {
                row.push(self.data[i][j]);
                j = j + 1;
            }
            data.push(row);
            i = i + 1;
        }
        let r = Matrix { rows: self.rows, cols: self.cols, data };
        proof {
            assert(r@ =~~= self@);
        }
        r
    }

    /// The identity matrix of size `n`.
    pub fn identity(n: usize) -> (r: Matrix)
        ensures
            r.wf(),
            r.rows == n,
            r.cols == n,
            r@ == m_id(n as int),
    {
        let mut data: Vec<Vec<Rat>> = Vec::new();
        let mut i: usize = 0;
        while i < n
            invariant
                i <= n,
                data@.len() == i,
                forall|ii: int| 0 <= ii < i ==> (#[trigger] data@[ii])@.len() == n,
                forall|ii: int, jj: int|
                    0 <= ii < i && 0 <= jj < n ==> (#[trigger] data@[ii]@[jj]).wf()
                        && data@[ii]@[jj]@ == (if ii == jj { (1int, 1int) } else { (0int, 1int) }),
            decreases n - i,
        {
            let mut row: Vec<Rat> = Vec::new();
            let mut j: usize = 0;
            while j < n
                invariant
                    i < n,
                    j <= n,
                    row@.len() == j,
                    forall|jj: int| 0 <= jj < j ==> (#[trigger] row@[jj]).wf()
                        && row@[jj]@ == (if i == jj { (1int, 1int) } else { (0int, 1int) }),
                decreases n - j,
            {
                if i == j {
                    row.push(Rat::one());
                } else {
                    row.push(Rat::zero());
                }
                j = j + 1;
            }
            data.push(row);
            i = i + 1;
        }
        let r = Matrix { rows: n, cols: n, data };
        proof {
            assert(r@ =~~= m_id(n as int));
        }
        r
    }

    /// Entrywise sum.
    pub fn add_mat(&self, other: &Matrix) -> (r: Result<Matrix, Error>)
        requires
            self.wf(),
            other.wf(),
            self.rows == other.rows,
            self.cols == other.cols,
        ensures
            r matches Ok(m) ==> m.wf() && m.rows == self.rows && m.cols == self.cols && m@
                == m_add(self@, other@),
            r matches Err(e) ==> e == Error::ArithmeticLimit,
            r is Ok <==> m_add_fits(self@, other@),
    {
        let mut data: Vec<Vec<Rat>> = Vec::new();
        let mut i: usize = 0;
        while i < self.rows
            invariant
                self.wf(),
                other.wf(),
                self.rows == other.rows,
                self.cols == other.cols,
                i <= self.rows,
                data@.len() == i,
                forall|ii: int| 0 <= ii < i ==> (#[trigger] data@[ii])@.len() == self.cols,
                forall|ii: int, jj: int|
                    0 <= ii < i && 0 <= jj < self.cols ==> (#[trigger] data@[ii]@[jj]).wf()
                        && data@[ii]@[jj]@ == rv_add(self@[ii][jj], other@[ii][jj]),
                forall|ii: int, jj: int|
                    0 <= ii < i && 0 <= jj < self.cols ==> rv_add_fits(
                        #[trigger] self@[ii][jj],
                        other@[ii][jj],
                    ),
            decreases self.rows - i,
        {
            let mut row: Vec<Rat> = Vec::new();
            let mut j: usize = 0;
            while j < self.cols
                invariant
                    self.wf(),
                    other.wf(),
                    self.rows == other.rows,
                    self.cols == other.cols,
                    i < self.rows,
                    j <= self.cols,
                    row@.len() == j,
                    forall|jj: int| 0 <= jj < j ==> (#[trigger] row@[jj]).wf()
                        && row@[jj]@ == rv_add(self@[i as int][jj], other@[i as int][jj]),
                    forall|ii: int, jj: int|
                        0 <= ii < i && 0 <= jj < self.cols ==> rv_add_fits(
                            #[trigger] self@[ii][jj],
                            other@[ii][jj],
                        ),
                    forall|jj: int|
                        0 <= jj < j ==> rv_add_fits(#[trigger] self@[i as int][jj], other@[i as int][jj]),
                decreases self.cols - j,
            {
                let a: Rat = self.data[i][j];
                let b: Rat = other.data[i][j];
                let s: Rat = match a.add(&b) {
                    Ok(v) => v,
                    Err(e) => {
                        proof {
                            assert(!rv_add_fits(
                                self@[i as int][j as int],
                                other@[i as int][j as int],
                            ));
                        }
                        return Err(e);
                    },
                };
                row.push(s);
                j = j + 1;
            }
            data.push(row);
            i = i + 1;
        }
        let r = Matrix { rows: self.rows, cols: self.cols, data };
        proof {
            assert(r@ =~~= m_add(self@, other@));
        }
        Ok(r)
    }

    /// Entrywise difference.
    pub fn sub_mat(&self, other: &Matrix) -> (r: Result<Matrix, Error>)
        requires
            self.wf(),
            other.wf(),
            self.rows == other.rows,
            self.cols == other.cols,
        ensures
            r matches Ok(m) ==> m.wf() && m.rows == self.rows && m.cols == self.cols && m@
                == m_sub(self@, other@),
            r matches Err(e) ==> e == Error::ArithmeticLimit,
            r is Ok <==> m_sub_fits(self@, other@),
    {
        let mut data: Vec<Vec<Rat>> = Vec::new();
        let mut i: usize = 0;
        while i < self.rows
            invariant
                self.wf(),
                other.wf(),
                self.rows == other.rows,
                self.cols == other.cols,
                i <= self.rows,
                data@.len() == i,
                forall|ii: int| 0 <= ii < i ==> (#[trigger] data@[ii])@.len() == self.cols,
                forall|ii: int, jj: int|
                    0 <= ii < i && 0 <= jj < self.cols ==> (#[trigger] data@[ii]@[jj]).wf()
                        && data@[ii]@[jj]@ == rv_sub(self@[ii][jj], other@[ii][jj]),
                forall|ii: int, jj: int|
                    0 <= ii < i && 0 <= jj < self.cols ==> rv_sub_fits(
                        #[trigger] self@[ii][jj],
                        other@[ii][jj],
                    ),
            decreases self.rows - i,
        {
            let mut row: Vec<Rat> = Vec::new();
            let mut j: usize = 0;
            while j < self.cols
                invariant
                    self.wf(),
                    other.wf(),
                    self.rows == other.rows,
                    self.cols == other.cols,
                    i < self.rows,
                    j <= self.cols,
                    row@.len() == j,
                    forall|jj: int| 0 <= jj < j ==> (#[trigger] row@[jj]).wf()
                        && row@[jj]@ == rv_sub(self@[i as int][jj], other@[i as int][jj]),
                    forall|ii: int, jj: int|
                        0 <= ii < i && 0 <= jj < self.cols ==> rv_sub_fits(
                            #[trigger] self@[ii][jj],
                            other@[ii][jj],
                        ),
                    forall|jj: int|
                        0 <= jj < j ==> rv_sub_fits(#[trigger] self@[i as int][jj], other@[i as int][jj]),
                decreases self.cols - j,
            {
                let a: Rat = self.data[i][j];
                let b: Rat = other.data[i][j];
                let s: Rat = match a.sub(&b) {
                    Ok(v) => v,
                    Err(e) => {
                        proof {
                            assert(!rv_sub_fits(
                                self@[i as int][j as int],
                                other@[i as int][j as int],
                            ));
                        }
                        return Err(e);
                    },
                };
                row.push(s);
                j = j + 1;
            }
            data.push(row);
            i = i + 1;
        }
        let r = Matrix { rows: self.rows, cols: self.cols, data };
        proof {
            assert(r@ =~~= m_sub(self@, other@));
        }
        Ok(r)
    }

    /// Matrix product.
    pub fn mul_mat(&self, other: &Matrix) -> (r: Result<Matrix, Error>)
        requires
            self.wf(),
            other.wf(),
            self.cols == other.rows,
            other.rows >= 1,
        ensures
            r matches Ok(m) ==> m.wf() && m.rows == self.rows && m.cols == other.cols && m@
                == m_mul(self@, other@),
            r matches Err(e) ==> e == Error::ArithmeticLimit,
            r is Ok <==> m_mul_fits(self@, other@),
    {
        let mut data: Vec<Vec<Rat>> = Vec::new();
        let mut i: usize = 0;
        proof {
            assert(m_cols(other@) == other.cols as int);
        }
        while i < self.rows
            invariant
                self.wf(),
                other.wf(),
                self.cols == other.rows,
                other.rows >= 1,
                i <= self.rows,
                data@.len() == i,
                forall|ii: int| 0 <= ii < i ==> (#[trigger] data@[ii])@.len() == other.cols,
                forall|ii: int, jj: int|
                    0 <= ii < i && 0 <= jj < other.cols ==> (#[trigger] data@[ii]@[jj]).wf()
                        && data@[ii]@[jj]@ == m_dot(self@[ii], other@, jj, self.cols as int),
                forall|ii: int, jj: int|
                    0 <= ii < i && 0 <= jj < other.cols ==> #[trigger] m_dot_fits(
                        self@[ii],
                        other@,
                        jj,
                        self.cols as int,
                    ),
            decreases self.rows - i,
        {
            let mut row: Vec<Rat> = Vec::new();
            let mut j: usize = 0;
            while j < other.cols
                invariant
                    self.wf(),
                    other.wf(),
                    self.cols == other.rows,
                    other.rows >= 1,
                    i < self.rows,
                    j <= other.cols,
                    row@.len() == j,
                    forall|jj: int| 0 <= jj < j ==> (#[trigger] row@[jj]).wf()
                        && row@[jj]@ == m_dot(self@[i as int], other@, jj, self.cols as int),
                    forall|ii: int, jj: int|
                        0 <= ii < i && 0 <= jj < other.cols ==> #[trigger] m_dot_fits(
                            self@[ii],
                            other@,
                            jj,
                            self.cols as int,
                        ),
                    forall|jj: int|
                        0 <= jj < j ==> #[trigger] m_dot_fits(
                            self@[i as int],
                            other@,
                            jj,
                            self.cols as int,
                        ),
                decreases other.cols - j,
            {
                let mut acc: Rat = Rat::zero();
                let mut k: usize = 0;
                while k < self.cols
                    invariant
                        self.wf(),
                        other.wf(),
                        self.cols == other.rows,
                        other.rows >= 1,
                        i < self.rows,
                        j < other.cols,
                        k <= self.cols,
                        acc.wf(),
                        acc@ == m_dot(self@[i as int], other@, j as int, k as int),
                        m_dot_fits(self@[i as int], other@, j as int, k as int),
                    decreases self.cols - k,
                {
                    let a: Rat = self.data[i][k];
                    let b: Rat = other.data[k][j];
                    let p: Rat = match a.mul(&b) {
                        Ok(v) => v,
                        Err(e) => {
                            proof {
                                assert(!m_dot_fits(
                                    self@[i as int],
                                    other@,
                                    j as int,
                                    k + 1 as int,
                                ));
                                lemma_dot_fits_mono(
                                    self@[i as int],
                                    other@,
                                    j as int,
                                    k + 1 as int,
                                    self.cols as int,
                                );
                                assert(m_cols(self@) == self.cols as int);
                                assert(m_cols(other@) == other.cols as int);
                                assert(!m_mul_fits(self@, other@));
                            }
                            return Err(e);
                        },
                    };
                    acc = match acc.add(&p) {
                        Ok(v) => v,
                        Err(e) => {
                            proof {
                                assert(!m_dot_fits(
                                    self@[i as int],
                                    other@,
                                    j as int,
                                    k + 1 as int,
                                ));
                                lemma_dot_fits_mono(
                                    self@[i as int],
                                    other@,
                                    j as int,
                                    k + 1 as int,
                                    self.cols as int,
                                );
                                assert(m_cols(self@) == self.cols as int);
                                assert(m_cols(other@) == other.cols as int);
                                assert(!m_mul_fits(self@, other@));
                            }
                            return Err(e);
                        },
                    };
                    k = k + 1;
                }
                row.push(acc);
                j = j + 1;
            }
            data.push(row);
            i = i + 1;
        }
        let r = Matrix { rows: self.rows, cols: other.cols, data };
        proof {
            assert(r@ =~~= m_mul(self@, other@));
            assert forall|ii: int, jj: int|
                0 <= ii < self@.len() && 0 <= jj < m_cols(other@) implies #[trigger] m_dot_fits(
                self@[ii],
                other@,
                jj,
                m_cols(self@),
            ) by {
                assert(self@.len() > 0);
                assert(m_cols(self@) == self.cols as int);
            }
            assert(m_mul_fits(self@, other@));
        }
        Ok(r)
    }

    /// Transpose.
    pub fn transpose(&self) -> (r: Matrix)
        requires
            self.wf(),
        ensures
            r.wf(),
            r.rows == self.cols,
            r.cols == self.rows,
            r@ == m_transpose(self@, self.rows as int, self.cols as int),
    {
        let mut data: Vec<Vec<Rat>> = Vec::new();
        let mut j: usize = 0;
        while j < self.cols
            invariant
                self.wf(),
                j <= self.cols,
                data@.len() == j,
                forall|jj: int| 0 <= jj < j ==> (#[trigger] data@[jj])@.len() == self.rows,
                forall|jj: int, ii: int|
                    0 <= jj < j && 0 <= ii < self.rows ==> (#[trigger] data@[jj]@[ii]).wf()
                        && data@[jj]@[ii]@ == self@[ii][jj],
            decreases self.cols - j,
        {
            let mut row: Vec<Rat> = Vec::new();
            let mut i: usize = 0;
            while i < self.rows
                invariant
                    self.wf(),
                    j < self.cols,
                    i <= self.rows,
                    row@.len() == i,
                    forall|ii: int| 0 <= ii < i ==> (#[trigger] row@[ii]).wf()
                        && row@[ii]@ == self@[ii][j as int],
                decreases self.rows - i,
            {
                row.push(self.data[i][j]);
                i = i + 1;
            }
            data.push(row);
            j = j + 1;
        }
        let r = Matrix { rows: self.cols, cols: self.rows, data };
        proof {
            assert(r@ =~~= m_transpose(self@, self.rows as int, self.cols as int));
        }
        r
    }

    /// Multiplication of every entry by the scalar `c`.
    pub fn scale(&self, c: &Rat) -> (r: Result<Matrix, Error>)
        requires
            self.wf(),
            c.wf(),
        ensures
            r matches Ok(m) ==> m.wf() && m.rows == self.rows && m.cols == self.cols && m@
                == m_scale(self@, c@),
            r matches Err(e) ==> e == Error::ArithmeticLimit,
            r is Ok <==> m_scale_fits(self@, c@),
    {
        let mut data: Vec<Vec<Rat>> = Vec::new();
        let mut i: usize = 0;
        while i < self.rows
            invariant
                self.wf(),
                c.wf(),
                i <= self.rows,
                data@.len() == i,
                forall|ii: int| 0 <= ii < i ==> (#[trigger] data@[ii])@.len() == self.cols,
                forall|ii: int, jj: int|
                    0 <= ii < i && 0 <= jj < self.cols ==> (#[trigger] data@[ii]@[jj]).wf()
                        && data@[ii]@[jj]@ == rv_mul(c@, self@[ii][jj]),
                forall|ii: int, jj: int|
                    0 <= ii < i && 0 <= jj < self.cols ==> rv_mul_fits(c@, #[trigger] self@[ii][jj]),
            decreases self.rows - i,
        {
            let mut row: Vec<Rat> = Vec::new();
            let mut j: usize = 0;
            while j < self.cols
                invariant
                    self.wf(),
                    c.wf(),
                    i < self.rows,
                    j <= self.cols,
                    row@.len() == j,
                    forall|jj: int| 0 <= jj < j ==> (#[trigger] row@[jj]).wf()
                        && row@[jj]@ == rv_mul(c@, self@[i as int][jj]),
                    forall|ii: int, jj: int|
                        0 <= ii < i && 0 <= jj < self.cols ==> rv_mul_fits(
                            c@,
                            #[trigger] self@[ii][jj],
                        ),
                    forall|jj: int|
                        0 <= jj < j ==> rv_mul_fits(c@, #[trigger] self@[i as int][jj]),
            decreases self.cols - j,
            {
                let e: Rat = self.data[i][j];
                let p: Rat = match c.mul(&e) {
                    Ok(v) => v,
                    Err(err) => {
                        proof {
                            assert(!rv_mul_fits(c@, self@[i as int][j as int]));
                        }
                        return Err(err);
                    },
                };
                row.push(p);
                j = j + 1;
            }
            data.push(row);
            i = i + 1;
        }
        let r = Matrix { rows: self.rows, cols: self.cols, data };
        proof {
            assert(r@ =~~= m_scale(self@, c@));
        }
        Ok(r)
    }

    /// Exact structural equality of two matrices of the same shape.
    pub fn eq_mat(&self, other: &Matrix) -> (r: bool)
        requires
            self.wf(),
            other.wf(),
            self.rows == other.rows,
            self.cols == other.cols,
        ensures
            r == (self@ == other@),
    {
        let mut i: usize = 0;
        while i < self.rows
            invariant
                self.wf(),
                other.wf(),
                self.rows == other.rows,
                self.cols == other.cols,
                i <= self.rows,
                forall|ii: int, jj: int|
                    0 <= ii < i && 0 <= jj < self.cols ==> #[trigger] self@[ii][jj]
                        == other@[ii][jj],
            decreases self.rows - i,
        {
            let mut j: usize = 0;
            while j < self.cols
                invariant
                    self.wf(),
                    other.wf(),
                    self.rows == other.rows,
                    self.cols == other.cols,
                    i < self.rows,
                    j <= self.cols,
                    forall|jj: int|
                        0 <= jj < j ==> #[trigger] self@[i as int][jj] == other@[i as int][jj],
                decreases self.cols - j,
            {
                let a: Rat = self.data[i][j];
                let b: Rat = other.data[i][j];
                if !(a == b) {
                    proof {
                        lemma_rat_view_eq(a, b);
                        assert(self@[i as int][j as int] != other@[i as int][j as int]);
                    }
                    return false;
                }
                j = j + 1;
            }
            i = i + 1;
        }
        proof {
            assert(self@ =~~= other@);
        }
        true
    }

    /// Exact symmetry check of a square matrix.
    pub fn symmetric(&self) -> (r: bool)
        requires
            self.wf(),
            self.rows == self.cols,
        ensures
            r == m_sym(self@, self.rows as int),
    {
        let mut i: usize = 0;
        while i < self.rows
            invariant
                self.wf(),
                self.rows == self.cols,
                i <= self.rows,
                forall|ii: int, jj: int|
                    0 <= ii < i && 0 <= jj < self.rows ==> #[trigger] self@[ii][jj]
                        == self@[jj][ii],
            decreases self.rows - i,
        {
            let mut j: usize = 0;
            while j < self.rows
                invariant
                    self.wf(),
                    self.rows == self.cols,
                    i < self.rows,
                    j <= self.rows,
                    forall|ii: int, jj: int|
                        0 <= ii < i && 0 <= jj < self.rows ==> #[trigger] self@[ii][jj]
                            == self@[jj][ii],
                    forall|jj: int|
                        0 <= jj < j ==> #[trigger] self@[i as int][jj] == self@[jj][i as int],
                decreases self.rows - j,
            {
                let a: Rat = self.data[i][j];
                let b: Rat = self.data[j][i];
                if !(a == b) {
                    proof {
                        lemma_rat_view_eq(a, b);
                        assert(self@[i as int][j as int] != self@[j as int][i as int]);
                    }
                    return false;
                }
                j = j + 1;
            }
            i = i + 1;
        }
        true
    }
}

} // verus!
