//! Exact rational scalars in canonical form.
//!
//! A rational is a pair of a numerator and a positive denominator. The
//! executable arithmetic reduces every result to canonical form (denominator
//! positive, divided by the greatest common divisor), and each operation is
//! specified as an exact equality against its mathematical counterpart
//! [`rv_add`], [`rv_sub`], [`rv_mul`], [`rv_div`] over the pair of integers.
//! Results that leave the 128-bit range are reported as
//! [`Error::ArithmeticLimit`]; no operation panics.
use vstd::prelude::*;

verus! {

use crate::error::Error;

/// A raw spec-level rational is well formed when its denominator is positive.
pub open spec fn rv_wf(p: (int, int)) -> bool {
    p.1 >= 1
}

/// Two raw rationals denote the same number (cross multiplication).
pub open spec fn rv_eqv(p: (int, int), q: (int, int)) -> bool {
    p.0 * q.1 == q.0 * p.1
}

/// Greatest common divisor by Euclid's recursion.
pub open spec fn gcd_nat(a: nat, b: nat) -> nat
    decreases b,
{
    if b == 0 {
        a
    } else {
        gcd_nat(b, a % b)
    }
}

/// Absolute value of an integer, as a natural number.
pub open spec fn abs_int(a: int) -> nat {
    if a < 0 {
        (-a) as nat
    } else {
        a as nat
    }
}

/// Canonical (fully reduced) form of a raw rational with positive
/// denominator: both components divided by their greatest common divisor,
/// the sign carried by the numerator.
pub open spec fn rv_norm(p: (int, int)) -> (int, int) {
    if p.1 < 1 {
        (0, 1)
    } else {
        let g = gcd_nat(abs_int(p.0), p.1 as nat) as int;
        if p.0 < 0 {
            (-((abs_int(p.0) as int) / g), p.1 / g)
        } else {
            (p.0 / g, p.1 / g)
        }
    }
}

/// Raw (unreduced) sum: a/b + c/d = (ad + cb) / bd.
pub open spec fn rv_add_raw(p: (int, int), q: (int, int)) -> (int, int) {
    (p.0 * q.1 + q.0 * p.1, p.1 * q.1)
}

/// Raw difference: a/b - c/d = (ad - cb) / bd.
pub open spec fn rv_sub_raw(p: (int, int), q: (int, int)) -> (int, int) {
    (p.0 * q.1 - q.0 * p.1, p.1 * q.1)
}

/// Raw product: (a/b) * (c/d) = ac / bd.
pub open spec fn rv_mul_raw(p: (int, int), q: (int, int)) -> (int, int) {
    (p.0 * q.0, p.1 * q.1)
}

/// Raw quotient: (a/b) / (c/d) = ad / bc, the sign moved to the numerator.
pub open spec fn rv_div_raw(p: (int, int), q: (int, int)) -> (int, int) {
    if q.0 < 0 {
        (-(p.0 * q.1), -(p.1 * q.0))
    } else {
        (p.0 * q.1, p.1 * q.0)
    }
}

/// The sum in canonical form: what the executable addition returns.
pub open spec fn rv_add(p: (int, int), q: (int, int)) -> (int, int) {
    rv_norm(rv_add_raw(p, q))
}

/// The difference in canonical form.
pub open spec fn rv_sub(p: (int, int), q: (int, int)) -> (int, int) {
    rv_norm(rv_sub_raw(p, q))
}

/// The product in canonical form.
pub open spec fn rv_mul(p: (int, int), q: (int, int)) -> (int, int) {
    rv_norm(rv_mul_raw(p, q))
}

/// The quotient in canonical form.
pub open spec fn rv_div(p: (int, int), q: (int, int)) -> (int, int) {
    rv_norm(rv_div_raw(p, q))
}

/// Negation is exact and needs no reduction.
pub open spec fn rv_neg(p: (int, int)) -> (int, int) {
    (-p.0, p.1)
}

/// Order on raw rationals with positive denominators.
pub open spec fn rv_le(p: (int, int), q: (int, int)) -> bool {
    p.0 * q.1 <= q.0 * p.1
}

/// Whether an integer lies in the 128-bit signed range.
pub open spec fn fits_i128(v: int) -> bool {
    i128::MIN <= v <= i128::MAX
}

/// When the executable addition succeeds: every raw product, the raw
/// denominator and the raw sum stay in the 128-bit range, and the raw
/// numerator is not the smallest 128-bit integer (whose absolute value is
/// unrepresentable).
pub open spec fn rv_add_fits(p: (int, int), q: (int, int)) -> bool {
    &&& fits_i128(p.0 * q.1)
    &&& fits_i128(q.0 * p.1)
    &&& fits_i128(p.1 * q.1)
    &&& fits_i128(p.0 * q.1 + q.0 * p.1)
    &&& p.0 * q.1 + q.0 * p.1 != i128::MIN
}

/// When the executable subtraction succeeds.
pub open spec fn rv_sub_fits(p: (int, int), q: (int, int)) -> bool {
    &&& fits_i128(p.0 * q.1)
    &&& fits_i128(q.0 * p.1)
    &&& fits_i128(p.1 * q.1)
    &&& fits_i128(p.0 * q.1 - q.0 * p.1)
    &&& p.0 * q.1 - q.0 * p.1 != i128::MIN
}

/// When the executable multiplication succeeds.
pub open spec fn rv_mul_fits(p: (int, int), q: (int, int)) -> bool {
    &&& fits_i128(p.0 * q.0)
    &&& fits_i128(p.1 * q.1)
    &&& p.0 * q.0 != i128::MIN
}

/// When the executable division succeeds.
pub open spec fn rv_div_fits(p: (int, int), q: (int, int)) -> bool {
    &&& fits_i128(p.0 * q.1)
    &&& fits_i128(p.1 * q.0)
    &&& p.0 * q.1 != i128::MIN
    &&& p.1 * q.0 != i128::MIN
}

/// When the executable comparisons succeed: the two cross products fit.
pub open spec fn rv_cmp_fits(p: (int, int), q: (int, int)) -> bool {
    fits_i128(p.0 * q.1) && fits_i128(q.0 * p.1)
}

/// An exact rational scalar: numerator and positive denominator.
#[derive(Clone, Copy, Debug, PartialEq, Eq, Structural)]
pub struct Rat {
    num: i128,
    den: i128,
}

impl View for Rat {
    type V = (int, int);

    closed spec fn view(&self) -> (int, int) {
        (self.num as int, self.den as int)
    }
}

/// Addition of raw rationals is commutative, already at the level of the
/// canonical representative.
pub proof fn lemma_rv_add_comm(x: (int, int), y: (int, int))
    ensures
        rv_add(x, y) == rv_add(y, x),
{
    assert(x.1 * y.1 == y.1 * x.1) by (nonlinear_arith);
    assert(x.0 * y.1 + y.0 * x.1 == y.0 * x.1 + x.0 * y.1);
    assert(rv_add_raw(x, y) == rv_add_raw(y, x));
}

/// One half is already canonical.
pub proof fn lemma_half_canonical()
    ensures
        rv_norm((1int, 2int)) == (1int, 2int),
{
    assert(1nat % 2nat == 1nat);
    assert(gcd_nat(1nat, 2nat) == gcd_nat(2nat, 1nat));
    assert(2nat % 1nat == 0nat);
    assert(gcd_nat(2nat, 1nat) == gcd_nat(1nat, 0nat));
    assert(gcd_nat(1nat, 0nat) == 1);
    assert(abs_int(1int) == 1nat);
    assert(rv_norm((1int, 2int)) == (1int / 1int, 2int / 1int));
    assert(1int / 1int == 1int);
    assert(2int / 1int == 2int);
}

/// The view determines the rational and vice versa: two scalars are equal
/// exactly when their views are.
pub proof fn lemma_rat_view_eq(a: Rat, b: Rat)
    ensures
        (a@ == b@) == (a == b),
{
    if a@ == b@ {
        assert(a.num as int == b.num as int);
        assert(a.den as int == b.den as int);
    }
}

proof fn lemma_gcd_bounds(a: nat, b: nat)
    requires
        b > 0,
    ensures
        1 <= gcd_nat(a, b),
        gcd_nat(a, b) <= b,
    decreases b,
{
    let r = a % b;
    if r == 0 {
        assert(gcd_nat(a, b) == gcd_nat(b, 0));
    } else {
        lemma_gcd_bounds(b, r);
    }
}

fn gcd_u128(a: u128, b: u128) -> (g: u128)
    ensures
        g as nat == gcd_nat(a as nat, b as nat),
{
    let mut x: u128 = a;
    let mut y: u128 = b;
    while y != 0
        invariant
            gcd_nat(x as nat, y as nat) == gcd_nat(a as nat, b as nat),
        decreases y,
    {
        let t: u128 = x % y;
        x = y;
        y = t;
    }
    x
}

/// Reduce a numerator/denominator pair to canonical form. Reduction only
/// shrinks magnitudes, so it never fails.
fn norm_parts(num: i128, den: i128) -> (r: Rat)
    requires
        den >= 1,
        num > i128::MIN,
    ensures
        r.wf(),
        r@ == rv_norm((num as int, den as int)),
{
    let neg: bool = num < 0;
    let a: u128 = if neg {
        (-num) as u128
    } else {
        num as u128
    };
    let d: u128 = den as u128;
    let g: u128 = gcd_u128(a, d);
    proof {
        lemma_gcd_bounds(a as nat, d as nat);
    }
    let qn: u128 = a / g;
    let qd: u128 = d / g;
    proof {
        assert(d as nat / g as nat >= 1) by (nonlinear_arith)
            requires
                1 <= g as nat,
                g as nat <= d as nat,
        ;
        assert(a as nat / g as nat <= a as nat) by (nonlinear_arith)
            requires
                g as nat >= 1,
        ;
    }
    let num2: i128 = if neg {
        -(qn as i128)
    } else {
        qn as i128
    };
    let den2: i128 = qd as i128;
    Rat { num: num2, den: den2 }
}

impl Rat {
    /// Well formed: positive denominator, numerator strictly above the
    /// smallest 128-bit integer (so that its absolute value is representable).
    pub open spec fn wf(&self) -> bool {
        rv_wf(self@) && self@.0 > i128::MIN as int
    }

    /// Build the rational `num / den` in canonical form.
    pub fn new(num: i128, den: i128) -> (r: Rat)
        requires
            den >= 1,
            num > i128::MIN,
        ensures
            r.wf(),
            r@ == rv_norm((num as int, den as int)),
    {
        norm_parts(num, den)
    }

    /// The rational with value `v`.
    pub fn from_int(v: i64) -> (r: Rat)
        ensures
            r.wf(),
            r@ == (v as int, 1int),
    {
        Rat { num: v as i128, den: 1 }
    }

    /// Zero.
    pub fn zero() -> (r: Rat)
        ensures
            r.wf(),
            r@ == (0int, 1int),
    {
        Rat { num: 0, den: 1 }
    }

    /// One.
    pub fn one() -> (r: Rat)
        ensures
            r.wf(),
            r@ == (1int, 1int),
    {
        Rat { num: 1, den: 1 }
    }

    /// The numerator.
    pub fn num(&self) -> (n: i128)
        ensures
            n as int == self@.0,
    {
        self.num
    }

    /// The denominator.
    pub fn den(&self) -> (d: i128)
        ensures
            d as int == self@.1,
    {
        self.den
    }

    /// Whether the value is strictly positive.
    pub fn is_positive(&self) -> (b: bool)
        requires
            self.wf(),
        ensures
            b == (self@.0 > 0),
    {
        self.num > 0
    }

    /// Exact sum, in canonical form.
    pub fn add(&self, other: &Rat) -> (r: Result<Rat, Error>)
        requires
            self.wf(),
            other.wf(),
        ensures
            r matches Ok(v) ==> v.wf() && v@ == rv_add(self@, other@),
            r matches Err(e) ==> e == Error::ArithmeticLimit,
            r is Ok <==> rv_add_fits(self@, other@),
    {
        let x1: Option<i128> = self.num.checked_mul(other.den);
        let x2: Option<i128> = other.num.checked_mul(self.den);
        let dd: Option<i128> = self.den.checked_mul(other.den);
        match (x1, x2, dd) {
            (Some(x1v), Some(x2v), Some(ddv)) => match x1v.checked_add(x2v) {
                Some(nv) => {
                    if nv == i128::MIN {
                        Err(Error::ArithmeticLimit)
                    } else {
                        proof {
                            assert(self@.1 * other@.1 >= 1) by (nonlinear_arith)
                                requires
                                    self@.1 >= 1,
                                    other@.1 >= 1,
                            ;
                        }
                        Ok(norm_parts(nv, ddv))
                    }
                },
                None => Err(Error::ArithmeticLimit),
            },
            _ => Err(Error::ArithmeticLimit),
        }
    }

    /// Exact difference, in canonical form.
    pub fn sub(&self, other: &Rat) -> (r: Result<Rat, Error>)
        requires
            self.wf(),
            other.wf(),
        ensures
            r matches Ok(v) ==> v.wf() && v@ == rv_sub(self@, other@),
            r matches Err(e) ==> e == Error::ArithmeticLimit,
            r is Ok <==> rv_sub_fits(self@, other@),
    {
        let x1: Option<i128> = self.num.checked_mul(other.den);
        let x2: Option<i128> = other.num.checked_mul(self.den);
        let dd: Option<i128> = self.den.checked_mul(other.den);
        match (x1, x2, dd) {
            (Some(x1v), Some(x2v), Some(ddv)) => match x1v.checked_sub(x2v) {
                Some(nv) => {
                    if nv == i128::MIN {
                        Err(Error::ArithmeticLimit)
                    } else {
                        proof {
                            assert(self@.1 * other@.1 >= 1) by (nonlinear_arith)
                                requires
                                    self@.1 >= 1,
                                    other@.1 >= 1,
                            ;
                        }
                        Ok(norm_parts(nv, ddv))
                    }
                },
                None => Err(Error::ArithmeticLimit),
            },
            _ => Err(Error::ArithmeticLimit),
        }
    }

    /// Exact product, in canonical form.
    pub fn mul(&self, other: &Rat) -> (r: Result<Rat, Error>)
        requires
            self.wf(),
            other.wf(),
        ensures
            r matches Ok(v) ==> v.wf() && v@ == rv_mul(self@, other@),
            r matches Err(e) ==> e == Error::ArithmeticLimit,
            r is Ok <==> rv_mul_fits(self@, other@),
    {
        let nn: Option<i128> = self.num.checked_mul(other.num);
        let dd: Option<i128> = self.den.checked_mul(other.den);
        match (nn, dd) {
            (Some(nv), Some(ddv)) => {
                if nv == i128::MIN {
                    Err(Error::ArithmeticLimit)
                } else {
                    proof {
                        assert(self@.1 * other@.1 >= 1) by (nonlinear_arith)
                            requires
                                self@.1 >= 1,
                                other@.1 >= 1,
                        ;
                    }
                    Ok(norm_parts(nv, ddv))
                }
            },
            _ => Err(Error::ArithmeticLimit),
        }
    }

    /// Exact quotient by a non-zero rational, in canonical form.
    pub fn div(&self, other: &Rat) -> (r: Result<Rat, Error>)
        requires
            self.wf(),
            other.wf(),
            other@.0 != 0,
        ensures
            r matches Ok(v) ==> v.wf() && v@ == rv_div(self@, other@),
            r matches Err(e) ==> e == Error::ArithmeticLimit,
            r is Ok <==> rv_div_fits(self@, other@),
    {
        let nn: Option<i128> = self.num.checked_mul(other.den);
        let dd: Option<i128> = self.den.checked_mul(other.num);
        match (nn, dd) {
            (Some(nv), Some(ddv)) => {
                if nv == i128::MIN || ddv == i128::MIN {
                    Err(Error::ArithmeticLimit)
                } else {
                    if other.num < 0 {
                        proof {
                            assert(self@.1 * other@.0 <= -1) by (nonlinear_arith)
                                requires
                                    self@.1 >= 1,
                                    other@.0 <= -1,
                            ;
                        }
                        Ok(norm_parts(-nv, -ddv))
                    } else {
                        proof {
                            assert(self@.1 * other@.0 >= 1) by (nonlinear_arith)
                                requires
                                    self@.1 >= 1,
                                    other@.0 >= 1,
                            ;
                        }
                        Ok(norm_parts(nv, ddv))
                    }
                }
            },
            _ => Err(Error::ArithmeticLimit),
        }
    }

    /// Exact negation.
    pub fn neg(&self) -> (r: Rat)
        requires
            self.wf(),
        ensures
            r.wf(),
            r@ == rv_neg(self@),
    {
        Rat { num: -self.num, den: self.den }
    }

    /// Exact comparison: whether `self <= other`.
    pub fn le(&self, other: &Rat) -> (r: Result<bool, Error>)
        requires
            self.wf(),
            other.wf(),
        ensures
            r matches Ok(b) ==> b == rv_le(self@, other@),
            r matches Err(e) ==> e == Error::ArithmeticLimit,
            r is Ok <==> rv_cmp_fits(self@, other@),
    {
        let x1: Option<i128> = self.num.checked_mul(other.den);
        let x2: Option<i128> = other.num.checked_mul(self.den);
        match (x1, x2) {
            (Some(x1v), Some(x2v)) => Ok(x1v <= x2v),
            _ => Err(Error::ArithmeticLimit),
        }
    }

    /// Exact value equality (cross multiplication); two well-formed canonical
    /// rationals of the same value also compare equal with `==`.
    pub fn eqv(&self, other: &Rat) -> (r: Result<bool, Error>)
        requires
            self.wf(),
            other.wf(),
        ensures
            r matches Ok(b) ==> b == rv_eqv(self@, other@),
            r matches Err(e) ==> e == Error::ArithmeticLimit,
            r is Ok <==> rv_cmp_fits(self@, other@),
    {
        let x1: Option<i128> = self.num.checked_mul(other.den);
        let x2: Option<i128> = other.num.checked_mul(self.den);
        match (x1, x2) {
            (Some(x1v), Some(x2v)) => Ok(x1v == x2v),
            _ => Err(Error::ArithmeticLimit),
        }
    }
}

} // verus!
