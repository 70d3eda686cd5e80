//! Tests of the exact rational scalars and matrices.
use adskalman::matrix::Matrix;
use adskalman::rational::Rat;
use adskalman::Error;

fn r(n: i128, d: i128) -> Rat {
    Rat::new(n, d)
}

fn mat(rows: usize, cols: usize, entries: Vec<Vec<Rat>>) -> Matrix {
    Matrix::new(rows, cols, entries)
}

#[test]
fn rat_canonical_form() {
    assert_eq!(r(2, 4), r(1, 2));
    assert_eq!(r(-6, 4), r(-3, 2));
    assert_eq!(r(0, 7), r(0, 1));
    assert_eq!(r(5, 1).num(), 5);
    assert_eq!(r(5, 1).den(), 1);
    assert_eq!(r(-9, 12).num(), -3);
    assert_eq!(r(-9, 12).den(), 4);
}

#[test]
fn rat_arithmetic_exact() {
    let a = r(1, 3);
    let b = r(1, 6);
    assert_eq!(a.add(&b).unwrap(), r(1, 2));
    assert_eq!(a.sub(&b).unwrap(), r(1, 6));
    assert_eq!(a.mul(&b).unwrap(), r(1, 18));
    assert_eq!(a.div(&b).unwrap(), r(2, 1));
    assert_eq!(r(1, 2).neg(), r(-1, 2));
    assert_eq!(r(-2, 3).div(&r(-1, 3)).unwrap(), r(2, 1));
    assert!(r(1, 3).le(&r(1, 2)).unwrap());
    assert!(!r(1, 2).le(&r(1, 3)).unwrap());
    assert!(r(2, 4).eqv(&r(1, 2)).unwrap());
    assert_eq!(Rat::from_int(-3), r(-3, 1));
    assert_eq!(Rat::zero(), r(0, 1));
    assert_eq!(Rat::one(), r(1, 1));
}

#[test]
fn rat_overflow_reported() {
    let big = r(i128::MAX, 1);
    assert_eq!(big.mul(&big), Err(Error::ArithmeticLimit));
    assert_eq!(big.add(&r(1, 3)), Err(Error::ArithmeticLimit));
}

#[test]
fn matrix_product_and_transpose() {
    let a = mat(2, 2, vec![vec![r(1, 1), r(2, 1)], vec![r(3, 1), r(4, 1)]]);
    let b = mat(2, 2, vec![vec![r(1, 2), r(0, 1)], vec![r(0, 1), r(1, 2)]]);
    let p = a.mul_mat(&b).unwrap();
    assert_eq!(p.entry(0, 0), r(1, 2));
    assert_eq!(p.entry(0, 1), r(1, 1));
    assert_eq!(p.entry(1, 0), r(3, 2));
    assert_eq!(p.entry(1, 1), r(2, 1));
    let t = a.transpose();
    assert_eq!(t.entry(0, 1), r(3, 1));
    assert_eq!(t.entry(1, 0), r(2, 1));
    let id = Matrix::identity(2);
    assert!(a.mul_mat(&id).unwrap().eq_mat(&a));
    let s = a.add_mat(&a).unwrap();
    assert_eq!(s.entry(1, 1), r(8, 1));
    let d = a.sub_mat(&a).unwrap();
    assert_eq!(d.entry(0, 0), r(0, 1));
    let h = a.scale(&r(1, 2)).unwrap();
    assert_eq!(h.entry(1, 0), r(3, 2));
}

#[test]
fn positive_definiteness_check() {
    let good = mat(2, 2, vec![vec![r(2, 1), r(1, 1)], vec![r(1, 1), r(2, 1)]]);
    assert_eq!(good.spd_check().unwrap(), true);
    let bad = mat(2, 2, vec![vec![r(1, 1), r(2, 1)], vec![r(2, 1), r(1, 1)]]);
    assert_eq!(bad.spd_check().unwrap(), false);
    let negative = mat(1, 1, vec![vec![r(-1, 1)]]);
    assert_eq!(negative.spd_check().unwrap(), false);
}

#[test]
fn exact_inverse_of_spd_matrix() {
    let s = mat(2, 2, vec![vec![r(2, 1), r(1, 1)], vec![r(1, 1), r(2, 1)]]);
    let inv = s.invert_spd().unwrap();
    assert_eq!(inv.entry(0, 0), r(2, 3));
    assert_eq!(inv.entry(0, 1), r(-1, 3));
    assert_eq!(inv.entry(1, 0), r(-1, 3));
    assert_eq!(inv.entry(1, 1), r(2, 3));
    let prod = s.mul_mat(&inv).unwrap();
    assert!(prod.eq_mat(&Matrix::identity(2)));
}

#[test]
fn inverse_rejects_non_positive_definite() {
    let zero = mat(1, 1, vec![vec![r(0, 1)]]);
    assert_eq!(
        zero.invert_spd().map(|_| ()),
        Err(Error::CovarianceNotPositiveSemiDefinite)
    );
    let indefinite = mat(2, 2, vec![vec![r(1, 1), r(2, 1)], vec![r(2, 1), r(1, 1)]]);
    assert_eq!(
        indefinite.invert_spd().map(|_| ()),
        Err(Error::CovarianceNotPositiveSemiDefinite)
    );
}

#[test]
fn symmetry_check() {
    let sym = mat(2, 2, vec![vec![r(2, 1), r(1, 3)], vec![r(1, 3), r(2, 1)]]);
    assert!(sym.symmetric());
    let asym = mat(2, 2, vec![vec![r(2, 1), r(1, 3)], vec![r(1, 2), r(2, 1)]]);
    assert!(!asym.symmetric());
}
