//! Tests of the Rauch-Tung-Striebel backward smoothing pass on the 1-D
//! constant-position model `F = [1]`, `Q = [1/100]`, `H = [1]`, `R = [1/10]`.
use adskalman::matrix::Matrix;
use adskalman::rational::Rat;
use adskalman::{
    KalmanFilterNoControl, LinearObservationModel, LinearTransitionModel, StateAndCovariance,
};

fn r(n: i128, d: i128) -> Rat {
    Rat::new(n, d)
}

fn m1(v: Rat) -> Matrix {
    Matrix::new(1, 1, vec![vec![v]])
}

fn constant_position_filter() -> (LinearTransitionModel, LinearObservationModel) {
    let tm = LinearTransitionModel::new(m1(r(1, 1)), m1(r(1, 100)));
    let om = LinearObservationModel::new(m1(r(1, 1)), m1(r(1, 10)));
    (tm, om)
}

fn initial_belief() -> StateAndCovariance {
    StateAndCovariance::new(m1(r(0, 1)), m1(r(1, 1)))
}

fn obs(v: Rat) -> Vec<Option<Rat>> {
    vec![Some(v)]
}

#[test]
fn smoothing_single_step_is_identity() {
    let (tm, om) = constant_position_filter();
    let kf = KalmanFilterNoControl::new(&tm, &om);
    let observations = vec![obs(r(1, 1))];
    let filtered = kf.filter(&initial_belief(), &observations).unwrap();
    let smoothed = kf.smooth_from_filtered(kf.filter(&initial_belief(), &observations).unwrap())
        .unwrap();
    assert_eq!(smoothed.len(), 1);
    assert!(smoothed[0].state.eq_mat(&filtered[0].state));
    assert!(smoothed[0].covariance.eq_mat(&filtered[0].covariance));
}

#[test]
fn smoothing_matches_hand_computation() {
    let (tm, om) = constant_position_filter();
    let kf = KalmanFilterNoControl::new(&tm, &om);
    let observations = vec![obs(r(1, 1)), obs(r(1, 1)), obs(r(1, 1))];
    let smoothed = kf.smooth(&initial_belief(), &observations).unwrap();
    assert_eq!(smoothed.len(), 3);
    let means = [r(34441, 35751), r(34651, 35751), r(34751, 35751)];
    let covs = [r(13231, 357510), r(12331, 357510), r(13441, 357510)];
    for i in 0..3 {
        assert_eq!(smoothed[i].state.entry(0, 0), means[i]);
        assert_eq!(smoothed[i].covariance.entry(0, 0), covs[i]);
    }
}

#[test]
fn smoothing_keeps_last_and_improves_earlier_beliefs() {
    let (tm, om) = constant_position_filter();
    let kf = KalmanFilterNoControl::new(&tm, &om);
    let observations = vec![obs(r(1, 1)), obs(r(1, 1)), obs(r(1, 1))];
    let filtered = kf.filter(&initial_belief(), &observations).unwrap();
    let smoothed = kf.smooth_from_filtered(kf.filter(&initial_belief(), &observations).unwrap())
        .unwrap();
    // the last belief is unchanged by smoothing
    assert!(smoothed[2].state.eq_mat(&filtered[2].state));
    assert!(smoothed[2].covariance.eq_mat(&filtered[2].covariance));
    // earlier smoothed means are strictly closer to 1 than the filtered ones
    for i in 0..2 {
        let fm = filtered[i].state.entry(0, 0);
        let sm = smoothed[i].state.entry(0, 0);
        assert!(fm.le(&sm).unwrap());
        assert!(!sm.le(&fm).unwrap());
        assert!(sm.le(&r(1, 1)).unwrap());
    }
}

#[test]
fn smooth_equals_filter_then_smooth_from_filtered() {
    let (tm, om) = constant_position_filter();
    let kf = KalmanFilterNoControl::new(&tm, &om);
    let observations = vec![obs(r(1, 1)), vec![None], obs(r(3, 4))];
    let one_shot = kf.smooth(&initial_belief(), &observations).unwrap();
    let two_step = kf.smooth_from_filtered(kf.filter(&initial_belief(), &observations).unwrap())
        .unwrap();
    assert_eq!(one_shot.len(), two_step.len());
    for i in 0..one_shot.len() {
        assert!(one_shot[i].state.eq_mat(&two_step[i].state));
        assert!(one_shot[i].covariance.eq_mat(&two_step[i].covariance));
    }
}
