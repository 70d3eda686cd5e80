//! Tests of the filter core: prediction, update, stepping and whole-series
//! filtering on the 1-D constant-position model
//! `F = [1]`, `Q = [1/100]`, `H = [1]`, `R = [1/10]`.
use adskalman::matrix::Matrix;
use adskalman::rational::Rat;
use adskalman::observation_is_missing;
use adskalman::ObservationModel;
use adskalman::TransitionModelLinearNoControl;
use adskalman::{
    CovarianceUpdateMethod, Error, KalmanFilterNoControl, LinearObservationModel,
    LinearTransitionModel, StateAndCovariance,
};

fn r(n: i128, d: i128) -> Rat {
    Rat::new(n, d)
}

fn m1(v: Rat) -> Matrix {
    Matrix::new(1, 1, vec![vec![v]])
}

fn constant_position_models() -> (LinearTransitionModel, LinearObservationModel) {
    let tm = LinearTransitionModel::new(m1(r(1, 1)), m1(r(1, 100)));
    let om = LinearObservationModel::new(m1(r(1, 1)), m1(r(1, 10)));
    (tm, om)
}

fn initial_belief() -> StateAndCovariance {
    StateAndCovariance::new(m1(r(0, 1)), m1(r(1, 1)))
}

fn obs(v: Rat) -> Vec<Option<Rat>> {
    vec![Some(v)]
}

#[test]
fn test_is_nan() {
    assert_eq!(observation_is_missing(&vec![Some(r(-1, 1))]), false);
    assert_eq!(observation_is_missing(&vec![Some(r(0, 1))]), false);
    assert_eq!(observation_is_missing(&vec![Some(r(1, 1))]), false);
    assert_eq!(observation_is_missing(&vec![Some(r(i128::MAX, 1))]), false);
    assert_eq!(observation_is_missing(&vec![Some(r(-i128::MAX, 1))]), false);
    assert_eq!(observation_is_missing(&vec![None]), true);

    assert_eq!(observation_is_missing(&vec![Some(r(-1, 2)), Some(r(1, 2))]), false);
    assert_eq!(observation_is_missing(&vec![Some(r(0, 2)), Some(r(0, 3))]), false);
    assert_eq!(observation_is_missing(&vec![Some(r(1, 2)), Some(r(1, 3))]), false);
    assert_eq!(observation_is_missing(&vec![None, Some(r(1, 2))]), true);
    assert_eq!(observation_is_missing(&vec![Some(r(1, 2)), None]), true);
    assert_eq!(observation_is_missing(&vec![None, None]), true);
}

#[test]
fn predict_is_exact() {
    let (tm, _om) = constant_position_models();
    let prior = initial_belief();
    let predicted = tm.predict(&prior).unwrap();
    assert_eq!(predicted.state.entry(0, 0), r(0, 1));
    assert_eq!(predicted.covariance.entry(0, 0), r(101, 100));
}

#[test]
fn first_step_matches_hand_computation() {
    let (tm, om) = constant_position_models();
    let kf = KalmanFilterNoControl::new(&tm, &om);
    let post = kf.step(&initial_belief(), &obs(r(1, 1))).unwrap();
    assert_eq!(post.state.entry(0, 0), r(101, 111));
    assert_eq!(post.covariance.entry(0, 0), r(101, 1110));
}

#[test]
fn missing_observation_returns_predicted_prior() {
    let (tm, om) = constant_position_models();
    let kf = KalmanFilterNoControl::new(&tm, &om);
    let prior = StateAndCovariance::new(m1(r(3, 7)), m1(r(2, 5)));
    let predicted = tm.predict(&prior).unwrap();
    let post = kf.step(&prior, &vec![None]).unwrap();
    assert!(post.state.eq_mat(&predicted.state));
    assert!(post.covariance.eq_mat(&predicted.covariance));
    for method in [
        CovarianceUpdateMethod::JosephForm,
        CovarianceUpdateMethod::OptimalKalman,
        CovarianceUpdateMethod::OptimalKalmanForcedSymmetric,
    ] {
        let p2 = kf.step_with_options(&prior, &vec![None], method).unwrap();
        assert!(p2.state.eq_mat(&predicted.state));
        assert!(p2.covariance.eq_mat(&predicted.covariance));
    }
}

#[test]
fn non_positive_definite_noise_is_rejected() {
    // a noise matrix negative enough to make the innovation covariance
    // non-positive-definite
    let tm = LinearTransitionModel::new(m1(r(1, 1)), m1(r(1, 100)));
    let om = LinearObservationModel::new(m1(r(1, 1)), m1(r(-2, 1)));
    let kf = KalmanFilterNoControl::new(&tm, &om);
    let e = kf.step(&initial_belief(), &obs(r(1, 1)));
    assert_eq!(e.map(|_| ()), Err(Error::CovarianceNotPositiveSemiDefinite));
    // a zero noise matrix with a zero observation matrix: the innovation
    // covariance is the zero matrix
    let om2 = LinearObservationModel::new(m1(r(0, 1)), m1(r(0, 1)));
    let kf2 = KalmanFilterNoControl::new(&tm, &om2);
    let e2 = kf2.step(&initial_belief(), &obs(r(1, 1)));
    assert_eq!(e2.map(|_| ()), Err(Error::CovarianceNotPositiveSemiDefinite));
}

#[test]
fn optimal_and_joseph_agree_exactly() {
    let (tm, om) = constant_position_models();
    let kf = KalmanFilterNoControl::new(&tm, &om);
    let prior = initial_belief();
    let joseph = kf
        .step_with_options(&prior, &obs(r(1, 1)), CovarianceUpdateMethod::JosephForm)
        .unwrap();
    let optimal = kf
        .step_with_options(&prior, &obs(r(1, 1)), CovarianceUpdateMethod::OptimalKalman)
        .unwrap();
    let forced = kf
        .step_with_options(
            &prior,
            &obs(r(1, 1)),
            CovarianceUpdateMethod::OptimalKalmanForcedSymmetric,
        )
        .unwrap();
    // posterior means are identical whatever the covariance formula
    assert!(joseph.state.eq_mat(&optimal.state));
    assert!(joseph.state.eq_mat(&forced.state));
    // in exact arithmetic the covariance formulas agree exactly as well
    assert!(joseph.covariance.eq_mat(&optimal.covariance));
    assert!(joseph.covariance.eq_mat(&forced.covariance));
}

#[test]
fn filtering_converges_toward_observations() {
    let (tm, om) = constant_position_models();
    let kf = KalmanFilterNoControl::new(&tm, &om);
    let observations = vec![obs(r(1, 1)), obs(r(1, 1)), obs(r(1, 1))];
    let ests = kf.filter(&initial_belief(), &observations).unwrap();
    assert_eq!(ests.len(), 3);
    let means = [r(101, 111), r(2131, 2231), r(34751, 35751)];
    let covs = [r(101, 1110), r(1121, 22310), r(13441, 357510)];
    for i in 0..3 {
        assert_eq!(ests[i].state.entry(0, 0), means[i]);
        assert_eq!(ests[i].covariance.entry(0, 0), covs[i]);
    }
    // the mean converges monotonically toward 1 and the covariance shrinks
    for i in 0..2 {
        let mi = ests[i].state.entry(0, 0);
        let mj = ests[i + 1].state.entry(0, 0);
        assert!(mi.le(&mj).unwrap());
        assert!(mj.le(&r(1, 1)).unwrap());
        let ci = ests[i].covariance.entry(0, 0);
        let cj = ests[i + 1].covariance.entry(0, 0);
        assert!(cj.le(&ci).unwrap());
    }
}

#[test]
fn filter_inplace_fills_prefix_and_keeps_rest() {
    let (tm, om) = constant_position_models();
    let kf = KalmanFilterNoControl::new(&tm, &om);
    let observations = vec![obs(r(1, 1)), obs(r(1, 1))];
    let spare = StateAndCovariance::new(m1(r(7, 2)), m1(r(9, 4)));
    let mut buffer = vec![
        initial_belief(),
        initial_belief(),
        spare,
    ];
    kf.filter_inplace(&initial_belief(), &observations, &mut buffer)
        .unwrap();
    assert_eq!(buffer.len(), 3);
    assert_eq!(buffer[0].state.entry(0, 0), r(101, 111));
    assert_eq!(buffer[1].state.entry(0, 0), r(2131, 2231));
    // the slot beyond the observations is untouched
    assert_eq!(buffer[2].state.entry(0, 0), r(7, 2));
    assert_eq!(buffer[2].covariance.entry(0, 0), r(9, 4));
}

#[test]
fn missing_middle_observation_keeps_predicted_covariance() {
    let (tm, om) = constant_position_models();
    let kf = KalmanFilterNoControl::new(&tm, &om);
    let observations = vec![obs(r(1, 1)), vec![None], obs(r(1, 1))];
    let ests = kf.filter(&initial_belief(), &observations).unwrap();
    // the second belief is exactly the post-predict (pre-update) belief of
    // that step
    assert_eq!(ests[1].state.entry(0, 0), r(101, 111));
    assert_eq!(ests[1].covariance.entry(0, 0), r(1121, 11100));
    // and strictly larger than the covariance an update would have produced
    let updated = kf.step(&ests[0], &obs(r(1, 1))).unwrap();
    assert!(updated.covariance.entry(0, 0).le(&ests[1].covariance.entry(0, 0)).unwrap());
    assert!(!ests[1].covariance.entry(0, 0).le(&updated.covariance.entry(0, 0)).unwrap());
    // the run continues exactly from the predicted belief
    assert_eq!(ests[2].state.entry(0, 0), r(1121, 1171));
    assert_eq!(ests[2].covariance.entry(0, 0), r(308, 5855));
}

#[test]
fn update_direct_matches_hand_computation() {
    let (_tm, om) = constant_position_models();
    // the prior here is the predicted belief of the first step
    let prior = StateAndCovariance::new(m1(r(0, 1)), m1(r(101, 100)));
    let y = m1(r(1, 1));
    let post = om
        .update(&prior, &y, CovarianceUpdateMethod::JosephForm)
        .unwrap();
    assert_eq!(post.state.entry(0, 0), r(101, 111));
    assert_eq!(post.covariance.entry(0, 0), r(101, 1110));
}

#[test]
fn predict_observation_is_h_times_state() {
    let h = Matrix::new(1, 2, vec![vec![r(2, 1), r(1, 2)]]);
    let rm = m1(r(1, 10));
    let om = LinearObservationModel::new(h, rm);
    let state = Matrix::new(2, 1, vec![vec![r(1, 2)], vec![r(4, 1)]]);
    let y = om.predict_observation(&state).unwrap();
    assert_eq!(y.rows, 1);
    assert_eq!(y.cols, 1);
    assert_eq!(y.entry(0, 0), r(3, 1));
}

#[test]
fn filtering_no_observations_yields_no_estimates() {
    let (tm, om) = constant_position_models();
    let kf = KalmanFilterNoControl::new(&tm, &om);
    let ests = kf.filter(&initial_belief(), &vec![]).unwrap();
    assert_eq!(ests.len(), 0);
}

#[test]
fn belief_accessors_and_mutation() {
    let mut b = initial_belief();
    assert!(b.state().eq_mat(&m1(r(0, 1))));
    assert!(b.covariance().eq_mat(&m1(r(1, 1))));
    *b.state_mut() = m1(r(1, 2));
    *b.covariance_mut() = m1(r(3, 4));
    let copy = b.duplicate();
    assert!(copy.state.eq_mat(&m1(r(1, 2))));
    let (x, p) = b.inner();
    assert!(x.eq_mat(&m1(r(1, 2))));
    assert!(p.eq_mat(&m1(r(3, 4))));
}
