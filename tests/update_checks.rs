use linalg_wasm::error::LinalgError;
use linalg_wasm::update::{check_denominator, check_update_inputs, UpdateFault, UpdateInputs};

fn valid(d: usize) -> UpdateInputs {
    UpdateInputs {
        dimension: d,
        inverse_covariance_len: d * d,
        reward_sum_len: d,
        feature_len: d,
        inverse_covariance_finite: true,
        reward_sum_finite: true,
        feature_finite: true,
    }
}

#[test]
fn valid_inputs_pass() {
    assert_eq!(check_update_inputs(&valid(2)), Ok(()));
    assert_eq!(check_update_inputs(&valid(1)), Ok(()));
}

#[test]
fn zero_dimension_is_rejected_first() {
    let inp = UpdateInputs {
        dimension: 0,
        inverse_covariance_len: 7,
        reward_sum_len: 3,
        feature_len: 5,
        inverse_covariance_finite: false,
        reward_sum_finite: false,
        feature_finite: false,
    };
    assert_eq!(check_update_inputs(&inp), Err(UpdateFault::ZeroDimension));
    assert_eq!(UpdateFault::ZeroDimension.kind(), LinalgError::InvalidDimension);
}

#[test]
fn inverse_covariance_length_mismatch() {
    let mut inp = valid(2);
    inp.inverse_covariance_len = 3;
    inp.inverse_covariance_finite = false;
    assert_eq!(check_update_inputs(&inp), Err(UpdateFault::InverseCovarianceLen));
    assert_eq!(UpdateFault::InverseCovarianceLen.kind(), LinalgError::ShapeMismatch);
}

#[test]
fn huge_dimension_is_a_shape_mismatch() {
    let mut inp = valid(1);
    inp.dimension = usize::MAX;
    inp.inverse_covariance_len = 1;
    assert_eq!(check_update_inputs(&inp), Err(UpdateFault::InverseCovarianceLen));
}

#[test]
fn reward_sum_length_mismatch() {
    let mut inp = valid(3);
    inp.reward_sum_len = 2;
    assert_eq!(check_update_inputs(&inp), Err(UpdateFault::RewardSumLen));
    assert_eq!(UpdateFault::RewardSumLen.kind(), LinalgError::ShapeMismatch);
}

#[test]
fn non_finite_entries_are_rejected() {
    let mut a = valid(2);
    a.inverse_covariance_finite = false;
    assert_eq!(check_update_inputs(&a), Err(UpdateFault::InverseCovarianceNonFinite));
    let mut b = valid(2);
    b.reward_sum_finite = false;
    assert_eq!(check_update_inputs(&b), Err(UpdateFault::RewardSumNonFinite));
    let mut x = valid(2);
    x.feature_finite = false;
    assert_eq!(check_update_inputs(&x), Err(UpdateFault::FeatureNonFinite));
    for f in [
        UpdateFault::InverseCovarianceNonFinite,
        UpdateFault::RewardSumNonFinite,
        UpdateFault::FeatureNonFinite,
    ] {
        assert_eq!(f.kind(), LinalgError::NonFiniteInput);
    }
}

#[test]
fn finiteness_is_checked_before_feature_length() {
    let mut inp = valid(2);
    inp.feature_len = 3;
    inp.feature_finite = false;
    inp.reward_sum_finite = false;
    assert_eq!(check_update_inputs(&inp), Err(UpdateFault::RewardSumNonFinite));
    inp.reward_sum_finite = true;
    assert_eq!(check_update_inputs(&inp), Err(UpdateFault::FeatureNonFinite));
    inp.feature_finite = true;
    assert_eq!(check_update_inputs(&inp), Err(UpdateFault::FeatureLen));
    assert_eq!(UpdateFault::FeatureLen.kind(), LinalgError::ShapeMismatch);
}

#[test]
fn denominator_guard() {
    assert_eq!(check_denominator(true, false), Ok(()));
    assert_eq!(check_denominator(false, false), Err(UpdateFault::DenominatorNonFinite));
    assert_eq!(check_denominator(true, true), Err(UpdateFault::DenominatorTooSmall));
    assert_eq!(check_denominator(false, true), Err(UpdateFault::DenominatorNonFinite));
    assert_eq!(UpdateFault::DenominatorNonFinite.kind(), LinalgError::NumericalInstability);
    assert_eq!(UpdateFault::DenominatorTooSmall.kind(), LinalgError::NumericalInstability);
}

#[test]
fn near_zero_denominator_is_unstable() {
    // P = [[-1, 0], [0, 1]], x = [1, 0]: 1 + x^T P x = 0.
    let p = [-1.0f64, 0.0, 0.0, 1.0];
    let x = [1.0f64, 0.0];
    let px = [p[0] * x[0] + p[1] * x[1], p[2] * x[0] + p[3] * x[1]];
    let denom = 1.0 + x[0] * px[0] + x[1] * px[1];
    assert_eq!(
        check_denominator(denom.is_finite(), denom.abs() < 1e-12).map_err(|f| f.kind()),
        Err(LinalgError::NumericalInstability)
    );
}
