//! Validation for the Sherman-Morrison update of a bandit model.
use vstd::prelude::*;

use crate::error::LinalgError;

verus! {

/// What the updater needs to know about its inputs before any arithmetic:
/// the declared dimension, the length of each array, and whether every entry
/// of each array is finite.
#[derive(Debug, Clone, Copy, PartialEq, Eq, Structural)]
pub struct UpdateInputs {
    pub dimension: usize,
    pub inverse_covariance_len: usize,
    pub reward_sum_len: usize,
    pub feature_len: usize,
    pub inverse_covariance_finite: bool,
    pub reward_sum_finite: bool,
    pub feature_finite: bool,
}

/// The outcome of the update's precondition checks, taken in order; the first
/// one that fails decides the error.
pub open spec fn update_check(inp: UpdateInputs) -> Result<(), LinalgError> {
    let d = inp.dimension as int;
    if d == 0 {
        Err(LinalgError::InvalidDimension)
    } else if inp.inverse_covariance_len as int != d * d {
        Err(LinalgError::ShapeMismatch)
    } else if inp.reward_sum_len as int != d {
        Err(LinalgError::ShapeMismatch)
    } else if !inp.inverse_covariance_finite || !inp.reward_sum_finite || !inp.feature_finite {
        Err(LinalgError::NonFiniteInput)
    } else if inp.feature_len as int != d {
        Err(LinalgError::ShapeMismatch)
    } else {
        Ok(())
    }
}

/// Which of the update's checks refused the call. Each fault belongs to one
/// error kind; the finer distinction lets a caller say which array was wrong.
#[derive(Debug, Clone, Copy, PartialEq, Eq, Structural)]
pub enum UpdateFault {
    ZeroDimension,
    InverseCovarianceLen,
    RewardSumLen,
    InverseCovarianceNonFinite,
    RewardSumNonFinite,
    FeatureNonFinite,
    FeatureLen,
    DenominatorNonFinite,
    DenominatorTooSmall,
}

/// The error kind that a fault is reported as.
pub open spec fn fault_kind(f: UpdateFault) -> LinalgError {
    match f {
        UpdateFault::ZeroDimension => LinalgError::InvalidDimension,
        UpdateFault::InverseCovarianceLen => LinalgError::ShapeMismatch,
        UpdateFault::RewardSumLen => LinalgError::ShapeMismatch,
        UpdateFault::InverseCovarianceNonFinite => LinalgError::NonFiniteInput,
        UpdateFault::RewardSumNonFinite => LinalgError::NonFiniteInput,
        UpdateFault::FeatureNonFinite => LinalgError::NonFiniteInput,
        UpdateFault::FeatureLen => LinalgError::ShapeMismatch,
        UpdateFault::DenominatorNonFinite => LinalgError::NumericalInstability,
        UpdateFault::DenominatorTooSmall => LinalgError::NumericalInstability,
    }
}

impl UpdateFault {
    /// The error kind that this fault is reported as.
    pub fn kind(&self) -> (r: LinalgError)
        ensures
            r == fault_kind(*self),
    {
        match self {
            UpdateFault::ZeroDimension => LinalgError::InvalidDimension,
            UpdateFault::InverseCovarianceLen => LinalgError::ShapeMismatch,
            UpdateFault::RewardSumLen => LinalgError::ShapeMismatch,
            UpdateFault::InverseCovarianceNonFinite => LinalgError::NonFiniteInput,
            UpdateFault::RewardSumNonFinite => LinalgError::NonFiniteInput,
            UpdateFault::FeatureNonFinite => LinalgError::NonFiniteInput,
            UpdateFault::FeatureLen => LinalgError::ShapeMismatch,
            UpdateFault::DenominatorNonFinite => LinalgError::NumericalInstability,
            UpdateFault::DenominatorTooSmall => LinalgError::NumericalInstability,
        }
    }
}

/// The first of the update's checks that fails, in order, if any.
pub open spec fn update_fault(inp: UpdateInputs) -> Result<(), UpdateFault> {
    let d = inp.dimension as int;
    if d == 0 {
        Err(UpdateFault::ZeroDimension)
    } else if inp.inverse_covariance_len as int != d * d {
        Err(UpdateFault::InverseCovarianceLen)
    } else if inp.reward_sum_len as int != d {
        Err(UpdateFault::RewardSumLen)
    } else if !inp.inverse_covariance_finite {
        Err(UpdateFault::InverseCovarianceNonFinite)
    } else if !inp.reward_sum_finite {
        Err(UpdateFault::RewardSumNonFinite)
    } else if !inp.feature_finite {
        Err(UpdateFault::FeatureNonFinite)
    } else if inp.feature_len as int != d {
        Err(UpdateFault::FeatureLen)
    } else {
        Ok(())
    }
}

/// Runs the update's precondition checks in order and names the first that
/// fails.
pub fn check_update_inputs(inp: &UpdateInputs) -> (r: Result<(), UpdateFault>)
    ensures
        r == update_fault(*inp),
        match r {
            Ok(()) => update_check(*inp) is Ok,
            Err(f) => update_check(*inp) == Err::<(), LinalgError>(fault_kind(f)),
        },
        inp.dimension == 0 ==> r == Err::<(), UpdateFault>(UpdateFault::ZeroDimension),
        r is Ok ==> {
            &&& inp.inverse_covariance_len == inp.dimension * inp.dimension
            &&& inp.reward_sum_len == inp.dimension
            &&& inp.feature_len == inp.dimension
        },
{
    let d = inp.dimension;
    if d == 0 {
        return Err(UpdateFault::ZeroDimension);
    }
    match d.checked_mul(d) {
        Some(dd) => {
            if inp.inverse_covariance_len != dd {
                return Err(UpdateFault::InverseCovarianceLen);
            }
        },
        None => {
            return Err(UpdateFault::InverseCovarianceLen);
        },
    }
    if inp.reward_sum_len != d {
        return Err(UpdateFault::RewardSumLen);
    }
    if !inp.inverse_covariance_finite {
        return Err(UpdateFault::InverseCovarianceNonFinite);
    }
    if !inp.reward_sum_finite {
        return Err(UpdateFault::RewardSumNonFinite);
    }
    if !inp.feature_finite {
        return Err(UpdateFault::FeatureNonFinite);
    }
    if inp.feature_len != d {
        return Err(UpdateFault::FeatureLen);
    }
    Ok(())
}

/// Decides whether the update may divide by `1 + x^T P x`: it may not when that
/// value is non-finite, nor when its magnitude is below the guard epsilon.
/// Both refusals are reported as `NumericalInstability`.
pub fn check_denominator(finite: bool, below_epsilon: bool) -> (r: Result<(), UpdateFault>)
    ensures
        r == (if !finite {
            Err::<(), UpdateFault>(UpdateFault::DenominatorNonFinite)
        } else if below_epsilon {
            Err::<(), UpdateFault>(UpdateFault::DenominatorTooSmall)
        } else {
            Ok(())
        }),
        r is Err ==> fault_kind(r->Err_0) == LinalgError::NumericalInstability,
{
    if !finite {
        Err(UpdateFault::DenominatorNonFinite)
    } else if below_epsilon {
        Err(UpdateFault::DenominatorTooSmall)
    } else {
        Ok(())
    }
}

} // verus!
