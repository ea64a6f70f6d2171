//! Which candidates of a batch get an upper-confidence-bound score.
use vstd::prelude::*;

use crate::error::LinalgError;

verus! {

/// The positions of `lens` whose entry equals `d`, in increasing order.
pub open spec fn indices_with_len(lens: Seq<usize>, d: usize) -> Seq<usize>
    decreases lens.len(),
{
    if lens.len() == 0 {
        Seq::empty()
    } else {
        let prev = indices_with_len(lens.drop_last(), d);
        if lens.last() == d {
            prev.push((lens.len() - 1) as usize)
        } else {
            prev
        }
    }
}

/// The positions of `lens` whose entry differs from `d`, in increasing order.
pub open spec fn indices_without_len(lens: Seq<usize>, d: usize) -> Seq<usize>
    decreases lens.len(),
{
    if lens.len() == 0 {
        Seq::empty()
    } else {
        let prev = indices_without_len(lens.drop_last(), d);
        if lens.last() != d {
            prev.push((lens.len() - 1) as usize)
        } else {
            prev
        }
    }
}

/// Scoring keeps the batch's order: the scored positions are exactly those
/// whose embedding length equals the dimension, strictly increasing, and the
/// skipped positions are exactly the others, so that together they account for
/// every candidate once.
pub proof fn lemma_plan_keeps_input_order(lens: Seq<usize>, d: usize)
    requires
        lens.len() <= usize::MAX,
    ensures
        ({
            let kept = indices_with_len(lens, d);
            &&& forall|k: int| 0 <= k < kept.len() ==> #[trigger] kept[k] < lens.len()
                && lens[kept[k] as int] == d
            &&& forall|k1: int, k2: int|
                0 <= k1 < k2 < kept.len() ==> #[trigger] kept[k1] < #[trigger] kept[k2]
            &&& forall|i: int| 0 <= i < lens.len() && lens[i] == d ==> kept.contains(i as usize)
        }),
        ({
            let dropped = indices_without_len(lens, d);
            &&& forall|k: int| 0 <= k < dropped.len() ==> #[trigger] dropped[k] < lens.len()
                && lens[dropped[k] as int] != d
            &&& forall|k1: int, k2: int|
                0 <= k1 < k2 < dropped.len() ==> #[trigger] dropped[k1] < #[trigger] dropped[k2]
            &&& forall|i: int| 0 <= i < lens.len() && lens[i] != d ==> dropped.contains(i as usize)
        }),
        indices_with_len(lens, d).len() + indices_without_len(lens, d).len() == lens.len(),
    decreases lens.len(),
{
    if lens.len() > 0 {
        let prev = lens.drop_last();
        lemma_plan_keeps_input_order(prev, d);
        let last = (lens.len() - 1) as usize;
        let kept = indices_with_len(lens, d);
        let dropped = indices_without_len(lens, d);
        assert forall|i: int| 0 <= i < lens.len() && lens[i] == d implies kept.contains(
            i as usize,
        ) by {
            if i < lens.len() - 1 {
                assert(prev[i] == lens[i]);
                let k = choose|k: int| 0 <= k < indices_with_len(prev, d).len()
                    && indices_with_len(prev, d)[k] == i as usize;
                assert(kept[k] == i as usize);
            } else {
                assert(kept[kept.len() - 1] == last);
            }
        }
        assert forall|i: int| 0 <= i < lens.len() && lens[i] != d implies dropped.contains(
            i as usize,
        ) by {
            if i < lens.len() - 1 {
                assert(prev[i] == lens[i]);
                let k = choose|k: int| 0 <= k < indices_without_len(prev, d).len()
                    && indices_without_len(prev, d)[k] == i as usize;
                assert(dropped[k] == i as usize);
            } else {
                assert(dropped[dropped.len() - 1] == last);
            }
        }
    }
}

/// The model-level checks of a scoring call: a non-zero dimension, and arrays
/// that fit a `d x d` matrix and a length-`d` vector.
pub open spec fn score_check(
    dimension: usize,
    inverse_covariance_len: usize,
    reward_sum_len: usize,
) -> Result<(), LinalgError> {
    let d = dimension as int;
    if d == 0 {
        Err(LinalgError::InvalidDimension)
    } else if inverse_covariance_len as int != d * d {
        Err(LinalgError::ShapeMismatch)
    } else if reward_sum_len as int != d {
        Err(LinalgError::ShapeMismatch)
    } else {
        Ok(())
    }
}

/// How a batch of candidates is handled: the positions that are scored, and
/// the positions that are skipped for a mismatched embedding length, each in
/// input order.
pub struct ScorePlan {
    pub scored: Vec<usize>,
    pub skipped: Vec<usize>,
}

/// Validates the model's shape and splits the candidates, given by their
/// embedding lengths, into those that are scored and those that are skipped.
pub fn plan_scores(
    dimension: usize,
    inverse_covariance_len: usize,
    reward_sum_len: usize,
    embedding_lens: &Vec<usize>,
) -> (r: Result<ScorePlan, LinalgError>)
    ensures
        dimension == 0 ==> r matches Err(LinalgError::InvalidDimension),
        match r {
            Ok(plan) => {
                &&& score_check(dimension, inverse_covariance_len, reward_sum_len) is Ok
                &&& plan.scored@ == indices_with_len(embedding_lens@, dimension)
                &&& plan.skipped@ == indices_without_len(embedding_lens@, dimension)
            },
            Err(e) => score_check(dimension, inverse_covariance_len, reward_sum_len) == Err::<
                (),
                LinalgError,
            >(e),
        },
{
    let d = dimension;
    if d == 0 {
        return Err(LinalgError::InvalidDimension);
    }
    match d.checked_mul(d) {
        Some(dd) => {
            if inverse_covariance_len != dd {
                return Err(LinalgError::ShapeMismatch);
            }
        },
        None => {
            return Err(LinalgError::ShapeMismatch);
        },
    }
    if reward_sum_len != d {
        return Err(LinalgError::ShapeMismatch);
    }
    let mut scored: Vec<usize> = Vec::new();
    let mut skipped: Vec<usize> = Vec::new();
    let n = embedding_lens.len();
    let mut i: usize = 0;
    while i < n
        invariant
            n == embedding_lens@.len(),
            i <= n,
            scored@ == indices_with_len(embedding_lens@.subrange(0, i as int), d),
            skipped@ == indices_without_len(embedding_lens@.subrange(0, i as int), d),
        decreases n - i,
    {
        proof {
            let prefix = embedding_lens@.subrange(0, i as int);
            let next = embedding_lens@.subrange(0, i as int + 1);
            assert(next.drop_last() =~= prefix);
        }
        if embedding_lens[i] == d {
            scored.push(i);
        } else {
            skipped.push(i);
        }
        i = i + 1;
    }
    assert(embedding_lens@.subrange(0, n as int) =~= embedding_lens@);
    Ok(ScorePlan { scored, skipped })
}

} // verus!
