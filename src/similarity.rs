//! Validation and batch assembly for cosine similarity.
//!
//! The score of one pair of vectors is computed by a closure that the caller
//! hands in; these functions decide which pairs are scored at all, which get
//! the fallback value, and where each result goes.
use vstd::prelude::*;

use crate::error::LinalgError;

verus! {

/// Two vectors of these lengths can be compared: equal and non-empty.
pub open spec fn comparable(len_a: usize, len_b: usize) -> bool {
    len_a == len_b && len_a != 0
}

/// The outcome of the checks on a single pair of vectors.
pub open spec fn pair_check(len_a: usize, len_b: usize) -> Result<(), LinalgError> {
    if len_a != len_b {
        Err(LinalgError::ShapeMismatch)
    } else if len_a == 0 {
        Err(LinalgError::EmptyInput)
    } else {
        Ok(())
    }
}

/// Checks a single pair: lengths must agree, then must be non-zero.
pub fn check_pair(len_a: usize, len_b: usize) -> (r: Result<(), LinalgError>)
    ensures
        r == pair_check(len_a, len_b),
        r is Ok <==> comparable(len_a, len_b),
{
    if len_a != len_b {
        Err(LinalgError::ShapeMismatch)
    } else if len_a == 0 {
        Err(LinalgError::EmptyInput)
    } else {
        Ok(())
    }
}

/// Tells whether two vectors of these lengths can be compared.
pub fn pair_is_comparable(len_a: usize, len_b: usize) -> (r: bool)
    ensures
        r == comparable(len_a, len_b),
{
    len_a == len_b && len_a != 0
}

/// What position `(a, b)` of a batch result holds: the closure's result where
/// the two lengths are comparable, the fallback value elsewhere.
pub open spec fn scored_entry<T, F: Fn(usize, usize) -> T>(
    score: F,
    len_a: usize,
    len_b: usize,
    a: usize,
    b: usize,
    fallback: T,
    v: T,
) -> bool {
    if comparable(len_a, len_b) {
        score.ensures((a, b), v)
    } else {
        v == fallback
    }
}

/// Builds the `n x n` matrix of pairwise similarities of `n` vectors, given by
/// their lengths. Each pair `i <= j` is scored once, by `score(i, j)` where the
/// two vectors are comparable and with `fallback` elsewhere, and the result is
/// written to both `(i, j)` and `(j, i)`.
pub fn similarity_matrix<T: Copy, F: Fn(usize, usize) -> T>(
    lens: &Vec<usize>,
    fallback: T,
    score: F,
) -> (r: Vec<Vec<T>>)
    requires
        forall|a: usize, b: usize|
            a <= b < lens@.len() && comparable(lens@[a as int], lens@[b as int])
                ==> #[trigger] score.requires((a, b)),
    ensures
        r@.len() == lens@.len(),
        forall|i: int| 0 <= i < r@.len() ==> (#[trigger] r@[i])@.len() == lens@.len(),
        forall|i: int, j: int|
            0 <= i < lens@.len() && 0 <= j < lens@.len() ==> (#[trigger] r@[i]@[j]) == r@[j]@[i],
        forall|i: int, j: int|
            0 <= i <= j < lens@.len() ==> scored_entry(
                score,
                lens@[i],
                lens@[j],
                i as usize,
                j as usize,
                fallback,
                #[trigger] r@[i]@[j],
            ),
{
    let n = lens.len();
    let mut rows: Vec<Vec<T>> = Vec::new();
    let mut i: usize = 0;
    while i < n
        invariant
            n == lens@.len(),
            i <= n,
            rows@.len() == i,
            forall|a: usize, b: usize|
                a <= b < lens@.len() && comparable(lens@[a as int], lens@[b as int])
                    ==> #[trigger] score.requires((a, b)),
            forall|a: int| 0 <= a < i ==> (#[trigger] rows@[a])@.len() == n,
            forall|a: int, b: int| 0 <= b < a < i ==> #[trigger] rows@[a]@[b] == rows@[b]@[a],
            forall|a: int, b: int|
                0 <= a < i && a <= b < n ==> scored_entry(
                    score,
                    lens@[a],
                    lens@[b],
                    a as usize,
                    b as usize,
                    fallback,
                    #[trigger] rows@[a]@[b],
                ),
        decreases n - i,
    {
        let mut row: Vec<T> = Vec::new();
        let mut j: usize = 0;
        while j < n
            invariant
                n == lens@.len(),
                i < n,
                j <= n,
                rows@.len() == i,
                row@.len() == j,
                forall|a: usize, b: usize|
                    a <= b < lens@.len() && comparable(lens@[a as int], lens@[b as int])
                        ==> #[trigger] score.requires((a, b)),
                forall|a: int| 0 <= a < i ==> (#[trigger] rows@[a])@.len() == n,
                forall|b: int| 0 <= b < j && b < i ==> #[trigger] row@[b] == rows@[b]@[i as int],
                forall|b: int|
                    0 <= b < j && i <= b ==> scored_entry(
                        score,
                        lens@[i as int],
                        lens@[b],
                        i,
                        b as usize,
                        fallback,
                        #[trigger] row@[b],
                    ),
            decreases n - j,
        {
            if j < i {
                let mirrored: T = rows[j][i];
                row.push(mirrored);
            } else if lens[i] == lens[j] && lens[i] != 0 {
                let v: T = score(i, j);
                row.push(v);
            } else {
                row.push(fallback);
            }
            j = j + 1;
        }
        rows.push(row);
        i = i + 1;
    }
    assert forall|a: int, b: int| 0 <= a < n && 0 <= b < n implies #[trigger] rows@[a]@[b]
        == rows@[b]@[a] by {
        if b < a {
            assert(rows@[a]@[b] == rows@[b]@[a]);
        } else if a < b {
            assert(rows@[b]@[a] == rows@[a]@[b]);
        }
    }
    rows
}

/// What a pair-by-pair batch returns for one position.
pub open spec fn bulk_entry<T, F: Fn(usize) -> T>(
    score: F,
    len_a: usize,
    len_b: usize,
    i: usize,
    fallback: T,
    v: T,
) -> bool {
    if comparable(len_a, len_b) {
        score.ensures((i,), v)
    } else {
        v == fallback
    }
}

/// Scores two batches of vectors pair by pair. The batches must be equally
/// long; a pair that cannot be compared gets `fallback` instead of failing
/// the whole call.
pub fn bulk_similarity<T: Copy, F: Fn(usize) -> T>(
    lens_a: &Vec<usize>,
    lens_b: &Vec<usize>,
    fallback: T,
    score: F,
) -> (r: Result<Vec<T>, LinalgError>)
    requires
        forall|i: usize|
            i < lens_a@.len() && i < lens_b@.len() && comparable(lens_a@[i as int], lens_b@[i as int])
                ==> #[trigger] score.requires((i,)),
    ensures
        r is Ok <==> lens_a@.len() == lens_b@.len(),
        r is Err ==> r == Err::<Vec<T>, LinalgError>(LinalgError::ShapeMismatch),
        r is Ok ==> r->Ok_0@.len() == lens_a@.len(),
        forall|i: int|
            r is Ok && 0 <= i < lens_a@.len() ==> bulk_entry(
                score,
                lens_a@[i],
                lens_b@[i],
                i as usize,
                fallback,
                #[trigger] r->Ok_0@[i],
            ),
{
    if lens_a.len() != lens_b.len() {
        return Err(LinalgError::ShapeMismatch);
    }
    let n = lens_a.len();
    let mut out: Vec<T> = Vec::new();
    let mut i: usize = 0;
    while i < n
        invariant
            n == lens_a@.len(),
            n == lens_b@.len(),
            i <= n,
            out@.len() == i,
            forall|k: usize|
                k < lens_a@.len() && k < lens_b@.len() && comparable(
                    lens_a@[k as int],
                    lens_b@[k as int],
                ) ==> #[trigger] score.requires((k,)),
            forall|k: int|
                0 <= k < i ==> bulk_entry(
                    score,
                    lens_a@[k],
                    lens_b@[k],
                    k as usize,
                    fallback,
                    #[trigger] out@[k],
                ),
        decreases n - i,
    {
        if pair_is_comparable(lens_a[i], lens_b[i]) {
            let v: T = score(i);
            out.push(v);
        } else {
            out.push(fallback);
        }
        i = i + 1;
    }
    Ok(out)
}

/// Scores one target vector against many candidates. An empty target is an
/// error. A target of zero magnitude gives `fallback` for every candidate
/// without scoring any; otherwise a candidate whose length differs from the
/// target's gets `fallback`, and every other one is scored by `score(i)`.
pub fn one_to_many_similarity<T: Copy, F: Fn(usize) -> T>(
    target_len: usize,
    target_is_zero: bool,
    candidate_lens: &Vec<usize>,
    fallback: T,
    score: F,
) -> (r: Result<Vec<T>, LinalgError>)
    requires
        forall|i: usize|
            i < candidate_lens@.len() && comparable(target_len, candidate_lens@[i as int])
                ==> #[trigger] score.requires((i,)),
    ensures
        r is Ok <==> target_len != 0,
        r is Err ==> r == Err::<Vec<T>, LinalgError>(LinalgError::EmptyInput),
        r is Ok ==> r->Ok_0@.len() == candidate_lens@.len(),
        forall|i: int|
            r is Ok && target_is_zero && 0 <= i < candidate_lens@.len() ==> #[trigger] r->Ok_0@[i]
                == fallback,
        forall|i: int|
            r is Ok && !target_is_zero && 0 <= i < candidate_lens@.len() ==> bulk_entry(
                score,
                target_len,
                candidate_lens@[i],
                i as usize,
                fallback,
                #[trigger] r->Ok_0@[i],
            ),
{
    if target_len == 0 {
        return Err(LinalgError::EmptyInput);
    }
    let n = candidate_lens.len();
    let mut out: Vec<T> = Vec::new();
    let mut i: usize = 0;
    while i < n
        invariant
            n == candidate_lens@.len(),
            target_len != 0,
            i <= n,
            out@.len() == i,
            forall|k: usize|
                k < candidate_lens@.len() && comparable(target_len, candidate_lens@[k as int])
                    ==> #[trigger] score.requires((k,)),
            forall|k: int| 0 <= k < i && target_is_zero ==> #[trigger] out@[k] == fallback,
            forall|k: int|
                0 <= k < i && !target_is_zero ==> bulk_entry(
                    score,
                    target_len,
                    candidate_lens@[k],
                    k as usize,
                    fallback,
                    #[trigger] out@[k],
                ),
        decreases n - i,
    {
        if !target_is_zero && candidate_lens[i] == target_len {
            let v: T = score(i);
            out.push(v);
        } else {
            out.push(fallback);
        }
        i = i + 1;
    }
    Ok(out)
}

} // verus!
