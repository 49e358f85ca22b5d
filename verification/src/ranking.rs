//! Ranks: the place of a score among the scores of the persisted runs.
//!
//! The store counts the runs that score strictly more than a run, and the
//! rank is one more than that count. It is taken once, when the run is
//! written, and never again.

use vstd::prelude::*;
use vstd::seq_lib::{to_multiset_contains, to_multiset_len, to_multiset_remove};
use crate::error::AppError;

verus! {

/// How many of some scores are strictly greater than a score.
pub open spec fn count_above(scores: Seq<int>, score: int) -> int
    decreases scores.len(),
{
    if scores.len() == 0 {
        0
    } else {
        count_above(scores.drop_last(), score) + if scores.last() > score {
            1int
        } else {
            0int
        }
    }
}

/// The rank of a score among the scores of the persisted runs: one more than
/// the number of runs that score strictly more.
pub open spec fn rank_among(scores: Seq<int>, score: int) -> int {
    1 + count_above(scores, score)
}

/// Scores in falling order: none is followed by a greater one.
pub open spec fn falling(scores: Seq<int>) -> bool {
    forall|i: int, j: int| 0 <= i <= j < scores.len() ==> scores[i] >= scores[j]
}

/// Scores in strictly rising order.
pub open spec fn rising(scores: Seq<int>) -> bool {
    forall|i: int, j: int| 0 <= i < j < scores.len() ==> scores[i] < scores[j]
}

/// Turns the number of runs that score strictly more into a rank. A count
/// that no store can hold is an internal error.
pub fn rank_from_count(count: i64) -> (r: Result<i64, AppError>)
    ensures
        0 <= count < i64::MAX ==> r == Ok::<i64, AppError>((count + 1) as i64),
        !(0 <= count < i64::MAX) ==> r is Err && r->Err_0.is_internal(
            "Store counted runs out of range"@,
        ),
{
    if count < 0 || count == i64::MAX {
        Err(AppError::internal("Store counted runs out of range"))
    } else {
        Ok(count + 1)
    }
}

/// A rank lies between 1 and one more than the number of runs.
pub proof fn lemma_rank_bounds(scores: Seq<int>, score: int)
    ensures
        1 <= rank_among(scores, score) <= scores.len() + 1,
    decreases scores.len(),
{
    if scores.len() > 0 {
        lemma_rank_bounds(scores.drop_last(), score);
    }
}

/// Taking one score away lowers the count by one exactly when that score is
/// the greater.
proof fn lemma_count_above_remove(scores: Seq<int>, i: int, score: int)
    requires
        0 <= i < scores.len(),
    ensures
        count_above(scores, score) == count_above(scores.remove(i), score) + if scores[i]
            > score {
            1int
        } else {
            0int
        },
    decreases scores.len(),
{
    if i == scores.len() - 1 {
        assert(scores.remove(i) =~= scores.drop_last());
    } else {
        lemma_count_above_remove(scores.drop_last(), i, score);
        assert(scores.remove(i).drop_last() =~= scores.drop_last().remove(i));
        assert(scores.remove(i).last() == scores.last());
    }
}

/// Where the first `k` scores are the greater ones and no other is, the
/// count is `k`.
proof fn lemma_count_above_split(scores: Seq<int>, k: int, score: int)
    requires
        0 <= k <= scores.len(),
        forall|j: int| 0 <= j < k ==> scores[j] > score,
        forall|j: int| k <= j < scores.len() ==> scores[j] <= score,
    ensures
        count_above(scores, score) == k,
    decreases scores.len(),
{
    if scores.len() > 0 {
        let head = scores.drop_last();
        if k == scores.len() {
            lemma_count_above_split(head, k - 1, score);
        } else {
            lemma_count_above_split(head, k, score);
        }
    }
}

/// A score that none of the persisted scores exceeds ranks first.
pub proof fn lemma_unbeaten_ranks_first(scores: Seq<int>, score: int)
    requires
        forall|i: int| 0 <= i < scores.len() ==> scores[i] <= score,
    ensures
        rank_among(scores, score) == 1,
{
    lemma_count_above_split(scores, 0, score);
}

/// A run does not count against itself: its rank among the persisted runs is
/// the same with and without it.
pub proof fn lemma_rank_counts_others(scores: Seq<int>, score: int)
    ensures
        rank_among(scores.push(score), score) == rank_among(scores, score),
{
    assert(scores.push(score).drop_last() =~= scores);
}

/// The rank of a score does not depend on the order in which the runs are
/// held: two sequences of the same scores give the same rank.
pub proof fn lemma_rank_ignores_order(a: Seq<int>, b: Seq<int>, score: int)
    requires
        a.to_multiset() == b.to_multiset(),
    ensures
        rank_among(a, score) == rank_among(b, score),
    decreases a.len(),
{
    to_multiset_len(a);
    to_multiset_len(b);
    if a.len() > 0 {
        let x = a.last();
        let last = a.len() - 1;
        assert(a[last] == x);
        assert(a.contains(x));
        to_multiset_contains(a, x);
        to_multiset_contains(b, x);
        let j = choose|j: int| 0 <= j < b.len() && b[j] == x;
        to_multiset_remove(a, last);
        to_multiset_remove(b, j);
        assert(a.remove(last) =~= a.drop_last());
        lemma_rank_ignores_order(a.drop_last(), b.remove(j), score);
        lemma_count_above_remove(b, j, score);
    }
}

/// The rank of a run is its place, counted from 1, among all persisted runs
/// in falling order of score. Runs of one score share the place of the
/// first of them: `i` is the first place that holds the score.
pub proof fn lemma_rank_is_place_in_falling_order(runs: Seq<int>, sorted: Seq<int>, i: int)
    requires
        sorted.to_multiset() == runs.to_multiset(),
        falling(sorted),
        0 <= i < sorted.len(),
        i == 0 || sorted[i - 1] > sorted[i],
    ensures
        rank_among(runs, sorted[i]) == i + 1,
{
    let score = sorted[i];
    assert forall|j: int| 0 <= j < i implies sorted[j] > score by {
        assert(sorted[j] >= sorted[i - 1]);
    }
    assert forall|j: int| i <= j < sorted.len() implies sorted[j] <= score by {
    }
    lemma_count_above_split(sorted, i, score);
    lemma_rank_ignores_order(runs, sorted, score);
}

/// Where runs are submitted one after another with strictly rising scores,
/// each ranks first at the moment it is submitted: it heads the falling
/// order of the runs persisted by then.
pub proof fn lemma_rising_scores_rank_first(history: Seq<int>, k: int)
    requires
        rising(history),
        0 <= k < history.len(),
    ensures
        rank_among(history.take(k + 1), history[k]) == 1,
{
    let persisted = history.take(k + 1);
    assert forall|j: int| 0 <= j < persisted.len() implies persisted[j] <= history[k] by {
        if j < k {
            assert(history[j] < history[k]);
        }
    }
    lemma_count_above_split(persisted, 0, history[k]);
}

/// Where runs are submitted one after another with strictly rising scores,
/// the run just submitted stands first in every falling order of the runs
/// persisted by then, and first is its rank.
pub proof fn lemma_rising_scores_rank_is_place(history: Seq<int>, k: int, sorted: Seq<int>)
    requires
        rising(history),
        0 <= k < history.len(),
        sorted.to_multiset() == history.take(k + 1).to_multiset(),
        falling(sorted),
    ensures
        sorted.len() == k + 1,
        sorted[0] == history[k],
        rank_among(history.take(k + 1), sorted[0]) == 1,
{
    let persisted = history.take(k + 1);
    to_multiset_len(sorted);
    to_multiset_len(persisted);
    assert(persisted[k] == history[k]);
    assert(persisted.contains(history[k]));
    to_multiset_contains(persisted, history[k]);
    to_multiset_contains(sorted, history[k]);
    let at = choose|at: int| 0 <= at < sorted.len() && sorted[at] == history[k];
    assert(sorted[0] >= sorted[at]);
    assert(sorted.contains(sorted[0]));
    to_multiset_contains(sorted, sorted[0]);
    to_multiset_contains(persisted, sorted[0]);
    let from = choose|from: int| 0 <= from < persisted.len() && persisted[from] == sorted[0];
    if from < k {
        assert(history[from] < history[k]);
    }
    lemma_rising_scores_rank_first(history, k);
}

} // verus!
