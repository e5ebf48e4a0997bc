//! Laws of the selection policies, proved once and for all over the
//! mathematical picker semantics that the executable `pick` functions are
//! verified against.

use vstd::prelude::*;

use crate::pickers::{first_winner, first_winner_from, highest_winner, highest_winner_from};

verus! {

proof fn lemma_first_winner_from(utils: Seq<int>, threshold: int, i: int)
    requires
        0 <= i <= utils.len(),
    ensures
        match first_winner_from(utils, threshold, i) {
            Some(j) => i <= j < utils.len() && utils[j] >= threshold && (forall|k: int|
                i <= k < j ==> utils[k] < threshold),
            None => forall|k: int| i <= k < utils.len() ==> utils[k] < threshold,
        },
    decreases utils.len() - i,
{
    if i < utils.len() && utils[i] < threshold {
        lemma_first_winner_from(utils, threshold, i + 1);
    }
}

/// `FirstToScore` is deterministic and order-dependent: it picks exactly the
/// earliest position whose utility reaches the threshold, and picks nothing
/// if and only if no position qualifies.
pub proof fn lemma_first_to_score_earliest(utils: Seq<int>, threshold: int)
    ensures
        match first_winner(utils, threshold) {
            Some(j) => 0 <= j < utils.len() && utils[j] >= threshold && (forall|k: int|
                0 <= k < j ==> utils[k] < threshold),
            None => forall|k: int| 0 <= k < utils.len() ==> utils[k] < threshold,
        },
{
    lemma_first_winner_from(utils, threshold, 0);
}

proof fn lemma_highest_winner_from(
    utils: Seq<int>,
    threshold: int,
    i: int,
    best: int,
    bi: Option<int>,
)
    requires
        0 <= i <= utils.len(),
        match bi {
            Some(b) => 0 <= b < i && utils[b] == best && best > 0 && utils[b] >= threshold && (
            forall|k: int| 0 <= k < i && utils[k] >= threshold ==> utils[k] <= best) && (forall|
                k: int,
            |
                0 <= k < b ==> utils[k] < best),
            None => best == 0 && (forall|k: int|
                0 <= k < i ==> !(utils[k] >= threshold && utils[k] > 0)),
        },
    ensures
        match highest_winner_from(utils, threshold, i, best, bi) {
            Some(j) => 0 <= j < utils.len() && utils[j] >= threshold && utils[j] > 0 && (forall|
                k: int,
            |
                0 <= k < utils.len() ==> utils[k] <= utils[j]) && (forall|k: int|
                0 <= k < j ==> utils[k] < utils[j]),
            None => forall|k: int| 0 <= k < utils.len() ==> !(utils[k] >= threshold && utils[k] > 0),
        },
    decreases utils.len() - i,
{
    if i < utils.len() {
        if utils[i] >= threshold && utils[i] > best {
            lemma_highest_winner_from(utils, threshold, i + 1, utils[i], Some(i));
        } else {
            lemma_highest_winner_from(utils, threshold, i + 1, best, bi);
        }
    }
}

/// `HighestScore` picks a choice whose utility reaches the threshold and is
/// the maximum across the whole sequence; the earliest of several maxima
/// wins. It picks nothing if and only if no utility both reaches the
/// threshold and is positive — the zero-initialized running best shuts out
/// non-positive utilities.
pub proof fn lemma_highest_score_maximal(utils: Seq<int>, threshold: int)
    ensures
        match highest_winner(utils, threshold) {
            Some(j) => 0 <= j < utils.len() && utils[j] >= threshold && utils[j] > 0 && (forall|
                k: int,
            |
                0 <= k < utils.len() ==> utils[k] <= utils[j]) && (forall|k: int|
                0 <= k < j ==> utils[k] < utils[j]),
            None => forall|k: int| 0 <= k < utils.len() ==> !(utils[k] >= threshold && utils[k] > 0),
        },
{
    lemma_highest_winner_from(utils, threshold, 0, 0, None);
}

/// The boundary quirk, confirmed explicitly: when every utility is exactly
/// zero, `HighestScore` with a zero threshold still picks nothing, because
/// only a utility strictly greater than the zero-initialized running best
/// can ever win.
pub proof fn lemma_highest_score_all_zero_no_winner(utils: Seq<int>)
    requires
        forall|k: int| 0 <= k < utils.len() ==> utils[k] == 0,
    ensures
        highest_winner(utils, 0) is None,
{
    lemma_highest_score_maximal(utils, 0);
    match highest_winner(utils, 0) {
        Some(j) => {
            assert(utils[j] > 0);
            assert(false);
        },
        None => {},
    }
}

/// An empty choice list has no winner under either policy, whatever the
/// threshold.
pub proof fn lemma_empty_no_winner(threshold: int)
    ensures
        first_winner(Seq::<int>::empty(), threshold) is None,
        highest_winner(Seq::<int>::empty(), threshold) is None,
{
}

/// A single choice whose utility reaches the threshold wins under
/// `FirstToScore`; it also wins under `HighestScore` when its utility is
/// positive (a non-positive utility never beats the zero-initialized
/// running best, even when the threshold would admit it).
pub proof fn lemma_single_choice_wins(u: int, threshold: int)
    requires
        u >= threshold,
    ensures
        first_winner(seq![u], threshold) == Some(0int),
        u > 0 ==> highest_winner(seq![u], threshold) == Some(0int),
{
    assert(first_winner_from(seq![u], threshold, 0) == Some(0int));
    if u > 0 {
        assert(highest_winner_from(seq![u], threshold, 1, u, Some(0int)) == Some(0int));
        assert(highest_winner_from(seq![u], threshold, 0, 0, None) == Some(0int));
    }
}

proof fn lemma_first_winner_from_exact(utils: Seq<int>, threshold: int, i: int, j: int)
    requires
        0 <= i <= j < utils.len(),
        utils[j] >= threshold,
        forall|k: int| i <= k < j ==> utils[k] < threshold,
    ensures
        first_winner_from(utils, threshold, i) == Some(j),
    decreases j - i,
{
    if i < j {
        lemma_first_winner_from_exact(utils, threshold, i + 1, j);
    }
}

/// `FirstToScore` never looks past the first qualifying choice: any utility
/// sequence that agrees with `utils` up to and including the winning
/// position picks the same winner, whatever comes after it.
pub proof fn lemma_first_to_score_prefix_independent(
    utils: Seq<int>,
    other: Seq<int>,
    threshold: int,
    j: int,
)
    requires
        first_winner(utils, threshold) == Some(j),
        j < other.len(),
        forall|k: int| 0 <= k <= j ==> utils[k] == other[k],
    ensures
        first_winner(other, threshold) == Some(j),
{
    lemma_first_winner_from(utils, threshold, 0);
    lemma_first_winner_from_exact(other, threshold, 0, j);
}

} // verus!
