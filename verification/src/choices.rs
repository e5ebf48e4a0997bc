//! Choices: candidate actions that aggregate the live scores of their
//! scorers into a single utility number on demand.

use vstd::prelude::*;

use crate::scorers::{Score, ScoreStore, ScorerEnt};

verus! {

/// How a choice composes its scorers' contributions into one utility.
/// The strategy is supplied by whoever assembles the decision tree.
#[derive(Debug, Clone, Copy, PartialEq, Eq, Structural)]
pub enum Compose {
    /// The sum of every scorer's weighted contribution.
    WeightedSum,
    /// The largest weighted contribution (zero for no scorers at all).
    WeightedMax,
}

/// A scorer's weighted contribution: its value scaled by its weight.
pub open spec fn weighted(s: Score) -> int {
    s.value * s.weight
}

/// The sum of the weighted contributions of the scores the handles resolve to.
pub open spec fn sum_weighted(scorers: Seq<ScorerEnt>, scores: Seq<Score>) -> int
    decreases scorers.len(),
{
    if scorers.len() == 0 {
        0
    } else {
        sum_weighted(scorers.drop_last(), scores) + weighted(
            scores[scorers.last().0 as int],
        )
    }
}

/// The largest weighted contribution among the scores the handles resolve
/// to; zero when there is no handle at all.
pub open spec fn max_weighted(scorers: Seq<ScorerEnt>, scores: Seq<Score>) -> int
    decreases scorers.len(),
{
    if scorers.len() == 0 {
        0
    } else if scorers.len() == 1 {
        weighted(scores[scorers[0].0 as int])
    } else {
        let m = max_weighted(scorers.drop_last(), scores);
        let w = weighted(scores[scorers.last().0 as int]);
        if w > m {
            w
        } else {
            m
        }
    }
}

/// The mathematical model of a [`Choice`]: its scorer handles, composition,
/// and action identifier.
#[verifier::ext_equal]
pub struct ChoiceView {
    pub scorers: Seq<ScorerEnt>,
    pub compose: Compose,
    pub action: u64,
}

impl ChoiceView {
    /// Every scorer handle of this choice has a live entry in the store.
    /// A choice handed to a picker must satisfy this; a dangling handle is a
    /// configuration error ruled out when the decision tree is wired up.
    pub open spec fn resolves_in(self, scores: Seq<Score>) -> bool {
        forall|k: int|
            0 <= k < self.scorers.len() ==> (#[trigger] self.scorers[k]).0 < scores.len()
    }
}

/// The utility a choice computes: its scorers' contributions, composed as
/// the choice's strategy says.
pub open spec fn choice_utility(c: ChoiceView, scores: Seq<Score>) -> int {
    match c.compose {
        Compose::WeightedSum => sum_weighted(c.scorers, scores),
        Compose::WeightedMax => max_weighted(c.scorers, scores),
    }
}

/// A candidate action: one or more built scorer instances (held as handles
/// into the score store), a composition strategy, and the identifier of the
/// action that runs if this choice wins. Immutable within a decision pass.
#[derive(Debug)]
pub struct Choice {
    pub scorers: Vec<ScorerEnt>,
    pub compose: Compose,
    pub action: u64,
}

impl View for Choice {
    type V = ChoiceView;

    open spec fn view(&self) -> ChoiceView {
        ChoiceView { scorers: self.scorers@, compose: self.compose, action: self.action }
    }
}

impl Clone for Choice {
    /// A clone is a value copy of the descriptor, decoupled from the live
    /// choice list the caller may mutate afterwards.
    fn clone(&self) -> (r: Self)
        ensures
            r@ == self@,
    {
        let mut scorers: Vec<ScorerEnt> = Vec::new();
        let mut i: usize = 0;
        while i < self.scorers.len()
            invariant
                i <= self.scorers@.len(),
                scorers@ == self.scorers@.take(i as int),
            decreases self.scorers@.len() - i,
        {
            scorers.push(self.scorers[i]);
            proof {
                assert(scorers@ =~= self.scorers@.take(i as int + 1));
            }
            i = i + 1;
        }
        proof {
            assert(scorers@ =~= self.scorers@);
        }
        Choice { scorers, compose: self.compose, action: self.action }
    }
}

/// A weighted contribution of two `i32` factors never leaves
/// `[-2^62, 2^62]`.
pub proof fn lemma_weighted_bound(s: Score)
    ensures
        -0x4000_0000_0000_0000 <= weighted(s) <= 0x4000_0000_0000_0000,
{
    assert(-0x4000_0000_0000_0000 <= s.value * s.weight <= 0x4000_0000_0000_0000)
        by (nonlinear_arith)
        requires
            -0x8000_0000 <= s.value <= 0x7fff_ffff,
            -0x8000_0000 <= s.weight <= 0x7fff_ffff,
    ;
}

impl Choice {
    /// Compute this choice's aggregate utility by reading the score store.
    /// Exact: no rounding, no overflow. Read-only on the store.
    pub fn calculate(&self, scores: &ScoreStore) -> (r: i128)
        requires
            self@.resolves_in(scores@),
        ensures
            r == choice_utility(self@, scores@),
    {
        match self.compose {
            Compose::WeightedSum => self.weighted_sum(scores),
            Compose::WeightedMax => self.weighted_max(scores),
        }
    }

    fn weighted_sum(&self, scores: &ScoreStore) -> (r: i128)
        requires
            self@.resolves_in(scores@),
        ensures
            r == sum_weighted(self.scorers@, scores@),
    {
        let mut acc: i128 = 0;
        let mut i: usize = 0;
        while i < self.scorers.len()
            invariant
                i <= self.scorers@.len(),
                self@.resolves_in(scores@),
                acc == sum_weighted(self.scorers@.take(i as int), scores@),
                -(i as int) * 0x4000_0000_0000_0000 <= acc <= (i as int) * 0x4000_0000_0000_0000,
            decreases self.scorers@.len() - i,
        {
            let ent = self.scorers[i];
            proof {
                assert(self@.scorers[i as int].0 < scores@.len());
            }
            let s = scores.get(ent);
            proof {
                lemma_weighted_bound(s);
            }
            let p: i64 = (s.value as i64) * (s.weight as i64);
            acc = acc + (p as i128);
            proof {
                assert(self.scorers@.take(i as int + 1).drop_last() =~= self.scorers@.take(
                    i as int,
                ));
                assert(self.scorers@.take(i as int + 1).last() == self.scorers@[i as int]);
            }
            i = i + 1;
        }
        proof {
            assert(self.scorers@.take(self.scorers@.len() as int) =~= self.scorers@);
        }
        acc
    }

    fn weighted_max(&self, scores: &ScoreStore) -> (r: i128)
        requires
            self@.resolves_in(scores@),
        ensures
            r == max_weighted(self.scorers@, scores@),
    {
        if self.scorers.len() == 0 {
            return 0;
        }
        proof {
            assert(self@.scorers[0].0 < scores@.len());
        }
        let s0 = scores.get(self.scorers[0]);
        proof {
            lemma_weighted_bound(s0);
        }
        let mut m: i64 = (s0.value as i64) * (s0.weight as i64);
        proof {
            assert(self.scorers@.take(1)[0] == self.scorers@[0]);
            assert(m == max_weighted(self.scorers@.take(1), scores@));
        }
        let mut i: usize = 1;
        while i < self.scorers.len()
            invariant
                1 <= i <= self.scorers@.len(),
                self@.resolves_in(scores@),
                m == max_weighted(self.scorers@.take(i as int), scores@),
            decreases self.scorers@.len() - i,
        {
            proof {
                assert(self@.scorers[i as int].0 < scores@.len());
            }
            let s = scores.get(self.scorers[i]);
            proof {
                lemma_weighted_bound(s);
            }
            let p: i64 = (s.value as i64) * (s.weight as i64);
            if p > m {
                m = p;
            }
            proof {
                assert(self.scorers@.take(i as int + 1).drop_last() =~= self.scorers@.take(
                    i as int,
                ));
                assert(self.scorers@.take(i as int + 1).last() == self.scorers@[i as int]);
            }
            i = i + 1;
        }
        proof {
            assert(self.scorers@.take(self.scorers@.len() as int) =~= self.scorers@);
        }
        m as i128
    }
}

} // verus!
