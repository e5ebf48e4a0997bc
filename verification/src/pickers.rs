//! Pickers: pluggable selection policies that turn an ordered list of scored
//! choices into a single winner, or no winner.

use vstd::prelude::*;

use crate::choices::{choice_utility, Choice, ChoiceView};
use crate::scorers::{Score, ScoreStore};

verus! {

/// The views of a list of choices, in the order supplied.
pub open spec fn choice_views(choices: Seq<Choice>) -> Seq<ChoiceView> {
    choices.map_values(|c: Choice| c@)
}

/// Every choice's every scorer handle resolves in the store: the invariant a
/// caller of `pick` upholds.
pub open spec fn all_resolve(cs: Seq<ChoiceView>, scores: Seq<Score>) -> bool {
    forall|i: int| 0 <= i < cs.len() ==> (#[trigger] cs[i]).resolves_in(scores)
}

/// The utility each choice computes against the store, in order.
pub open spec fn utilities(cs: Seq<ChoiceView>, scores: Seq<Score>) -> Seq<int> {
    Seq::new(cs.len(), |i: int| choice_utility(cs[i], scores))
}

/// The view of a picker's result.
pub open spec fn result_view(r: Option<Choice>) -> Option<ChoiceView> {
    match r {
        Some(c) => Some(c@),
        None => None,
    }
}

/// The choice at the winning index, if there is one.
pub open spec fn winner_view(w: Option<int>, cs: Seq<ChoiceView>) -> Option<ChoiceView> {
    match w {
        Some(j) => Some(cs[j]),
        None => None,
    }
}

/// The index `FirstToScore` picks when it scans from position `i`: the
/// earliest position at or after `i` whose utility reaches the threshold.
pub open spec fn first_winner_from(utils: Seq<int>, threshold: int, i: int) -> Option<int>
    decreases utils.len() - i,
        when 0 <= i <= utils.len()
{
    if i >= utils.len() {
        None
    } else if utils[i] >= threshold {
        Some(i)
    } else {
        first_winner_from(utils, threshold, i + 1)
    }
}

/// The index `FirstToScore` picks: the earliest whose utility reaches the
/// threshold.
pub open spec fn first_winner(utils: Seq<int>, threshold: int) -> Option<int> {
    first_winner_from(utils, threshold, 0)
}

/// The index `HighestScore` picks when it scans from position `i`, with the
/// running best utility `best` held by the choice at `bi`. A choice becomes
/// the new best only when its utility reaches the threshold and is strictly
/// greater than the running best, so the earliest of equal bests keeps the
/// win.
pub open spec fn highest_winner_from(
    utils: Seq<int>,
    threshold: int,
    i: int,
    best: int,
    bi: Option<int>,
) -> Option<int>
    decreases utils.len() - i,
        when 0 <= i <= utils.len()
{
    if i >= utils.len() {
        bi
    } else if utils[i] >= threshold && utils[i] > best {
        highest_winner_from(utils, threshold, i + 1, utils[i], Some(i))
    } else {
        highest_winner_from(utils, threshold, i + 1, best, bi)
    }
}

/// The index `HighestScore` picks. The running best starts at zero, not at
/// the least possible utility: a choice whose utility is not positive never
/// wins, whatever the threshold.
pub open spec fn highest_winner(utils: Seq<int>, threshold: int) -> Option<int> {
    highest_winner_from(utils, threshold, 0, 0, None)
}

/// A selection policy. Given an ordered list of choices and the score store,
/// `pick` returns the winning choice, or `None` when no choice qualifies —
/// an expected, first-class outcome ("do nothing"). A picker holds only its
/// own configuration and keeps no history between calls; the result is a
/// function of its inputs alone.
pub trait Picker {
    /// The policy's contract: whether `r` is what `pick` returns for these
    /// inputs.
    spec fn picks(&self, cs: Seq<ChoiceView>, scores: Seq<Score>, r: Option<ChoiceView>) -> bool;

    /// Scan `choices` in the exact order supplied and return a value copy of
    /// the winner, or `None`. Every scorer handle of every choice must
    /// resolve in the store; a dangling handle is a configuration error, not
    /// a runtime condition handled here.
    fn pick(&self, choices: &Vec<Choice>, scores: &ScoreStore) -> (r: Option<Choice>)
        requires
            all_resolve(choice_views(choices@), scores@),
        ensures
            self.picks(choice_views(choices@), scores@, result_view(r)),
    ;
}

/// Picks the first choice whose utility reaches the configured threshold.
/// Scanning stops at the first hit, so the list is a priority order and
/// evaluation cost is paid only as needed.
#[derive(Debug, Clone, Copy)]
pub struct FirstToScore {
    pub threshold: i64,
}

impl FirstToScore {
    pub fn new(threshold: i64) -> (r: Self)
        ensures
            r.threshold == threshold,
    {
        FirstToScore { threshold }
    }

    /// `pick`, also reporting how many choices were evaluated: the winning
    /// position plus one when there is a winner — nothing after the first
    /// qualifying choice is ever evaluated — and every choice otherwise.
    pub fn pick_counted(&self, choices: &Vec<Choice>, scores: &ScoreStore) -> (r: (
        Option<Choice>,
        usize,
    ))
        requires
            all_resolve(choice_views(choices@), scores@),
        ensures
            result_view(r.0) == winner_view(
                first_winner(utilities(choice_views(choices@), scores@), self.threshold as int),
                choice_views(choices@),
            ),
            r.1 == (match first_winner(
                utilities(choice_views(choices@), scores@),
                self.threshold as int,
            ) {
                Some(j) => j + 1,
                None => choices@.len() as int,
            }),
    {
        let ghost cs = choice_views(choices@);
        let ghost utils = utilities(cs, scores@);
        let mut i: usize = 0;
        while i < choices.len()
            invariant
                i <= choices@.len(),
                all_resolve(cs, scores@),
                cs == choice_views(choices@),
                utils == utilities(cs, scores@),
                first_winner(utils, self.threshold as int) == first_winner_from(
                    utils,
                    self.threshold as int,
                    i as int,
                ),
            decreases choices@.len() - i,
        {
            proof {
                assert(cs[i as int] == choices@[i as int]@);
                assert(cs[i as int].resolves_in(scores@));
            }
            let value = choices[i].calculate(scores);
            proof {
                assert(value == utils[i as int]);
            }
            if value >= self.threshold as i128 {
                proof {
                    assert(first_winner_from(utils, self.threshold as int, i as int) == Some(
                        i as int,
                    ));
                }
                return (Some(choices[i].clone()), i + 1);
            }
            proof {
                assert(first_winner_from(utils, self.threshold as int, i as int)
                    == first_winner_from(utils, self.threshold as int, i as int + 1));
            }
            i = i + 1;
        }
        (None, i)
    }
}

impl Default for FirstToScore {
    /// The default policy picks the first choice whose utility is at least
    /// zero.
    fn default() -> (r: Self)
        ensures
            r.threshold == 0,
    {
        FirstToScore { threshold: 0 }
    }
}

impl Picker for FirstToScore {
    open spec fn picks(
        &self,
        cs: Seq<ChoiceView>,
        scores: Seq<Score>,
        r: Option<ChoiceView>,
    ) -> bool {
        r == winner_view(first_winner(utilities(cs, scores), self.threshold as int), cs)
    }

    fn pick(&self, choices: &Vec<Choice>, scores: &ScoreStore) -> (r: Option<Choice>) {
        let r = self.pick_counted(choices, scores);
        r.0
    }
}

/// Picks the choice with the highest utility at or above the configured
/// threshold, evaluating every choice; the earliest of several equally high
/// choices keeps the win. The running best starts at zero, so a choice whose
/// utility is not positive never wins, whatever the threshold — an
/// observable boundary of this policy, stated and tested as such.
#[derive(Debug, Clone, Copy)]
pub struct HighestScore {
    pub threshold: i64,
}

impl HighestScore {
    pub fn new(threshold: i64) -> (r: Self)
        ensures
            r.threshold == threshold,
    {
        HighestScore { threshold }
    }

    /// `pick`, also reporting how many choices were evaluated: always every
    /// choice, wherever the maximum occurs.
    pub fn pick_counted(&self, choices: &Vec<Choice>, scores: &ScoreStore) -> (r: (
        Option<Choice>,
        usize,
    ))
        requires
            all_resolve(choice_views(choices@), scores@),
        ensures
            result_view(r.0) == winner_view(
                highest_winner(utilities(choice_views(choices@), scores@), self.threshold as int),
                choice_views(choices@),
            ),
            r.1 == choices@.len(),
    {
        let ghost cs = choice_views(choices@);
        let ghost utils = utilities(cs, scores@);
        let mut best_value: i128 = 0;
        let mut best: Option<Choice> = None;
        let ghost mut bi: Option<int> = None;
        let mut i: usize = 0;
        while i < choices.len()
            invariant
                i <= choices@.len(),
                all_resolve(cs, scores@),
                cs == choice_views(choices@),
                utils == utilities(cs, scores@),
                highest_winner(utils, self.threshold as int) == highest_winner_from(
                    utils,
                    self.threshold as int,
                    i as int,
                    best_value as int,
                    bi,
                ),
                match bi {
                    Some(b) => 0 <= b < i as int && result_view(best) == Some(cs[b]) && best_value
                        == utils[b],
                    None => best is None && best_value == 0,
                },
            decreases choices@.len() - i,
        {
            proof {
                assert(cs[i as int] == choices@[i as int]@);
                assert(cs[i as int].resolves_in(scores@));
            }
            let value = choices[i].calculate(scores);
            proof {
                assert(value == utils[i as int]);
            }
            if value >= self.threshold as i128 && value > best_value {
                best_value = value;
                best = Some(choices[i].clone());
                proof {
                    bi = Some(i as int);
                }
            }
            i = i + 1;
        }
        (best, i)
    }
}

impl Default for HighestScore {
    /// The default policy picks the highest positive utility.
    fn default() -> (r: Self)
        ensures
            r.threshold == 0,
    {
        HighestScore { threshold: 0 }
    }
}

impl Picker for HighestScore {
    open spec fn picks(
        &self,
        cs: Seq<ChoiceView>,
        scores: Seq<Score>,
        r: Option<ChoiceView>,
    ) -> bool {
        r == winner_view(highest_winner(utilities(cs, scores), self.threshold as int), cs)
    }

    fn pick(&self, choices: &Vec<Choice>, scores: &ScoreStore) -> (r: Option<Choice>) {
        let r = self.pick_counted(choices, scores);
        r.0
    }
}

} // verus!
