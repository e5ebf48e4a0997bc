//! The score model: scores, live scorer handles, the store that owns the
//! scores, and scorer definitions that build live instances.

use vstd::prelude::*;

verus! {

/// One consideration's contribution: a raw evaluated desirability and a
/// weight that scales its contribution in an aggregate. Both are fixed-point
/// integers at a scale the host picks; neither range is validated here, that
/// is the caller's responsibility.
#[derive(Debug, Clone, Copy, PartialEq, Eq, Structural)]
pub struct Score {
    pub value: i32,
    pub weight: i32,
}

impl Default for Score {
    /// A freshly instantiated score has zero value and zero weight; the
    /// per-tick evaluation step overwrites it in place.
    fn default() -> (s: Self)
        ensures
            s.value == 0,
            s.weight == 0,
    {
        Score { value: 0, weight: 0 }
    }
}

/// Handle to a built (live) scorer instance: an index into the [`ScoreStore`].
/// A handle is a lookup key, never an ownership relation.
#[derive(Debug, Clone, Copy, PartialEq, Eq, Structural)]
pub struct ScorerEnt(pub usize);

/// The score store owns every live [`Score`]. Choices and pickers hold only
/// [`ScorerEnt`] handles into it and read through them; the host's evaluation
/// step updates the stored scores between decision passes.
#[derive(Debug)]
pub struct ScoreStore {
    scores: Vec<Score>,
}

impl View for ScoreStore {
    type V = Seq<Score>;

    closed spec fn view(&self) -> Seq<Score> {
        self.scores@
    }
}

impl ScoreStore {
    /// An empty store: no scorer has been built yet.
    pub fn new() -> (s: Self)
        ensures
            s@ == Seq::<Score>::empty(),
    {
        ScoreStore { scores: Vec::new() }
    }

    /// How many live scores the store owns.
    pub fn len(&self) -> (n: usize)
        ensures
            n == self@.len(),
    {
        self.scores.len()
    }

    /// Attach one live score and hand back its handle. Existing handles keep
    /// their meaning.
    pub fn attach(&mut self, score: Score) -> (r: ScorerEnt)
        ensures
            final(self)@ == old(self)@.push(score),
            r.0 == old(self)@.len(),
    {
        let r = ScorerEnt(self.scores.len());
        self.scores.push(score);
        r
    }

    /// Read the current score behind a handle. The handle must resolve; a
    /// dangling handle is a configuration error the caller rules out.
    pub fn get(&self, ent: ScorerEnt) -> (r: Score)
        requires
            ent.0 < self@.len(),
        ensures
            r == self@[ent.0 as int],
    {
        self.scores[ent.0]
    }

    /// Overwrite the score behind a handle, as the evaluation step does every
    /// tick. No other entry moves.
    pub fn set(&mut self, ent: ScorerEnt, score: Score)
        requires
            ent.0 < old(self)@.len(),
        ensures
            final(self)@ == old(self)@.update(ent.0 as int, score),
    {
        self.scores.set(ent.0, score);
    }
}

/// A scorer definition: declarative, reusable configuration. Building it
/// attaches a live, mutable score for one owning entity and returns the
/// handle of that instance. New scorer kinds are added by implementing this
/// trait.
pub trait Scorer {
    /// What this scorer's `build` does to the store: relates the store's
    /// contents before and after the build to the returned handle.
    spec fn built(&self, pre: Seq<Score>, post: Seq<Score>, r: ScorerEnt) -> bool;

    /// Attach a live score (or several, for composite scorers) for `owner`.
    /// Every handle that resolved before still resolves to the same score,
    /// and the returned handle resolves in the grown store.
    fn build(&self, owner: u64, store: &mut ScoreStore) -> (r: ScorerEnt)
        ensures
            final(store)@.len() >= old(store)@.len(),
            forall|i: int| 0 <= i < old(store)@.len() ==> final(store)@[i] == old(store)@[i],
            r.0 < final(store)@.len(),
            self.built(old(store)@, final(store)@, r),
    ;
}

/// A leaf scorer whose evaluation is a constant: building it attaches a live
/// score that already holds the configured value and weight.
#[derive(Debug, Clone, Copy)]
pub struct FixedScore {
    pub value: i32,
    pub weight: i32,
}

impl Scorer for FixedScore {
    open spec fn built(&self, pre: Seq<Score>, post: Seq<Score>, r: ScorerEnt) -> bool {
        &&& post == pre.push(Score { value: self.value, weight: self.weight })
        &&& r.0 == pre.len()
    }

    fn build(&self, owner: u64, store: &mut ScoreStore) -> (r: ScorerEnt) {
        store.attach(Score { value: self.value, weight: self.weight })
    }
}

} // verus!
