use utility_ai::choices::{Choice, Compose};
use utility_ai::scorers::{FixedScore, Score, ScoreStore, Scorer, ScorerEnt};

#[test]
fn score_default_is_zero_value_zero_weight() {
    let s = Score::default();
    assert_eq!(s.value, 0);
    assert_eq!(s.weight, 0);
}

#[test]
fn fixed_score_build_attaches_configured_score() {
    let mut store = ScoreStore::new();
    let scorer = FixedScore { value: 420, weight: 7 };
    let ent = scorer.build(1, &mut store);
    assert_eq!(store.len(), 1);
    let s = store.get(ent);
    assert_eq!(s.value, 420);
    assert_eq!(s.weight, 7);
}

#[test]
fn build_preserves_existing_handles() {
    let mut store = ScoreStore::new();
    let a = FixedScore { value: 1, weight: 1 }.build(1, &mut store);
    let b = FixedScore { value: 2, weight: 2 }.build(2, &mut store);
    assert_ne!(a, b);
    assert_eq!(store.len(), 2);
    assert_eq!(store.get(a).value, 1);
    assert_eq!(store.get(b).value, 2);
}

#[test]
fn store_set_overwrites_in_place() {
    // The evaluation step rewrites a live score every tick; only that entry
    // changes.
    let mut store = ScoreStore::new();
    let a = store.attach(Score { value: 10, weight: 1 });
    let b = store.attach(Score { value: 20, weight: 2 });
    store.set(a, Score { value: 11, weight: 3 });
    assert_eq!(store.get(a).value, 11);
    assert_eq!(store.get(a).weight, 3);
    assert_eq!(store.get(b).value, 20);
    assert_eq!(store.len(), 2);
}

#[test]
fn weighted_sum_is_exact() {
    let mut store = ScoreStore::new();
    let a = store.attach(Score { value: 2000, weight: 3 });
    let b = store.attach(Score { value: -4000, weight: 5 });
    let choice = Choice {
        scorers: vec![a, b],
        compose: Compose::WeightedSum,
        action: 0,
    };
    assert_eq!(choice.calculate(&store), 6000 - 20000);
}

#[test]
fn weighted_max_picks_largest_contribution() {
    let mut store = ScoreStore::new();
    let a = store.attach(Score { value: 2, weight: 3 });
    let b = store.attach(Score { value: -4, weight: 5 });
    let c = store.attach(Score { value: 5, weight: 2 });
    let choice = Choice {
        scorers: vec![a, b, c],
        compose: Compose::WeightedMax,
        action: 0,
    };
    assert_eq!(choice.calculate(&store), 10);
}

#[test]
fn no_scorers_yield_zero_utility() {
    let store = ScoreStore::new();
    let sum = Choice {
        scorers: vec![],
        compose: Compose::WeightedSum,
        action: 0,
    };
    let max = Choice {
        scorers: vec![],
        compose: Compose::WeightedMax,
        action: 0,
    };
    assert_eq!(sum.calculate(&store), 0);
    assert_eq!(max.calculate(&store), 0);
}

#[test]
fn extreme_scores_do_not_overflow() {
    let mut store = ScoreStore::new();
    let big = Score { value: i32::MAX, weight: i32::MAX };
    let small = Score { value: i32::MIN, weight: i32::MAX };
    let a = store.attach(big);
    let b = store.attach(big);
    let c = store.attach(small);
    let choice = Choice {
        scorers: vec![a, b, c],
        compose: Compose::WeightedSum,
        action: 0,
    };
    let product = i32::MAX as i128 * i32::MAX as i128;
    let low = i32::MIN as i128 * i32::MAX as i128;
    assert_eq!(choice.calculate(&store), product + product + low);
}

#[test]
fn choice_clone_is_a_value_copy() {
    let mut store = ScoreStore::new();
    let a = store.attach(Score { value: 5, weight: 1 });
    let choice = Choice {
        scorers: vec![a, ScorerEnt(0)],
        compose: Compose::WeightedMax,
        action: 9,
    };
    let copy = choice.clone();
    assert_eq!(copy.action, 9);
    assert_eq!(copy.compose, choice.compose);
    assert_eq!(copy.scorers, choice.scorers);
}
