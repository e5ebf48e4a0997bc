use utility_ai::choices::{Choice, Compose};
use utility_ai::pickers::{FirstToScore, HighestScore, Picker};
use utility_ai::scorers::{Score, ScoreStore};

/// One single-scorer choice per value, each with weight 1, actions numbered
/// by position.
fn weighted_choices(values: &[i32], store: &mut ScoreStore) -> Vec<Choice> {
    let mut choices: Vec<Choice> = Vec::new();
    for (i, v) in values.iter().enumerate() {
        let ent = store.attach(Score { value: *v, weight: 1 });
        choices.push(Choice {
            scorers: vec![ent],
            compose: Compose::WeightedSum,
            action: i as u64,
        });
    }
    choices
}

fn action_of(r: Option<Choice>) -> Option<u64> {
    r.map(|c| c.action)
}

#[test]
fn first_to_score_picks_earliest_qualifying() {
    // 0.3, 0.9, 0.6 in thousandths; threshold 0.5: B is the first to qualify.
    let mut store = ScoreStore::new();
    let choices = weighted_choices(&[300, 900, 600], &mut store);
    let r = FirstToScore::new(500).pick(&choices, &store);
    assert_eq!(action_of(r), Some(1));
}

#[test]
fn highest_score_picks_maximum() {
    let mut store = ScoreStore::new();
    let choices = weighted_choices(&[300, 900, 600], &mut store);
    let r = HighestScore::new(500).pick(&choices, &store);
    assert_eq!(action_of(r), Some(1));
}

#[test]
fn highest_score_above_all_returns_none() {
    let mut store = ScoreStore::new();
    let choices = weighted_choices(&[300, 900, 600], &mut store);
    let r = HighestScore::new(950).pick(&choices, &store);
    assert!(r.is_none());
}

#[test]
fn highest_score_tie_broken_by_order() {
    // 0.7 and 0.7: the earlier choice keeps the win.
    let mut store = ScoreStore::new();
    let choices = weighted_choices(&[700, 700], &mut store);
    let r = HighestScore::new(500).pick(&choices, &store);
    assert_eq!(action_of(r), Some(0));
}

#[test]
fn empty_choices_no_winner() {
    let store = ScoreStore::new();
    let choices: Vec<Choice> = Vec::new();
    for t in [-1000, 0, 500] {
        assert!(FirstToScore::new(t).pick(&choices, &store).is_none());
        assert!(HighestScore::new(t).pick(&choices, &store).is_none());
    }
}

#[test]
fn single_choice_above_threshold_wins() {
    let mut store = ScoreStore::new();
    let choices = weighted_choices(&[800], &mut store);
    assert_eq!(action_of(FirstToScore::new(500).pick(&choices, &store)), Some(0));
    assert_eq!(action_of(HighestScore::new(500).pick(&choices, &store)), Some(0));
}

#[test]
fn highest_score_all_zero_at_zero_threshold_none() {
    // The boundary quirk: a zero-valued choice never beats the
    // zero-initialized running best, even at a zero threshold.
    let mut store = ScoreStore::new();
    let choices = weighted_choices(&[0, 0, 0], &mut store);
    assert!(HighestScore::new(0).pick(&choices, &store).is_none());
    // FirstToScore has no such quirk: zero reaches a zero threshold.
    assert_eq!(action_of(FirstToScore::new(0).pick(&choices, &store)), Some(0));
}

#[test]
fn first_to_score_short_circuits() {
    let mut store = ScoreStore::new();
    let choices = weighted_choices(&[300, 900, 600], &mut store);
    let (r, evaluated) = FirstToScore::new(500).pick_counted(&choices, &store);
    assert_eq!(action_of(r), Some(1));
    assert_eq!(evaluated, 2);

    let (r, evaluated) = FirstToScore::new(2000).pick_counted(&choices, &store);
    assert!(r.is_none());
    assert_eq!(evaluated, 3);
}

#[test]
fn highest_score_evaluates_every_choice() {
    let mut store = ScoreStore::new();
    let choices = weighted_choices(&[900, 300, 600], &mut store);
    let (r, evaluated) = HighestScore::new(500).pick_counted(&choices, &store);
    assert_eq!(action_of(r), Some(0));
    assert_eq!(evaluated, 3);

    let mut store = ScoreStore::new();
    let choices = weighted_choices(&[300, 600, 900], &mut store);
    let (r, evaluated) = HighestScore::new(500).pick_counted(&choices, &store);
    assert_eq!(action_of(r), Some(2));
    assert_eq!(evaluated, 3);
}

#[test]
fn first_to_score_prefers_order_over_magnitude() {
    let mut store = ScoreStore::new();
    let choices = weighted_choices(&[600, 900], &mut store);
    assert_eq!(action_of(FirstToScore::new(500).pick(&choices, &store)), Some(0));
}

#[test]
fn exact_threshold_qualifies() {
    let mut store = ScoreStore::new();
    let choices = weighted_choices(&[500], &mut store);
    assert_eq!(action_of(FirstToScore::new(500).pick(&choices, &store)), Some(0));
    assert_eq!(action_of(HighestScore::new(500).pick(&choices, &store)), Some(0));
}

#[test]
fn highest_score_shuts_out_nonpositive_utilities() {
    // Both utilities reach the negative threshold, but neither is positive,
    // so HighestScore picks nothing while FirstToScore picks the first.
    let mut store = ScoreStore::new();
    let choices = weighted_choices(&[-200, 0], &mut store);
    assert!(HighestScore::new(-500).pick(&choices, &store).is_none());
    assert_eq!(action_of(FirstToScore::new(-500).pick(&choices, &store)), Some(0));
}

#[test]
fn default_pickers_have_zero_threshold() {
    let first = FirstToScore::default();
    let highest = HighestScore::default();
    assert_eq!(first.threshold, 0);
    assert_eq!(highest.threshold, 0);
}
