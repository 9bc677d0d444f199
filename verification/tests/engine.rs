use topk_evaluation::confidence::{
    interval_of, BettingCS, ConfidenceError, DEFAULT_ALPHA, DEFAULT_RESOLUTION,
};
use topk_evaluation::fraction::{mean, HALF, ONE};
use topk_evaluation::ranking::{
    check_top_set, count_active, count_chosen, count_wins, find_top_set, is_separated, Standing,
};
use topk_evaluation::scorer::{ScoreInterval, ScoringFunctionType};
use topk_evaluation::names::{in_order, name_le, same_names};
use topk_evaluation::stopping::{
    count_failed, count_losses, count_status, failing_evaluators, mark_excluded, mark_failed, mark_selected,
    GlobalStoppingReason, StoppingRule,
};
use topk_evaluation::tracker::{EvaluatorTracker, Observation, VariantStatus, VariantTracker};

fn flags(low: usize, high: usize) -> Vec<bool> {
    (0..99).map(|i| low <= i && i <= high).collect()
}

fn all() -> Vec<bool> {
    vec![true; 99]
}

fn interval(lower: u64, est: u64, upper: u64) -> ScoreInterval {
    ScoreInterval { count: 10, mean_est: est, cs_lower: lower, cs_upper: upper }
}

fn standing(status: VariantStatus, lower: u64, upper: u64, failure_lower: u64) -> Standing {
    Standing { status, performance: interval(lower, (lower + upper) / 2, upper), failure_lower }
}

#[test]
fn fresh_sequence() {
    let cs = BettingCS::new("v".to_string(), DEFAULT_ALPHA, DEFAULT_RESOLUTION).unwrap();
    assert_eq!(cs.name, "v");
    assert_eq!(cs.count, 0);
    assert_eq!(cs.mean_est, HALF);
    assert_eq!(cs.mean_regularized, 500_000);
    assert_eq!(cs.variance_regularized, 250_000);
    assert_eq!(cs.cs_lower, 0);
    assert_eq!(cs.cs_upper, ONE);
    assert_eq!(cs.alpha, 50_000);
    assert_eq!(cs.resolution, 101);
    assert_eq!(cs.grid_len(), 99);
}

#[test]
fn sequence_refuses_bad_settings() {
    assert_eq!(BettingCS::new(String::new(), 0, 101).err(), Some(ConfidenceError::InvalidAlpha));
    assert_eq!(BettingCS::new(String::new(), ONE, 101).err(), Some(ConfidenceError::InvalidAlpha));
    assert_eq!(
        BettingCS::new(String::new(), 50_000, 2).err(),
        Some(ConfidenceError::InvalidResolution)
    );
    assert!(BettingCS::new(String::new(), 50_000, 3).is_ok());
}

#[test]
fn update_moments_and_interval() {
    let mut cs = BettingCS::new("v".to_string(), 50_000, 101).unwrap();
    assert_eq!(cs.update(900_000, &all()), Ok(()));
    assert_eq!(cs.count, 1);
    assert_eq!(cs.total, 900_000);
    assert_eq!(cs.mean_est, 900_000);
    assert_eq!(cs.mean_regularized, 700_000);
    assert_eq!(cs.deviation, 40_000_000_000);
    assert_eq!(cs.variance_regularized, 145_000);
    assert_eq!(cs.cs_lower, 0);
    assert_eq!(cs.cs_upper, ONE);

    assert_eq!(cs.update(500_000, &flags(40, 60)), Ok(()));
    assert_eq!(cs.count, 2);
    assert_eq!(cs.mean_est, 700_000);
    assert_eq!(cs.mean_regularized, 633_333);
    assert_eq!(cs.cs_lower, 400_000);
    assert_eq!(cs.cs_upper, 700_000);

    assert_eq!(cs.update(0, &flags(70, 98)), Ok(()));
    assert_eq!(cs.mean_est, 466_666);
    assert_eq!(cs.cs_lower, 466_666);
    assert_eq!(cs.cs_upper, ONE);

    assert_eq!(cs.update(ONE, &vec![false; 99]), Ok(()));
    assert_eq!(cs.mean_est, 600_000);
    assert_eq!(cs.cs_lower, 600_000);
    assert_eq!(cs.cs_upper, 600_000);
    assert!(cs.cs_lower <= cs.mean_est && cs.mean_est <= cs.cs_upper && cs.cs_upper <= ONE);
}

#[test]
fn update_refusals_leave_the_sequence() {
    let mut cs = BettingCS::new("v".to_string(), 50_000, 101).unwrap();
    assert_eq!(cs.update(ONE + 1, &all()), Err(ConfidenceError::ObservationOutOfRange));
    assert_eq!(cs.update(0, &vec![true; 98]), Err(ConfidenceError::GridMismatch));
    assert_eq!(cs.check(0, &vec![true; 100]), Some(ConfidenceError::GridMismatch));
    assert_eq!(cs.check(ONE, &all()), None);
    assert_eq!(cs.count, 0);
    cs.count = u64::MAX;
    cs.total = 0;
    cs.mean_est = 0;
    cs.mean_regularized = 0;
    cs.variance_regularized = 0;
    cs.cs_lower = 0;
    assert_eq!(cs.update(0, &all()), Err(ConfidenceError::CountExhausted));
    assert_eq!(cs.count, u64::MAX);
}

#[test]
fn interval_from_flags() {
    assert_eq!(interval_of(&all(), 101, 500_000), (0, ONE));
    assert_eq!(interval_of(&flags(10, 20), 101, 150_000), (100_000, 220_000));
    assert_eq!(interval_of(&flags(10, 20), 101, 50_000), (50_000, 220_000));
    assert_eq!(interval_of(&vec![false; 99], 101, 123_456), (123_456, 123_456));
    assert_eq!(interval_of(&vec![true], 3, 500_000), (0, ONE));
}

#[test]
fn mean_rounds_down() {
    assert_eq!(mean(&vec![]), 0);
    assert_eq!(mean(&vec![900_000]), 900_000);
    assert_eq!(mean(&vec![1, 2]), 1);
    assert_eq!(mean(&vec![ONE, ONE, 0]), 666_666);
}

#[test]
fn average_score() {
    let scoring = ScoringFunctionType::AverageEvaluatorScore;
    assert_eq!(
        scoring.score(&vec![]),
        ScoreInterval { count: 0, mean_est: HALF, cs_lower: 0, cs_upper: ONE }
    );
    let mut a = BettingCS::new("a".to_string(), 50_000, 101).unwrap();
    a.update(800_000, &flags(69, 89)).unwrap();
    a.update(800_000, &flags(69, 89)).unwrap();
    let mut b = BettingCS::new("b".to_string(), 50_000, 101).unwrap();
    b.update(400_000, &flags(29, 49)).unwrap();
    assert_eq!((a.cs_lower, a.mean_est, a.cs_upper), (690_000, 800_000, 910_000));
    assert_eq!((b.cs_lower, b.mean_est, b.cs_upper), (290_000, 400_000, 510_000));
    assert_eq!(
        scoring.score(&vec![a, b]),
        ScoreInterval { count: 1, mean_est: 600_000, cs_lower: 490_000, cs_upper: 710_000 }
    );
}

#[test]
fn separation_is_strict_at_zero_gap() {
    let a = interval(600_000, 700_000, 800_000);
    let b = interval(400_000, 500_000, 600_000);
    let c = interval(400_000, 500_000, 599_999);
    assert!(!is_separated(&a, &b, 0));
    assert!(is_separated(&a, &c, 0));
    assert!(!is_separated(&a, &c, 10));
    assert!(is_separated(&a, &interval(0, 200_000, 500_000), 100_000));
    assert!(!is_separated(&a, &interval(0, 200_000, 500_001), 100_000));
    assert!(!is_separated(&a, &b, u64::MAX));
}

#[test]
fn top_set_prefers_the_largest_size() {
    let s = vec![
        standing(VariantStatus::Active, 800_000, 1_000_000, 0),
        standing(VariantStatus::Active, 400_000, 600_000, 0),
        standing(VariantStatus::Active, 100_000, 300_000, 0),
    ];
    assert_eq!(count_active(&s), 3);
    assert_eq!(count_wins(&s, 0, 0), 2);
    assert_eq!(count_wins(&s, 1, 0), 1);
    assert_eq!(count_wins(&s, 2, 0), 0);
    assert_eq!(find_top_set(&s, 1, 1, 0), Some(vec![true, false, false]));
    assert_eq!(find_top_set(&s, 1, 2, 0), Some(vec![true, true, false]));
    assert_eq!(find_top_set(&s, 1, 3, 0), Some(vec![true, true, true]));
    assert_eq!(find_top_set(&s, 2, 2, 100_000), Some(vec![true, true, false]));
    assert_eq!(find_top_set(&s, 2, 2, 100_001), None);
    assert_eq!(find_top_set(&s, 1, 2, 200_001), None);
    assert_eq!(find_top_set(&s, 4, 5, 0), None);
    assert!(check_top_set(&s, &vec![true, false, false], 0));
    assert!(!check_top_set(&s, &vec![false, true, false], 0));
    assert!(!check_top_set(&s, &vec![true, false], 0));
    assert_eq!(count_chosen(&vec![true, false, true]), 2);
}

#[test]
fn top_set_needs_separation() {
    let s = vec![
        standing(VariantStatus::Active, 400_000, 600_000, 0),
        standing(VariantStatus::Active, 400_000, 600_000, 0),
    ];
    assert_eq!(find_top_set(&s, 1, 1, 0), None);
    assert_eq!(find_top_set(&s, 1, 2, 0), Some(vec![true, true]));
    let with_others = vec![
        standing(VariantStatus::Exclude, 900_000, 1_000_000, 0),
        standing(VariantStatus::Active, 400_000, 600_000, 0),
        standing(VariantStatus::Failed, 0, 1_000_000, 0),
    ];
    assert_eq!(find_top_set(&with_others, 1, 1, 0), Some(vec![false, true, false]));
}

#[test]
fn marking_failed_and_excluded() {
    let mut s = vec![
        standing(VariantStatus::Active, 800_000, 1_000_000, 100_001),
        standing(VariantStatus::Active, 400_000, 600_000, 100_000),
        standing(VariantStatus::Exclude, 100_000, 300_000, 900_000),
    ];
    mark_failed(&mut s, 100_000);
    assert_eq!(s[0].status, VariantStatus::Failed);
    assert_eq!(s[1].status, VariantStatus::Active);
    assert_eq!(s[2].status, VariantStatus::Exclude);
    assert_eq!(count_failed(&s), 1);

    let mut t = vec![
        standing(VariantStatus::Active, 800_000, 1_000_000, 0),
        standing(VariantStatus::Active, 400_000, 600_000, 0),
        standing(VariantStatus::Active, 100_000, 300_000, 0),
    ];
    assert_eq!(count_losses(&t, 2), 2);
    assert_eq!(count_losses(&t, 1), 1);
    mark_excluded(&mut t, 1);
    assert_eq!(
        t.iter().map(|x| x.status).collect::<Vec<_>>(),
        vec![VariantStatus::Active, VariantStatus::Active, VariantStatus::Exclude]
    );
    mark_excluded(&mut t, 1);
    assert_eq!(t[1].status, VariantStatus::Exclude);
    let mut u = vec![
        standing(VariantStatus::Active, 800_000, 1_000_000, 0),
        standing(VariantStatus::Active, 100_000, 300_000, 0),
    ];
    mark_excluded(&mut u, 2);
    assert_eq!(u[1].status, VariantStatus::Active);
    let mut tie = vec![
        standing(VariantStatus::Active, 600_000, 1_000_000, 0),
        standing(VariantStatus::Active, 100_000, 600_000, 0),
    ];
    mark_excluded(&mut tie, 1);
    assert_eq!(tie[1].status, VariantStatus::Active);
    mark_selected(&mut tie, &vec![true, false]);
    assert_eq!(tie[0].status, VariantStatus::Include);
    assert_eq!(tie[1].status, VariantStatus::Exclude);
}

fn tracker(name: &str, x: u64, low: usize, high: usize) -> VariantTracker {
    let mut t = VariantTracker::new(
        name.to_string(),
        &vec!["judge".to_string()],
        ScoringFunctionType::AverageEvaluatorScore,
        50_000,
        101,
    )
    .unwrap();
    t.record(&vec![Some(Observation { value: x, surviving: flags(low, high) })], false, &all())
        .unwrap();
    t
}

fn rule(k_min: u32, k_max: u32, epsilon: u64) -> StoppingRule {
    StoppingRule {
        k_min,
        k_max,
        epsilon,
        variant_failure_threshold: 50_000,
        evaluator_failure_threshold: 50_000,
    }
}

fn statuses(v: &Vec<VariantTracker>) -> Vec<VariantStatus> {
    v.iter().map(|t| t.status).collect()
}

#[test]
fn tracker_records_a_sample() {
    let mut t = tracker("a", 900_000, 84, 94);
    assert_eq!(t.status, VariantStatus::Active);
    assert_eq!(t.performance, ScoreInterval { count: 1, mean_est: 900_000, cs_lower: 840_000, cs_upper: 960_000 });
    assert_eq!(t.failures.count, 1);
    assert_eq!(t.failures.mean_est, 0);
    assert_eq!(t.record(&vec![None], true, &flags(50, 98)), Ok(()));
    assert_eq!(t.per_evaluator[0].count, 1);
    assert_eq!(t.failures.count, 2);
    assert_eq!(t.failures.mean_est, 500_000);
    assert_eq!(t.failures.cs_lower, 500_000);
    assert_eq!(t.record(&vec![], false, &all()), Err(ConfidenceError::EvaluatorMismatch));
    assert_eq!(
        t.record(&vec![Some(Observation { value: ONE + 1, surviving: all() })], false, &all()),
        Err(ConfidenceError::ObservationOutOfRange)
    );
    assert_eq!(t.record(&vec![None], false, &vec![]), Err(ConfidenceError::GridMismatch));
    assert_eq!(t.failures.count, 2);
}

#[test]
fn rule_finds_the_clear_winner() {
    let mut v = vec![
        tracker("a", 900_000, 84, 94),
        tracker("b", 500_000, 44, 54),
        tracker("c", 400_000, 34, 44),
    ];
    let e = vec![EvaluatorTracker::new("judge".to_string(), 50_000, 101).unwrap()];
    match rule(1, 1, 0).evaluate(&mut v, &e, false) {
        Some(GlobalStoppingReason::TopKFound { k, top_variants }) => {
            assert_eq!(k, 1);
            assert_eq!(top_variants, vec!["a".to_string()]);
        }
        other => panic!("unexpected {other:?}"),
    }
    assert_eq!(
        statuses(&v),
        vec![VariantStatus::Include, VariantStatus::Exclude, VariantStatus::Exclude]
    );
}

#[test]
fn rule_goes_on_or_ends_on_exhaustion() {
    let mut v = vec![tracker("a", 500_000, 44, 54), tracker("b", 500_000, 44, 54)];
    let e = vec![EvaluatorTracker::new("judge".to_string(), 50_000, 101).unwrap()];
    assert!(rule(1, 1, 50_000).evaluate(&mut v, &e, false).is_none());
    assert_eq!(statuses(&v), vec![VariantStatus::Active, VariantStatus::Active]);
    assert!(matches!(
        rule(1, 1, 50_000).evaluate(&mut v, &e, true),
        Some(GlobalStoppingReason::DatasetExhausted)
    ));
    assert_eq!(statuses(&v), vec![VariantStatus::Active, VariantStatus::Active]);
}

#[test]
fn rule_ends_on_failing_evaluators() {
    let mut v = vec![tracker("a", 900_000, 84, 94), tracker("b", 500_000, 44, 54)];
    let mut judge = EvaluatorTracker::new("llm_judge".to_string(), 50_000, 101).unwrap();
    judge.record(true, &flags(10, 98)).unwrap();
    let mut exact = EvaluatorTracker::new("exact_match".to_string(), 50_000, 101).unwrap();
    exact.record(true, &flags(5, 98)).unwrap();
    let fine = EvaluatorTracker::new("fine".to_string(), 50_000, 101).unwrap();
    assert_eq!(judge.failures.cs_lower, 100_000);
    assert_eq!(exact.failures.cs_lower, 50_000);
    assert!(judge.is_over_threshold(50_000));
    assert!(!exact.is_over_threshold(50_000));
    let e = vec![judge, exact, fine];
    assert_eq!(failing_evaluators(&e, 49_999), vec!["llm_judge".to_string(), "exact_match".to_string()]);
    match rule(1, 1, 0).evaluate(&mut v, &e, false) {
        Some(GlobalStoppingReason::EvaluatorsFailed { evaluator_names }) => {
            assert_eq!(evaluator_names, vec!["llm_judge".to_string()])
        }
        other => panic!("unexpected {other:?}"),
    }
    assert_eq!(statuses(&v), vec![VariantStatus::Active, VariantStatus::Active]);
}

#[test]
fn rule_ends_on_too_many_failed_variants() {
    let mut a = tracker("a", 500_000, 0, 98);
    a.record(&vec![None], true, &flags(20, 98)).unwrap();
    let mut b = tracker("b", 500_000, 0, 98);
    b.record(&vec![None], true, &flags(20, 98)).unwrap();
    let c = tracker("c", 700_000, 60, 80);
    let mut v = vec![a, b, c];
    let e = vec![EvaluatorTracker::new("judge".to_string(), 50_000, 101).unwrap()];
    let mut r = rule(2, 2, 0);
    r.variant_failure_threshold = 100_000;
    match r.evaluate(&mut v, &e, false) {
        Some(GlobalStoppingReason::TooManyVariantsFailed { num_failed }) => assert_eq!(num_failed, 2),
        other => panic!("unexpected {other:?}"),
    }
    assert_eq!(
        statuses(&v),
        vec![VariantStatus::Failed, VariantStatus::Failed, VariantStatus::Active]
    );
}

#[test]
fn status_never_returns_to_active() {
    let mut v = vec![
        tracker("a", 900_000, 84, 94),
        tracker("b", 500_000, 44, 54),
        tracker("c", 400_000, 34, 44),
    ];
    v[1].status = VariantStatus::Failed;
    v[2].status = VariantStatus::Exclude;
    let e: Vec<EvaluatorTracker> = vec![];
    let decision = rule(1, 1, 0).evaluate(&mut v, &e, false);
    assert!(matches!(decision, Some(GlobalStoppingReason::TopKFound { k: 1, .. })));
    assert_eq!(
        statuses(&v),
        vec![VariantStatus::Include, VariantStatus::Failed, VariantStatus::Exclude]
    );
}

#[test]
fn names_in_order() {
    let names: Vec<String> =
        ["b", "a", "ab", "", "B", "a", "\u{e9}", "z"].iter().map(|s| s.to_string()).collect();
    let mut expected = names.clone();
    expected.sort();
    assert_eq!(in_order(&names), expected);
    assert_eq!(expected, vec!["", "B", "a", "a", "ab", "b", "z", "\u{e9}"]);
    assert!(name_le(&"a".to_string(), &"a".to_string()));
    assert!(name_le(&"a".to_string(), &"ab".to_string()));
    assert!(!name_le(&"ab".to_string(), &"a".to_string()));
    assert!(name_le(&"Z".to_string(), &"a".to_string()));
    assert!(same_names(&names, &names.clone()));
    assert!(!same_names(&names, &expected));
    assert!(!same_names(&names, &vec![]));
}

#[test]
fn validity_checks() {
    let mut cs = BettingCS::new("v".to_string(), 50_000, 101).unwrap();
    assert!(cs.is_valid());
    cs.update(900_000, &flags(40, 95)).unwrap();
    assert!(cs.is_valid());
    let mut broken = cs.clone();
    broken.cs_lower = broken.mean_est + 1;
    assert!(!broken.is_valid());
    let mut broken = cs.clone();
    broken.mean_est = 1;
    assert!(!broken.is_valid());
    let mut broken = cs.clone();
    broken.total = u128::MAX;
    assert!(!broken.is_valid());
    let mut broken = cs.clone();
    broken.alpha = 0;
    assert!(!broken.is_valid());

    let mut t = tracker("a", 900_000, 84, 94);
    assert!(t.is_valid());
    t.performance.cs_upper = 1;
    assert!(!t.is_valid());
    let e = EvaluatorTracker::new("judge".to_string(), 50_000, 101).unwrap();
    assert!(e.is_valid());

    let s = vec![
        standing(VariantStatus::Include, 0, 1, 0),
        standing(VariantStatus::Failed, 0, 1, 0),
        standing(VariantStatus::Include, 0, 1, 0),
    ];
    assert_eq!(count_status(&s, VariantStatus::Include), 2);
    assert_eq!(count_status(&s, VariantStatus::Active), 0);
    assert_eq!(count_status(&s, VariantStatus::Failed), 1);
}
