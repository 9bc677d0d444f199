use topk_evaluation::output::TopKTaskOutput;
use topk_evaluation::params::{CacheEnabledMode, RunTopKEvaluationParams};
use topk_evaluation::sampling::{Batch, LoopError, SampleReport, SamplingLoop, Step};
use topk_evaluation::scorer::ScoringFunctionType;
use topk_evaluation::stopping::GlobalStoppingReason;
use topk_evaluation::tracker::{Observation, VariantStatus};

const ONE: u64 = 1_000_000;

/// The wealth processes of one confidence sequence, in floating point.
struct Bettor {
    up: Vec<f64>,
    down: Vec<f64>,
    count: f64,
    sum: f64,
    deviation: f64,
}

impl Bettor {
    fn new() -> Bettor {
        Bettor { up: vec![1.0; 99], down: vec![1.0; 99], count: 0.0, sum: 0.0, deviation: 0.0 }
    }

    fn step(&mut self, x: f64) -> Vec<bool> {
        let alpha = 0.05;
        let n = self.count + 1.0;
        let variance = (0.25 + self.deviation) / n;
        let bet = (2.0 * (2.0f64 / alpha).ln() / (n * variance)).sqrt();
        let mut surviving = Vec::new();
        for i in 0..99 {
            let m = (i as f64 + 1.0) / 100.0;
            let rise = (1.0 + bet.min(0.5 / m) * (x - m)).max(0.0);
            let fall = (1.0 - bet.min(0.5 / (1.0 - m)) * (x - m)).max(0.0);
            self.up[i] = (self.up[i] * rise).min(f64::MAX);
            self.down[i] = (self.down[i] * fall).min(f64::MAX);
            surviving.push(self.up[i] < 1.0 / alpha && self.down[i] < 1.0 / alpha);
        }
        self.count = n;
        self.sum += x;
        let shrunk = (0.5 + self.sum) / (n + 1.0);
        self.deviation += (x - shrunk) * (x - shrunk);
        surviving
    }
}

#[derive(Clone, Copy)]
enum Outcome {
    InferenceFails,
    EvaluatorFails,
    Score(f64),
}

fn params(names: &[&str], k_min: u32, k_max: u32) -> RunTopKEvaluationParams {
    RunTopKEvaluationParams {
        evaluation_name: "test_evaluation".to_string(),
        dataset_name: "test_dataset".to_string(),
        variant_names: names.iter().map(|s| s.to_string()).collect(),
        k_min,
        k_max,
        epsilon: None,
        max_datapoints: None,
        batch_size: None,
        variant_failure_threshold: 50_000,
        evaluator_failure_threshold: 50_000,
        concurrency: 5,
        inference_cache: CacheEnabledMode::On,
        scoring_function: ScoringFunctionType::AverageEvaluatorScore,
    }
}

fn limit(p: &RunTopKEvaluationParams, dataset_len: usize) -> usize {
    p.max_datapoints.map_or(dataset_len, |m| m.min(dataset_len))
}

/// Runs the loop to its end with one evaluator and the given outcomes.
fn drive(p: &RunTopKEvaluationParams, dataset_len: usize, outcome: fn(&str, usize) -> Outcome) -> TopKTaskOutput {
    let mut run = SamplingLoop::new(p, &vec!["judge".to_string()], dataset_len).unwrap();
    let n = run.variants.len();
    let mut scores: Vec<Bettor> = (0..n).map(|_| Bettor::new()).collect();
    let mut failures: Vec<Bettor> = (0..n).map(|_| Bettor::new()).collect();
    let mut judge = Bettor::new();
    let mut seen: Vec<VariantStatus> = run.variants.iter().map(|t| t.status).collect();
    loop {
        let batch = match run.next_batch() {
            Step::Run(batch) => batch,
            Step::Stop => break,
        };
        assert_eq!(batch.first, run.processed);
        assert!(batch.len >= 1 && batch.len <= p.effective_batch_size());
        assert_eq!(run.next_batch(), Step::Run(batch));
        assert_eq!(run.finish_batch().err(), if run.active_positions().is_empty() {
            None
        } else {
            Some(LoopError::BatchIncomplete)
        });
        if run.active_positions().is_empty() {
            continue;
        }
        for v in run.active_positions() {
            for d in batch.first..batch.first + batch.len {
                let name = run.variants[v].name.clone();
                let mut report = SampleReport {
                    variant: v,
                    datapoint: d,
                    inference_failed: false,
                    scores: vec![None],
                    evaluator_verdicts: vec![vec![true; 99]],
                    failure_surviving: vec![],
                };
                match outcome(&name, d) {
                    Outcome::InferenceFails => {
                        report.inference_failed = true;
                        report.failure_surviving = failures[v].step(1.0);
                    }
                    Outcome::EvaluatorFails => {
                        report.evaluator_verdicts = vec![judge.step(1.0)];
                        report.failure_surviving = failures[v].step(1.0);
                    }
                    Outcome::Score(x) => {
                        report.scores = vec![Some(Observation {
                            value: (x * ONE as f64).round() as u64,
                            surviving: scores[v].step(x),
                        })];
                        report.evaluator_verdicts = vec![judge.step(0.0)];
                        report.failure_surviving = failures[v].step(0.0);
                    }
                }
                assert_eq!(run.record_sample(&report), Ok(()));
            }
        }
        assert!(run.is_valid());
        let stopped = run.finish_batch().unwrap();
        assert_eq!(stopped, run.is_stopped());
        assert!(run.is_valid());
        assert!(run.processed <= limit(p, dataset_len));
        for (i, t) in run.variants.iter().enumerate() {
            if seen[i] != VariantStatus::Active {
                assert_eq!(t.status, seen[i]);
            }
            seen[i] = t.status;
            assert!(t.performance.cs_lower <= t.performance.mean_est);
            assert!(t.performance.mean_est <= t.performance.cs_upper);
            assert!(t.performance.cs_upper <= ONE);
            assert!(t.failures.cs_lower <= t.failures.mean_est);
            assert!(t.failures.mean_est <= t.failures.cs_upper && t.failures.cs_upper <= ONE);
        }
    }
    assert_eq!(run.next_batch(), Step::Stop);
    assert_eq!(run.finish_batch(), Err(LoopError::NoBatchOpen));
    let out = run.output(42).unwrap();
    assert_eq!(out.evaluation_run_id, 42);
    assert_eq!(out.variant_status.len(), n);
    assert_eq!(out.variant_performance.len(), n);
    assert_eq!(out.variant_failures.len(), n);
    assert_eq!(out.evaluator_failures.len(), 1);
    assert!(out.num_datapoints_processed <= limit(p, dataset_len));
    let count = |s: VariantStatus| out.variant_status.iter().filter(|(_, x)| *x == s).count();
    assert_eq!(
        count(VariantStatus::Active)
            + count(VariantStatus::Include)
            + count(VariantStatus::Exclude)
            + count(VariantStatus::Failed),
        p.variant_names.len()
    );
    match &out.stopping_reason {
        GlobalStoppingReason::TopKFound { k, top_variants } => {
            assert_eq!(top_variants.len(), *k as usize);
            assert!(p.k_min <= *k && *k <= p.k_max);
            for (name, status) in &out.variant_status {
                if top_variants.contains(name) {
                    assert_eq!(*status, VariantStatus::Include);
                } else {
                    assert!(*status == VariantStatus::Exclude || *status == VariantStatus::Failed);
                }
            }
        }
        GlobalStoppingReason::TooManyVariantsFailed { num_failed } => {
            assert_eq!(count(VariantStatus::Failed), *num_failed);
            assert!(p.variant_names.len() - num_failed < p.k_min as usize);
        }
        _ => {}
    }
    out
}

fn status_of(out: &TopKTaskOutput, name: &str) -> VariantStatus {
    out.variant_status.iter().find(|(n, _)| n == name).unwrap().1
}

#[test]
fn scenario_clear_winner() {
    let p = params(&["variant_c", "variant_a", "variant_b"], 1, 1);
    let out = drive(&p, 500, |name, _| match name {
        "variant_a" => Outcome::Score(0.9),
        "variant_b" => Outcome::Score(0.5),
        _ => Outcome::Score(0.4),
    });
    match &out.stopping_reason {
        GlobalStoppingReason::TopKFound { k, top_variants } => {
            assert_eq!(*k, 1);
            assert_eq!(top_variants, &vec!["variant_a".to_string()]);
        }
        other => panic!("unexpected {other:?}"),
    }
    assert_eq!(status_of(&out, "variant_a"), VariantStatus::Include);
    assert_eq!(status_of(&out, "variant_b"), VariantStatus::Exclude);
    assert_eq!(status_of(&out, "variant_c"), VariantStatus::Exclude);
    assert!(out.num_datapoints_processed < 500);
    assert_eq!(out.variant_status[0].0, "variant_a");
    let again = drive(&p, 500, |name, _| match name {
        "variant_a" => Outcome::Score(0.9),
        "variant_b" => Outcome::Score(0.5),
        _ => Outcome::Score(0.4),
    });
    assert_eq!(again.num_datapoints_processed, out.num_datapoints_processed);
    assert_eq!(again.variant_performance, out.variant_performance);
}

#[test]
fn scenario_dataset_exhausted_without_separation() {
    let mut p = params(&["variant_a", "variant_b"], 1, 1);
    p.epsilon = Some(50_000);
    p.max_datapoints = Some(50);
    let out = drive(&p, 80, |_, _| Outcome::Score(0.5));
    assert!(matches!(out.stopping_reason, GlobalStoppingReason::DatasetExhausted));
    assert_eq!(out.num_datapoints_processed, 50);
    assert_eq!(status_of(&out, "variant_a"), VariantStatus::Active);
    assert_eq!(status_of(&out, "variant_b"), VariantStatus::Active);
    assert_eq!(out.variant_performance[0].1.mean_est, 500_000);
    assert_eq!(out.variant_performance[0].1.count, 50);
}

#[test]
fn scenario_small_dataset_bounds_the_run() {
    let mut p = params(&["variant_a", "variant_b"], 1, 1);
    p.batch_size = Some(4);
    p.max_datapoints = Some(100);
    let out = drive(&p, 10, |_, _| Outcome::Score(0.5));
    assert!(matches!(out.stopping_reason, GlobalStoppingReason::DatasetExhausted));
    assert_eq!(out.num_datapoints_processed, 10);
}

#[test]
fn scenario_evaluator_crashes() {
    let p = params(&["variant_a", "variant_b"], 1, 1);
    let out = drive(&p, 100, |_, _| Outcome::EvaluatorFails);
    match &out.stopping_reason {
        GlobalStoppingReason::EvaluatorsFailed { evaluator_names } => {
            assert_eq!(evaluator_names, &vec!["judge".to_string()])
        }
        other => panic!("unexpected {other:?}"),
    }
    assert_eq!(out.evaluator_failures[0].0, "judge");
    assert!(out.evaluator_failures[0].1.cs_lower > 50_000);
    assert_eq!(out.evaluator_failures[0].1.mean_est, ONE);
}

#[test]
fn scenario_too_many_variants_fail() {
    let mut p = params(&["variant_a", "variant_b", "variant_c"], 2, 2);
    p.variant_failure_threshold = 100_000;
    let out = drive(&p, 100, |name, _| match name {
        "variant_c" => Outcome::Score(0.7),
        _ => Outcome::InferenceFails,
    });
    match &out.stopping_reason {
        GlobalStoppingReason::TooManyVariantsFailed { num_failed } => assert_eq!(*num_failed, 2),
        other => panic!("unexpected {other:?}"),
    }
    assert_eq!(status_of(&out, "variant_a"), VariantStatus::Failed);
    assert_eq!(status_of(&out, "variant_b"), VariantStatus::Failed);
    assert_eq!(status_of(&out, "variant_c"), VariantStatus::Active);
}

#[test]
fn loop_refuses_reports_out_of_turn() {
    let p = params(&["a", "b"], 1, 1);
    let mut run = SamplingLoop::new(&p, &vec!["judge".to_string()], 3).unwrap();
    let report = |variant: usize, datapoint: usize| SampleReport {
        variant,
        datapoint,
        inference_failed: true,
        scores: vec![None],
        evaluator_verdicts: vec![vec![]],
        failure_surviving: vec![true; 99],
    };
    assert_eq!(run.record_sample(&report(0, 0)), Err(LoopError::NoBatchOpen));
    assert_eq!(run.next_batch(), Step::Run(Batch { first: 0, len: 3 }));
    assert_eq!(run.active_positions(), vec![0, 1]);
    assert_eq!(run.record_sample(&report(1, 0)), Err(LoopError::UnexpectedSample));
    assert_eq!(run.record_sample(&report(0, 1)), Err(LoopError::UnexpectedSample));
    let mut scored = report(0, 0);
    scored.scores = vec![Some(Observation { value: 1, surviving: vec![true; 99] })];
    assert_eq!(run.record_sample(&scored), Err(LoopError::ScoreWithoutInference));
    let mut short = report(0, 0);
    short.failure_surviving = vec![true; 3];
    assert!(matches!(run.record_sample(&short), Err(LoopError::Refused(_))));
    let mut none = report(0, 0);
    none.scores = vec![];
    assert!(matches!(run.record_sample(&none), Err(LoopError::Refused(_))));
    for v in 0..2 {
        for d in 0..3 {
            assert_eq!(run.record_sample(&report(v, d)), Ok(()));
        }
    }
    assert_eq!(run.record_sample(&report(0, 0)), Err(LoopError::UnexpectedSample));
    assert_eq!(run.datapoint_limit(), 3);
    assert!(run.is_valid());
    run.offset = 5;
    assert!(!run.is_valid());
    run.offset = 0;
    run.variants[0].status = VariantStatus::Include;
    assert!(!run.is_valid());
    run.variants[0].status = VariantStatus::Active;
    assert_eq!(run.finish_batch(), Ok(false));
    assert_eq!(run.processed, 3);
    assert!(run.output(1).is_none());
    assert_eq!(run.next_batch(), Step::Stop);
    assert!(matches!(
        run.output(1).unwrap().stopping_reason,
        GlobalStoppingReason::DatasetExhausted
    ));
}
