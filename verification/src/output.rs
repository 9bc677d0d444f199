//! What a finished run reports.

use vstd::prelude::*;
use crate::confidence::BettingCS;
use crate::fraction::ONE;
use crate::names::{copy_names, texts};
use crate::sampling::SamplingLoop;
use crate::scorer::{lemma_average_score_wf, ScoreInterval};
use crate::stopping::GlobalStoppingReason;
use crate::tracker::VariantStatus;

verus! {

/// The report of a finished run. Each list holds one entry per variant, or per
/// evaluator, under its name and in the order of the trackers.
#[derive(Debug)]
pub struct TopKTaskOutput {
    /// The identity of the run.
    pub evaluation_run_id: u128,
    /// Where each variant stands.
    pub variant_status: Vec<(String, VariantStatus)>,
    /// The score of each variant with its interval.
    pub variant_performance: Vec<(String, ScoreInterval)>,
    /// The failure rate of each variant.
    pub variant_failures: Vec<(String, BettingCS)>,
    /// The failure rate of each evaluator.
    pub evaluator_failures: Vec<(String, BettingCS)>,
    /// Why the run ended.
    pub stopping_reason: GlobalStoppingReason,
    /// The number of datapoints processed.
    pub num_datapoints_processed: usize,
}

/// Whether two reasons say the same.
pub open spec fn same_reason(a: GlobalStoppingReason, b: GlobalStoppingReason) -> bool {
    match (a, b) {
        (
            GlobalStoppingReason::TopKFound { k: k1, top_variants: t1 },
            GlobalStoppingReason::TopKFound { k: k2, top_variants: t2 },
        ) => k1 == k2 && texts(t1@) == texts(t2@),
        (GlobalStoppingReason::DatasetExhausted, GlobalStoppingReason::DatasetExhausted) => true,
        (
            GlobalStoppingReason::EvaluatorsFailed { evaluator_names: n1 },
            GlobalStoppingReason::EvaluatorsFailed { evaluator_names: n2 },
        ) => texts(n1@) == texts(n2@),
        (
            GlobalStoppingReason::TooManyVariantsFailed { num_failed: f1 },
            GlobalStoppingReason::TooManyVariantsFailed { num_failed: f2 },
        ) => f1 == f2,
        _ => false,
    }
}

impl GlobalStoppingReason {
    /// A copy of the reason.
    pub fn duplicate(&self) -> (copy: GlobalStoppingReason)
        ensures
            same_reason(*self, copy),
    {
        match self {
            GlobalStoppingReason::TopKFound { k, top_variants } => GlobalStoppingReason::TopKFound {
                k: *k,
                top_variants: copy_names(top_variants),
            },
            GlobalStoppingReason::DatasetExhausted => GlobalStoppingReason::DatasetExhausted,
            GlobalStoppingReason::EvaluatorsFailed {
                evaluator_names,
            } => GlobalStoppingReason::EvaluatorsFailed {
                evaluator_names: copy_names(evaluator_names),
            },
            GlobalStoppingReason::TooManyVariantsFailed {
                num_failed,
            } => GlobalStoppingReason::TooManyVariantsFailed { num_failed: *num_failed },
        }
    }
}

/// Every interval that a run keeps lies in `[0, 1]` and holds its mean: the
/// score and the failure rate of each variant, each evaluator's score on each
/// variant, and the failure rate of each evaluator.
pub proof fn lemma_intervals_valid(run: &SamplingLoop)
    requires
        run.wf(),
    ensures
        forall|i: int|
            0 <= i < run.variants@.len() ==> {
                let t = #[trigger] run.variants@[i];
                &&& 0 <= t.performance.cs_lower <= t.performance.mean_est <= t.performance.cs_upper
                    <= ONE
                &&& 0 <= t.failures.cs_lower <= t.failures.mean_est <= t.failures.cs_upper <= ONE
                &&& forall|e: int|
                    0 <= e < t.per_evaluator@.len() ==> {
                        let cs = #[trigger] t.per_evaluator@[e];
                        0 <= cs.cs_lower <= cs.mean_est <= cs.cs_upper <= ONE
                    }
            },
        forall|e: int|
            0 <= e < run.evaluators@.len() ==> {
                let cs = (#[trigger] run.evaluators@[e]).failures;
                0 <= cs.cs_lower <= cs.mean_est <= cs.cs_upper <= ONE
            },
{
    assert forall|i: int| 0 <= i < run.variants@.len() implies {
        let t = #[trigger] run.variants@[i];
        &&& 0 <= t.performance.cs_lower <= t.performance.mean_est <= t.performance.cs_upper <= ONE
        &&& 0 <= t.failures.cs_lower <= t.failures.mean_est <= t.failures.cs_upper <= ONE
        &&& forall|e: int|
            0 <= e < t.per_evaluator@.len() ==> {
                let cs = #[trigger] t.per_evaluator@[e];
                0 <= cs.cs_lower <= cs.mean_est <= cs.cs_upper <= ONE
            }
    } by {
        let t = run.variants@[i];
        assert(t.wf());
        lemma_average_score_wf(t.per_evaluator@);
        assert forall|e: int| 0 <= e < t.per_evaluator@.len() implies {
            let cs = #[trigger] t.per_evaluator@[e];
            0 <= cs.cs_lower <= cs.mean_est <= cs.cs_upper <= ONE
        } by {
            assert(t.per_evaluator@[e].wf());
        }
    }
    assert forall|e: int| 0 <= e < run.evaluators@.len() implies {
        let cs = (#[trigger] run.evaluators@[e]).failures;
        0 <= cs.cs_lower <= cs.mean_est <= cs.cs_upper <= ONE
    } by {
        assert(run.evaluators@[e].wf());
    }
}

/// The datapoints processed never exceed the dataset, nor the bound on them
/// where there is one.
pub proof fn lemma_processed_bounded(run: &SamplingLoop)
    requires
        run.wf(),
    ensures
        run.processed <= run.dataset_len,
        run.max_datapoints is Some ==> run.processed <= run.max_datapoints->0,
{
}

/// Whether `out` is the report of the ended run `run` under the identity `id`:
/// it holds the reason and the number of datapoints processed, and for each
/// variant and each evaluator, under its name and in the order of the
/// trackers, what its tracker holds.
pub open spec fn reports(run: &SamplingLoop, id: u128, out: &TopKTaskOutput) -> bool {
    let n = run.variants@.len();
    &&& run.stopping_reason is Some
    &&& out.evaluation_run_id == id
    &&& same_reason(run.stopping_reason->0, out.stopping_reason)
    &&& out.num_datapoints_processed == run.processed
    &&& out.num_datapoints_processed <= run.limit()
    &&& out.variant_status@.len() == n
    &&& out.variant_performance@.len() == n
    &&& out.variant_failures@.len() == n
    &&& forall|i: int|
        0 <= i < n ==> {
            &&& (#[trigger] out.variant_status@[i]).0@ == run.variants@[i].name@
            &&& out.variant_status@[i].1 == run.variants@[i].status
        }
    &&& forall|i: int|
        0 <= i < n ==> {
            &&& (#[trigger] out.variant_performance@[i]).0@ == run.variants@[i].name@
            &&& out.variant_performance@[i].1 == run.variants@[i].performance
            &&& out.variant_performance@[i].1.wf()
        }
    &&& forall|i: int|
        0 <= i < n ==> {
            &&& (#[trigger] out.variant_failures@[i]).0@ == run.variants@[i].name@
            &&& out.variant_failures@[i].1 == run.variants@[i].failures
            &&& out.variant_failures@[i].1.wf()
        }
    &&& out.evaluator_failures@.len() == run.evaluators@.len()
    &&& forall|e: int|
        0 <= e < run.evaluators@.len() ==> {
            &&& (#[trigger] out.evaluator_failures@[e]).0@ == run.evaluators@[e].name@
            &&& out.evaluator_failures@[e].1 == run.evaluators@[e].failures
            &&& out.evaluator_failures@[e].1.wf()
        }
}

impl SamplingLoop {
    /// The report of the run, once it has ended; `None` while it goes on.
    pub fn output(&self, evaluation_run_id: u128) -> (result: Option<TopKTaskOutput>)
        requires
            self.wf(),
        ensures
            result is Some == self.stopping_reason is Some,
            result is Some ==> reports(self, evaluation_run_id, &result->0),
    {
        let stopping_reason = match &self.stopping_reason {
            Some(reason) => reason.duplicate(),
            None => {
                return None;
            },
        };
        let n: usize = self.variants.len();
        let mut variant_status: Vec<(String, VariantStatus)> = Vec::new();
        let mut variant_performance: Vec<(String, ScoreInterval)> = Vec::new();
        let mut variant_failures: Vec<(String, BettingCS)> = Vec::new();
        let mut i: usize = 0;
        while i < n
            invariant
                n == self.variants@.len(),
                0 <= i <= n,
                self.wf(),
                variant_status@.len() == i,
                variant_performance@.len() == i,
                variant_failures@.len() == i,
                forall|a: int|
                    0 <= a < i ==> {
                        &&& (#[trigger] variant_status@[a]).0@ == self.variants@[a].name@
                        &&& variant_status@[a].1 == self.variants@[a].status
                    },
                forall|a: int|
                    0 <= a < i ==> {
                        &&& (#[trigger] variant_performance@[a]).0@ == self.variants@[a].name@
                        &&& variant_performance@[a].1 == self.variants@[a].performance
                        &&& variant_performance@[a].1.wf()
                    },
                forall|a: int|
                    0 <= a < i ==> {
                        &&& (#[trigger] variant_failures@[a]).0@ == self.variants@[a].name@
                        &&& variant_failures@[a].1 == self.variants@[a].failures
                        &&& variant_failures@[a].1.wf()
                    },
            decreases n - i,
        {
            let t = &self.variants[i];
            proof {
                assert(self.variants@[i as int].wf());
                lemma_average_score_wf(t.per_evaluator@);
            }
            variant_status.push((t.name.clone(), t.status));
            variant_performance.push((t.name.clone(), t.performance));
            variant_failures.push((t.name.clone(), t.failures.clone()));
            i = i + 1;
        }
        let m: usize = self.evaluators.len();
        let mut evaluator_failures: Vec<(String, BettingCS)> = Vec::new();
        let mut e: usize = 0;
        while e < m
            invariant
                m == self.evaluators@.len(),
                0 <= e <= m,
                self.wf(),
                evaluator_failures@.len() == e,
                forall|a: int|
                    0 <= a < e ==> {
                        &&& (#[trigger] evaluator_failures@[a]).0@ == self.evaluators@[a].name@
                        &&& evaluator_failures@[a].1 == self.evaluators@[a].failures
                        &&& evaluator_failures@[a].1.wf()
                    },
            decreases m - e,
        {
            let t = &self.evaluators[e];
            assert(self.evaluators@[e as int].wf());
            evaluator_failures.push((t.name.clone(), t.failures.clone()));
            e = e + 1;
        }
        Some(
            TopKTaskOutput {
                evaluation_run_id,
                variant_status,
                variant_performance,
                variant_failures,
                evaluator_failures,
                stopping_reason,
                num_datapoints_processed: self.processed,
            },
        )
    }
}

} // verus!
