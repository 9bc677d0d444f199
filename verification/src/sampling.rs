//! The sampling loop, as a protocol between this module and its driver.
//!
//! The driver draws datapoints, runs inferences and evaluators, and sizes the
//! bets; this module decides. One round is: [`SamplingLoop::next_batch`] names
//! the datapoints to draw; the driver reports every pair of an active variant
//! and a drawn datapoint to [`SamplingLoop::record_sample`], variant by variant
//! in the order of their positions and datapoint by datapoint; then
//! [`SamplingLoop::finish_batch`] evaluates the stopping rule. The rule never
//! runs while a batch is open, and every pair of a batch is recorded once.

use vstd::prelude::*;
use vstd::pervasive::unreached;
use crate::confidence::{ConfidenceError, DEFAULT_ALPHA, DEFAULT_RESOLUTION};
use crate::counting::{count_where, lemma_count_bound, lemma_count_equal};
use crate::fraction::ONE;
use crate::scorer::ScoringFunctionType;
use crate::names::{ascending, in_order, same_names, texts};
use crate::params::{ParamError, RunTopKEvaluationParams};
use crate::ranking::Standing;
use crate::stopping::{
    count_failed,
    count_status,
    evaluators_wf,
    failed_evaluators,
    none_included,
    num_failed,
    num_with_status,
    only_statuses_moved,
    pick,
    pick_variants,
    snapshot,
    standings,
    status_at,
    trackers_wf,
    variant_names,
    GlobalStoppingReason,
    StoppingRule,
};
use crate::tracker::{
    fresh,
    has_absent,
    has_present,
    indicator,
    recorded,
    EvaluatorTracker,
    Observation,
    VariantStatus,
    VariantTracker,
};

verus! {

/// What came of one pair of a variant and a datapoint.
#[derive(Debug)]
pub struct SampleReport {
    /// The position of the variant among the trackers.
    pub variant: usize,
    /// The position of the datapoint in the dataset.
    pub datapoint: usize,
    /// Whether the inference failed; the evaluators then did not run.
    pub inference_failed: bool,
    /// For each evaluator its score, absent where the evaluator failed.
    pub scores: Vec<Option<Observation>>,
    /// For each evaluator the flags for its failure sequence.
    pub evaluator_verdicts: Vec<Vec<bool>>,
    /// The flags for the variant's failure sequence.
    pub failure_surviving: Vec<bool>,
}

/// Why the loop refused a request.
#[derive(Debug, Clone, Copy, PartialEq, Eq, Structural)]
pub enum LoopError {
    /// No batch is open.
    NoBatchOpen,
    /// The report is not for the pair whose turn it is.
    UnexpectedSample,
    /// The report holds a score although the inference failed.
    ScoreWithoutInference,
    /// A confidence sequence refused its observation.
    Refused(ConfidenceError),
    /// Some pair of the batch has not been reported.
    BatchIncomplete,
}

/// The datapoints of one batch: `len` of them, from position `first` on.
#[derive(Debug, Clone, Copy, PartialEq, Eq, Structural)]
pub struct Batch {
    /// The position of the first datapoint.
    pub first: usize,
    /// The number of datapoints.
    pub len: usize,
}

/// What the driver does next.
#[derive(Debug, Clone, Copy, PartialEq, Eq, Structural)]
pub enum Step {
    /// Draw the batch and report every pair of it.
    Run(Batch),
    /// Stop: the run has ended.
    Stop,
}

/// The first position at or after `from` that holds an active variant, or the
/// number of variants if there is none.
pub open spec fn next_active(v: Seq<VariantTracker>, from: int) -> int
    decreases v.len() - from,
{
    if from < 0 || from >= v.len() {
        v.len() as int
    } else if v[from].status == VariantStatus::Active {
        from
    } else {
        next_active(v, from + 1)
    }
}

/// For each variant, whether it is marked as a top variant.
pub open spec fn included_flags(v: Seq<VariantTracker>) -> Seq<bool> {
    Seq::new(v.len(), |i: int| v[i].status == VariantStatus::Include)
}

/// The refusal of the first evaluator at or after `from` whose failure
/// sequence refuses its observation.
pub open spec fn evaluator_refusal(
    evaluators: Seq<EvaluatorTracker>,
    scores: Seq<Option<Observation>>,
    verdicts: Seq<Vec<bool>>,
    from: int,
) -> Option<ConfidenceError>
    decreases evaluators.len() - from,
{
    if from < 0 || from >= evaluators.len() || from >= scores.len() || from >= verdicts.len() {
        None
    } else {
        match evaluators[from].failures.refusal(indicator(scores[from] is None), verdicts[from]@) {
            Some(e) => Some(e),
            None => evaluator_refusal(evaluators, scores, verdicts, from + 1),
        }
    }
}

/// Whether every tracker of `run` is as it is before the first sample: each
/// variant active and scored by `scoring`, and every confidence sequence
/// without observation, under its name, at the default level and resolution.
pub open spec fn all_fresh(run: &SamplingLoop, scoring: ScoringFunctionType) -> bool {
    &&& forall|i: int|
        0 <= i < run.variants@.len() ==> {
            let t = #[trigger] run.variants@[i];
            &&& t.status == VariantStatus::Active
            &&& t.scoring == scoring
            &&& fresh(t.failures, t.name@, DEFAULT_ALPHA, DEFAULT_RESOLUTION)
            &&& t.per_evaluator@.len() == run.evaluators@.len()
            &&& forall|e: int|
                0 <= e < run.evaluators@.len() ==> fresh(
                    #[trigger] t.per_evaluator@[e],
                    run.evaluators@[e].name@,
                    DEFAULT_ALPHA,
                    DEFAULT_RESOLUTION,
                )
        }
    &&& forall|e: int|
        0 <= e < run.evaluators@.len() ==> fresh(
            (#[trigger] run.evaluators@[e]).failures,
            run.evaluators@[e].name@,
            DEFAULT_ALPHA,
            DEFAULT_RESOLUTION,
        )
}

/// The state of a run.
#[derive(Debug)]
pub struct SamplingLoop {
    /// The stopping rule.
    pub rule: StoppingRule,
    /// The largest number of datapoints drawn at a time.
    pub batch_size: usize,
    /// The largest number of datapoints to process, if there is a bound.
    pub max_datapoints: Option<usize>,
    /// The number of datapoints in the dataset.
    pub dataset_len: usize,
    /// The variants, in ascending order of their names.
    pub variants: Vec<VariantTracker>,
    /// The evaluators, in ascending order of their names.
    pub evaluators: Vec<EvaluatorTracker>,
    /// The number of datapoints whose batches are finished.
    pub processed: usize,
    /// The size of the open batch; zero where none is open.
    pub pending: usize,
    /// The position of the variant whose turn it is in the open batch.
    pub turn: usize,
    /// The position, within the open batch, of the datapoint whose turn it is.
    pub offset: usize,
    /// Why the run ended; absent while it goes on.
    pub stopping_reason: Option<GlobalStoppingReason>,
}

impl SamplingLoop {
    /// The number of datapoints that the run may process: the size of the
    /// dataset, or the bound where it is smaller.
    pub open spec fn limit(&self) -> int {
        match self.max_datapoints {
            Some(m) => if m < self.dataset_len {
                m as int
            } else {
                self.dataset_len as int
            },
            None => self.dataset_len as int,
        }
    }

    /// What holds of the variants once the run has ended. With a top set found:
    /// its size is a wanted one, as many names are reported and as many
    /// variants are marked as top variants, the reported names are theirs, and
    /// no variant is left active. With too many failures: the reported number
    /// is the number of failed variants, and fewer than `k_min` have not
    /// failed.
    pub open spec fn verdict_holds(&self) -> bool {
        let s = standings(self.variants@);
        match self.stopping_reason {
            Some(GlobalStoppingReason::TopKFound { k, top_variants }) => {
                &&& self.rule.k_min <= k <= self.rule.k_max
                &&& top_variants@.len() == k
                &&& num_with_status(s, VariantStatus::Include) == k
                &&& num_with_status(s, VariantStatus::Active) == 0
                &&& texts(top_variants@) == pick(
                    variant_names(self.variants@),
                    included_flags(self.variants@),
                )
            },
            Some(GlobalStoppingReason::TooManyVariantsFailed { num_failed: n }) => {
                &&& n == num_failed(s)
                &&& self.variants@.len() - n < self.rule.k_min
            },
            _ => true,
        }
    }

    /// The invariant of a run.
    pub open spec fn wf(&self) -> bool {
        &&& trackers_wf(self.variants@)
        &&& evaluators_wf(self.evaluators@)
        &&& forall|i: int|
            0 <= i < self.variants@.len() ==> (#[trigger] self.variants@[i]).per_evaluator@.len()
                == self.evaluators@.len()
        &&& self.processed + self.pending <= self.limit()
        &&& self.pending == 0 ==> self.turn == 0 && self.offset == 0
        &&& self.pending > 0 ==> {
            &&& self.offset < self.pending
            &&& self.turn == next_active(self.variants@, self.turn as int)
        }
        &&& self.stopping_reason is Some ==> self.pending == 0
        &&& self.stopping_reason is None ==> none_included(standings(self.variants@))
        &&& self.verdict_holds()
    }

    /// Whether `other` has the same rule, sizes and bounds.
    pub open spec fn same_setup(&self, other: &SamplingLoop) -> bool {
        &&& self.rule == other.rule
        &&& self.batch_size == other.batch_size
        &&& self.max_datapoints == other.max_datapoints
        &&& self.dataset_len == other.dataset_len
    }

    /// Whether `other` is in the same state, but possibly for the trackers.
    pub open spec fn same_position(&self, other: &SamplingLoop) -> bool {
        &&& self.same_setup(other)
        &&& self.processed == other.processed
        &&& self.pending == other.pending
        &&& self.turn == other.turn
        &&& self.offset == other.offset
        &&& self.stopping_reason == other.stopping_reason
    }

    /// Whether `other` is in the same state.
    pub open spec fn same_state(&self, other: &SamplingLoop) -> bool {
        &&& self.same_position(other)
        &&& self.variants@ == other.variants@
        &&& self.evaluators@ == other.evaluators@
    }

    /// Whether the inference or an evaluator failed on the reported pair.
    pub open spec fn any_failure(report: &SampleReport) -> bool {
        report.inference_failed || has_absent(report.scores@)
    }

    /// Why the report cannot be recorded, if it cannot.
    pub open spec fn sample_refusal(&self, report: &SampleReport) -> Option<LoopError> {
        let e = self.evaluators@.len();
        if self.pending == 0 {
            Some(LoopError::NoBatchOpen)
        } else if self.turn >= self.variants@.len() || report.variant != self.turn
            || report.datapoint != self.processed + self.offset {
            Some(LoopError::UnexpectedSample)
        } else if report.scores@.len() != e || report.evaluator_verdicts@.len() != e {
            Some(LoopError::Refused(ConfidenceError::EvaluatorMismatch))
        } else if report.inference_failed && has_present(report.scores@) {
            Some(LoopError::ScoreWithoutInference)
        } else {
            match self.variants@[self.turn as int].record_refusal(
                report.scores@,
                Self::any_failure(report),
                report.failure_surviving@,
            ) {
                Some(err) => Some(LoopError::Refused(err)),
                None => if report.inference_failed {
                    None
                } else {
                    match evaluator_refusal(
                        self.evaluators@,
                        report.scores@,
                        report.evaluator_verdicts@,
                        0,
                    ) {
                        Some(err) => Some(LoopError::Refused(err)),
                        None => None,
                    }
                },
            }
        }
    }

    /// Whether the run keeps its invariant. A state that was stored and read
    /// back is checked with this before it is used.
    pub fn is_valid(&self) -> (valid: bool)
        ensures
            valid == self.wf(),
    {
        let n: usize = self.variants.len();
        let m: usize = self.evaluators.len();
        let mut i: usize = 0;
        while i < n
            invariant
                n == self.variants@.len(),
                m == self.evaluators@.len(),
                0 <= i <= n,
                forall|k: int|
                    0 <= k < i ==> (#[trigger] self.variants@[k]).wf()
                        && self.variants@[k].per_evaluator@.len() == m,
            decreases n - i,
        {
            if !self.variants[i].is_valid() || self.variants[i].per_evaluator.len() != m {
                return false;
            }
            i = i + 1;
        }
        let mut e: usize = 0;
        while e < m
            invariant
                m == self.evaluators@.len(),
                0 <= e <= m,
                forall|k: int| 0 <= k < e ==> (#[trigger] self.evaluators@[k]).wf(),
            decreases m - e,
        {
            if !self.evaluators[e].is_valid() {
                return false;
            }
            e = e + 1;
        }
        let limit: usize = self.datapoint_limit();
        if self.processed > limit || self.pending > limit - self.processed {
            return false;
        }
        if self.pending == 0 {
            if self.turn != 0 || self.offset != 0 {
                return false;
            }
        } else {
            if self.offset >= self.pending || self.seek_active(self.turn) != self.turn {
                return false;
            }
        }
        let s = snapshot(&self.variants);
        match &self.stopping_reason {
            None => {
                let included: usize = count_status(&s, VariantStatus::Include);
                proof {
                    if included == 0 {
                        crate::counting::lemma_count_zero(
                            s@.len() as int,
                            status_at(s@, VariantStatus::Include),
                        );
                        assert forall|k: int| 0 <= k < s@.len() implies (#[trigger] s@[k]).status
                            != VariantStatus::Include by {
                            assert(!status_at(s@, VariantStatus::Include)(k));
                        }
                    } else {
                        if none_included(s@) {
                            assert forall|k: int| 0 <= k < s@.len() implies !#[trigger] status_at(
                                s@,
                                VariantStatus::Include,
                            )(k) by {
                                assert(s@[k].status != VariantStatus::Include);
                            }
                            lemma_count_equal(
                                s@.len() as int,
                                status_at(s@, VariantStatus::Include),
                                |k: int| false,
                            );
                            lemma_count_none(s@.len() as int);
                        }
                    }
                }
                included == 0
            },
            Some(GlobalStoppingReason::TopKFound { k, top_variants }) => {
                if self.pending != 0 || *k < self.rule.k_min || *k > self.rule.k_max {
                    return false;
                }
                if top_variants.len() as u64 != *k as u64 {
                    return false;
                }
                if count_status(&s, VariantStatus::Include) as u64 != *k as u64 || count_status(
                    &s,
                    VariantStatus::Active,
                ) != 0 {
                    return false;
                }
                let mut flags: Vec<bool> = Vec::new();
                let mut i: usize = 0;
                while i < n
                    invariant
                        n == self.variants@.len(),
                        0 <= i <= n,
                        flags@.len() == i,
                        forall|a: int|
                            0 <= a < i ==> #[trigger] flags@[a] == (self.variants@[a].status
                                == VariantStatus::Include),
                    decreases n - i,
                {
                    flags.push(self.variants[i].status == VariantStatus::Include);
                    i = i + 1;
                }
                assert(flags@ =~= included_flags(self.variants@));
                let expected = pick_variants(&self.variants, &flags);
                same_names(top_variants, &expected)
            },
            Some(GlobalStoppingReason::TooManyVariantsFailed { num_failed }) => {
                if self.pending != 0 {
                    return false;
                }
                let failed: usize = count_failed(&s);
                proof {
                    lemma_count_bound(n as int, status_at(s@, VariantStatus::Failed));
                }
                *num_failed == failed && ((n - failed) as u64) < self.rule.k_min as u64
            },
            Some(_) => self.pending == 0,
        }
    }

    /// The number of datapoints that the run may process.
    pub fn datapoint_limit(&self) -> (limit: usize)
        ensures
            limit == self.limit(),
    {
        match self.max_datapoints {
            Some(m) => if m < self.dataset_len {
                m
            } else {
                self.dataset_len
            },
            None => self.dataset_len,
        }
    }

    /// The first position at or after `from` that holds an active variant.
    pub fn seek_active(&self, from: usize) -> (position: usize)
        ensures
            position == next_active(self.variants@, from as int),
            from <= position || position == self.variants@.len(),
            position <= self.variants@.len(),
    {
        let n: usize = self.variants.len();
        let mut i: usize = from;
        while i < n && !self.variants[i].status.is_active()
            invariant
                n == self.variants@.len(),
                from <= i,
                next_active(self.variants@, from as int) == next_active(self.variants@, i as int),
            decreases n - i,
        {
            i = i + 1;
        }
        if i >= n {
            n
        } else {
            i
        }
    }

    /// The positions of the active variants, in ascending order: the variants
    /// that take part in the next batch.
    pub fn active_positions(&self) -> (positions: Vec<usize>)
        ensures
            forall|a: int|
                0 <= a < positions@.len() ==> (#[trigger] positions@[a]) < self.variants@.len()
                    && self.variants@[positions@[a] as int].status == VariantStatus::Active,
            forall|a: int, b: int|
                0 <= a < b < positions@.len() ==> (#[trigger] positions@[a]) < (
                #[trigger] positions@[b]),
            forall|i: int|
                0 <= i < self.variants@.len() && (#[trigger] self.variants@[i]).status
                    == VariantStatus::Active ==> positions@.contains(i as usize),
    {
        let n: usize = self.variants.len();
        let mut positions: Vec<usize> = Vec::new();
        let mut i: usize = 0;
        while i < n
            invariant
                n == self.variants@.len(),
                0 <= i <= n,
                forall|a: int|
                    0 <= a < positions@.len() ==> (#[trigger] positions@[a]) < i
                        && self.variants@[positions@[a] as int].status == VariantStatus::Active,
                forall|a: int, b: int|
                    0 <= a < b < positions@.len() ==> (#[trigger] positions@[a]) < (
                    #[trigger] positions@[b]),
                forall|j: int|
                    0 <= j < i && (#[trigger] self.variants@[j]).status == VariantStatus::Active
                        ==> positions@.contains(j as usize),
            decreases n - i,
        {
            if self.variants[i].status.is_active() {
                let ghost prior = positions@;
                positions.push(i);
                assert(positions@[prior.len() as int] == i);
                assert forall|j: int|
                    0 <= j < i + 1 && (#[trigger] self.variants@[j]).status
                        == VariantStatus::Active implies positions@.contains(j as usize) by {
                    if j < i {
                        let a = choose|a: int| 0 <= a < prior.len() && prior[a] == j as usize;
                        assert(positions@[a] == j as usize);
                    }
                }
            }
            i = i + 1;
        }
        positions
    }

    /// A run over the variants of `params`, scored by the evaluators
    /// `evaluator_names`, on a dataset of `dataset_len` datapoints. Both kinds
    /// of trackers stand in ascending order of their names, all variants are
    /// active, and nothing is processed yet.
    pub fn new(params: &RunTopKEvaluationParams, evaluator_names: &Vec<String>, dataset_len: usize) -> (result:
        Result<SamplingLoop, ParamError>)
        ensures
            match params.violation() {
                Some(e) => result == Err::<SamplingLoop, ParamError>(e),
                None => result.is_ok(),
            },
            result.is_ok() ==> {
                let run = result.unwrap();
                &&& run.wf()
                &&& run.rule == (StoppingRule {
                    k_min: params.k_min,
                    k_max: params.k_max,
                    epsilon: params.spec_epsilon(),
                    variant_failure_threshold: params.variant_failure_threshold,
                    evaluator_failure_threshold: params.evaluator_failure_threshold,
                })
                &&& run.batch_size == params.spec_batch_size()
                &&& run.max_datapoints == params.max_datapoints
                &&& run.dataset_len == dataset_len
                &&& run.processed == 0
                &&& run.pending == 0
                &&& run.stopping_reason is None
                &&& variant_names(run.variants@).to_multiset() == texts(
                    params.variant_names@,
                ).to_multiset()
                &&& ascending(variant_names(run.variants@))
                &&& crate::stopping::evaluator_names(run.evaluators@).to_multiset() == texts(
                    evaluator_names@,
                ).to_multiset()
                &&& ascending(crate::stopping::evaluator_names(run.evaluators@))
                &&& run.turn == 0
                &&& run.offset == 0
                &&& all_fresh(&run, params.scoring_function)
            },
    {
        match params.validate() {
            Err(e) => {
                return Err(e);
            },
            Ok(()) => {},
        }
        let variant_order = in_order(&params.variant_names);
        let evaluator_order = in_order(evaluator_names);
        let mut evaluators: Vec<EvaluatorTracker> = Vec::new();
        let m: usize = evaluator_order.len();
        let mut e: usize = 0;
        while e < m
            invariant
                m == evaluator_order@.len(),
                0 <= e <= m,
                evaluators@.len() == e,
                evaluators_wf(evaluators@),
                forall|a: int|
                    0 <= a < e ==> (#[trigger] evaluators@[a]).name@ == evaluator_order@[a]@ && fresh(
                        evaluators@[a].failures,
                        evaluator_order@[a]@,
                        DEFAULT_ALPHA,
                        DEFAULT_RESOLUTION,
                    ),
            decreases m - e,
        {
            match EvaluatorTracker::new(evaluator_order[e].clone(), DEFAULT_ALPHA, DEFAULT_RESOLUTION) {
                Ok(t) => {
                    evaluators.push(t);
                },
                Err(_) => {
                    unreached::<()>();
                },
            }
            e = e + 1;
        }
        let mut variants: Vec<VariantTracker> = Vec::new();
        let n: usize = variant_order.len();
        let mut i: usize = 0;
        while i < n
            invariant
                n == variant_order@.len(),
                m == evaluator_order@.len(),
                0 <= i <= n,
                variants@.len() == i,
                trackers_wf(variants@),
                forall|a: int|
                    0 <= a < i ==> {
                        &&& (#[trigger] variants@[a]).name@ == variant_order@[a]@
                        &&& variants@[a].status == VariantStatus::Active
                        &&& variants@[a].scoring == params.scoring_function
                        &&& fresh(
                            variants@[a].failures,
                            variant_order@[a]@,
                            DEFAULT_ALPHA,
                            DEFAULT_RESOLUTION,
                        )
                        &&& variants@[a].per_evaluator@.len() == m
                        &&& forall|e: int|
                            0 <= e < m ==> fresh(
                                #[trigger] variants@[a].per_evaluator@[e],
                                evaluator_order@[e]@,
                                DEFAULT_ALPHA,
                                DEFAULT_RESOLUTION,
                            )
                    },
            decreases n - i,
        {
            match VariantTracker::new(
                variant_order[i].clone(),
                &evaluator_order,
                params.scoring_function,
                DEFAULT_ALPHA,
                DEFAULT_RESOLUTION,
            ) {
                Ok(t) => {
                    variants.push(t);
                },
                Err(_) => {
                    unreached::<()>();
                },
            }
            i = i + 1;
        }
        let rule = StoppingRule {
            k_min: params.k_min,
            k_max: params.k_max,
            epsilon: params.effective_epsilon(),
            variant_failure_threshold: params.variant_failure_threshold,
            evaluator_failure_threshold: params.evaluator_failure_threshold,
        };
        let run = SamplingLoop {
            rule,
            batch_size: params.effective_batch_size(),
            max_datapoints: params.max_datapoints,
            dataset_len,
            variants,
            evaluators,
            processed: 0,
            pending: 0,
            turn: 0,
            offset: 0,
            stopping_reason: None,
        };
        proof {
            assert(variant_names(run.variants@) =~= texts(variant_order@));
            assert(crate::stopping::evaluator_names(run.evaluators@) =~= texts(evaluator_order@));
            assert(none_included(standings(run.variants@)));
        }
        Ok(run)
    }

    /// Records what came of the pair whose turn it is: the variant's tracker
    /// takes in the scores and the failure indicator, and, where the inference
    /// succeeded, each evaluator's tracker takes in whether that evaluator
    /// failed. The turn then passes to the next datapoint of the batch, and
    /// after the last one to the next active variant. A refused report leaves
    /// the run as it was.
    #[verifier::loop_isolation(false)]
    pub fn record_sample(&mut self, report: &SampleReport) -> (result: Result<(), LoopError>)
        requires
            old(self).wf(),
        ensures
            final(self).wf(),
            result == match old(self).sample_refusal(report) {
                Some(e) => Err::<(), LoopError>(e),
                None => Ok::<(), LoopError>(()),
            },
            result.is_err() ==> final(self).same_state(old(self)),
            result.is_ok() ==> {
                let v = old(self).turn as int;
                &&& final(self).same_setup(old(self))
                &&& final(self).processed == old(self).processed
                &&& final(self).pending == old(self).pending
                &&& final(self).stopping_reason == old(self).stopping_reason
                &&& final(self).variants@.len() == old(self).variants@.len()
                &&& forall|i: int|
                    0 <= i < old(self).variants@.len() && i != v ==> #[trigger] final(self).variants@[i] == old(self).variants@[i]
                &&& recorded(
                    old(self).variants@[v],
                    final(self).variants@[v],
                    report.scores@,
                    Self::any_failure(report),
                    report.failure_surviving@,
                )
                &&& report.inference_failed ==> final(self).evaluators@ == old(self).evaluators@
                &&& !report.inference_failed ==> {
                    &&& final(self).evaluators@.len() == old(self).evaluators@.len()
                    &&& forall|e: int|
                        0 <= e < old(self).evaluators@.len() ==> {
                            &&& (#[trigger] final(self).evaluators@[e]).name == old(self).evaluators@[e].name
                            &&& final(self).evaluators@[e].failures == old(self).evaluators@[e].failures.after(
                                indicator(report.scores@[e] is None),
                                report.evaluator_verdicts@[e]@,
                            )
                        }
                }
                &&& if old(self).offset + 1 < old(self).pending {
                    final(self).turn == old(self).turn && final(self).offset == old(self).offset + 1
                } else {
                    final(self).turn == next_active(old(self).variants@, v + 1) && final(self).offset == 0
                }
            },
    {
        let n: usize = self.variants.len();
        let m: usize = self.evaluators.len();
        if self.pending == 0 {
            return Err(LoopError::NoBatchOpen);
        }
        if self.turn >= n || report.variant != self.turn || report.datapoint != self.processed
            + self.offset {
            return Err(LoopError::UnexpectedSample);
        }
        if report.scores.len() != m || report.evaluator_verdicts.len() != m {
            return Err(LoopError::Refused(ConfidenceError::EvaluatorMismatch));
        }
        let (absent, present) = presence(&report.scores);
        if report.inference_failed && present {
            return Err(LoopError::ScoreWithoutInference);
        }
        let any_failure: bool = report.inference_failed || absent;
        let v: usize = self.turn;
        assert(self.variants@[v as int].wf());
        match self.variants[v].check_record(&report.scores, any_failure, &report.failure_surviving) {
            Some(err) => {
                return Err(LoopError::Refused(err));
            },
            None => {},
        }
        if !report.inference_failed {
            let mut e: usize = 0;
            while e < m
                invariant
                    m == self.evaluators@.len(),
                    m == report.scores@.len(),
                    m == report.evaluator_verdicts@.len(),
                    0 <= e <= m,
                    *self == *old(self),
                    evaluator_refusal(
                        self.evaluators@,
                        report.scores@,
                        report.evaluator_verdicts@,
                        0,
                    ) == evaluator_refusal(
                        self.evaluators@,
                        report.scores@,
                        report.evaluator_verdicts@,
                        e as int,
                    ),
                decreases m - e,
            {
                let x: u64 = if report.scores[e].is_none() {
                    ONE
                } else {
                    0
                };
                assert(self.evaluators@[e as int].wf());
                match self.evaluators[e].failures.check(x, &report.evaluator_verdicts[e]) {
                    Some(err) => {
                        return Err(LoopError::Refused(err));
                    },
                    None => {},
                }
                e = e + 1;
            }
            proof {
                lemma_evaluator_refusal_none(
                    self.evaluators@,
                    report.scores@,
                    report.evaluator_verdicts@,
                    0,
                );
            }
        }
        let ghost before = *self;
        let taken = self.variants[v].record(&report.scores, any_failure, &report.failure_surviving);
        assert(taken.is_ok());
        let ghost mid = self.variants@;
        assert(mid == old(self).variants@.update(v as int, mid[v as int]));
        if !report.inference_failed {
            let mut e: usize = 0;
            while e < m
                invariant
                    m == self.evaluators@.len(),
                    m == before.evaluators@.len(),
                    m == report.scores@.len(),
                    m == report.evaluator_verdicts@.len(),
                    0 <= e <= m,
                    evaluators_wf(self.evaluators@),
                    self.variants@ == mid,
                    self.same_position(&before),
                    forall|k: int|
                        0 <= k < m ==> before.evaluators@[k].failures.refusal(
                            indicator(report.scores@[k] is None),
                            (#[trigger] report.evaluator_verdicts@[k])@,
                        ) is None,
                    forall|k: int| e <= k < m ==> #[trigger] self.evaluators@[k] == before.evaluators@[k],
                    forall|k: int|
                        0 <= k < e ==> {
                            &&& (#[trigger] self.evaluators@[k]).name == before.evaluators@[k].name
                            &&& self.evaluators@[k].failures == before.evaluators@[k].failures.after(
                                indicator(report.scores@[k] is None),
                                report.evaluator_verdicts@[k]@,
                            )
                        },
                decreases m - e,
            {
                let failed: bool = report.scores[e].is_none();
                assert(self.evaluators@[e as int].wf());
                assert(before.evaluators@[e as int].failures.refusal(
                    indicator(report.scores@[e as int] is None),
                    report.evaluator_verdicts@[e as int]@,
                ) is None);
                let taken = self.evaluators[e].record(failed, &report.evaluator_verdicts[e]);
                assert(taken.is_ok());
                e = e + 1;
            }
        }
        if self.offset + 1 < self.pending {
            self.offset = self.offset + 1;
        } else {
            self.offset = 0;
            self.turn = self.seek_active(v + 1);
            proof {
                lemma_next_active_fixed(self.variants@, v + 1);
            }
        }
        proof {
            let s0 = standings(old(self).variants@);
            let s1 = standings(self.variants@);
            assert forall|i: int| 0 <= i < s1.len() implies (#[trigger] s1[i]).status
                == s0[i].status by {
                if i != v {
                    assert(self.variants@[i] == old(self).variants@[i]);
                }
            }
            lemma_same_statuses(old(self).variants@, self.variants@, v as int + 1);
            lemma_same_statuses(old(self).variants@, self.variants@, v as int);
            lemma_same_counts(s0, s1);
            assert(variant_names(self.variants@) =~= variant_names(old(self).variants@));
            assert(included_flags(self.variants@) =~= included_flags(old(self).variants@));
            assert forall|i: int| 0 <= i < self.variants@.len() implies (
            #[trigger] self.variants@[i]).wf() && self.variants@[i].per_evaluator@.len()
                == self.evaluators@.len() by {
                if i != v {
                    assert(self.variants@[i] == old(self).variants@[i]);
                    assert(old(self).variants@[i].wf());
                } else {
                    assert(old(self).variants@[i].per_evaluator@.len() == m);
                }
            }
        }
        Ok(())
    }

    /// Whether the run has ended.
    pub fn is_stopped(&self) -> (stopped: bool)
        ensures
            stopped == (self.stopping_reason is Some),
    {
        self.stopping_reason.is_some()
    }

    /// Names the next batch, or ends the run. While a batch is open the same
    /// batch is named again. Otherwise the batch holds as many datapoints as
    /// the batch size, the bound and the dataset allow; where that is none,
    /// the stopping rule is evaluated on an exhausted dataset, which ends the
    /// run.
    pub fn next_batch(&mut self) -> (step: Step)
        requires
            old(self).wf(),
        ensures
            final(self).wf(),
            final(self).same_setup(old(self)),
            final(self).processed == old(self).processed,
            final(self).evaluators@ == old(self).evaluators@,
            old(self).stopping_reason is Some ==> step == Step::Stop && final(self).same_state(
                old(self),
            ),
            old(self).stopping_reason is None && old(self).pending > 0 ==> step == Step::Run(
                Batch { first: old(self).processed, len: old(self).pending },
            ) && final(self).same_state(old(self)),
            old(self).stopping_reason is None && old(self).pending == 0 ==> {
                let room = old(self).limit() - old(self).processed;
                let len = if old(self).batch_size < room {
                    old(self).batch_size as int
                } else {
                    room
                };
                if len > 0 {
                    &&& step == Step::Run(Batch { first: old(self).processed, len: len as usize })
                    &&& final(self).pending == len
                    &&& final(self).turn == next_active(old(self).variants@, 0)
                    &&& final(self).offset == 0
                    &&& final(self).stopping_reason is None
                    &&& final(self).variants@ == old(self).variants@
                } else {
                    &&& step == Step::Stop
                    &&& final(self).pending == 0
                    &&& final(self).stopping_reason is Some
                    &&& only_statuses_moved(old(self).variants@, final(self).variants@)
                    &&& old(self).rule.follows(
                        standings(old(self).variants@),
                        variant_names(old(self).variants@),
                        failed_evaluators(
                            old(self).evaluators@,
                            old(self).rule.evaluator_failure_threshold,
                        ),
                        true,
                        standings(final(self).variants@),
                        final(self).stopping_reason,
                    )
                }
            },
    {
        if self.stopping_reason.is_some() {
            return Step::Stop;
        }
        if self.pending > 0 {
            return Step::Run(Batch { first: self.processed, len: self.pending });
        }
        let room: usize = self.datapoint_limit() - self.processed;
        let len: usize = if self.batch_size < room {
            self.batch_size
        } else {
            room
        };
        if len > 0 {
            self.pending = len;
            self.turn = self.seek_active(0);
            self.offset = 0;
            proof {
                lemma_next_active_fixed(self.variants@, 0);
            }
            return Step::Run(Batch { first: self.processed, len });
        }
        self.close(true);
        Step::Stop
    }

    /// Evaluates the stopping rule and keeps its decision.
    fn close(&mut self, exhausted: bool)
        requires
            old(self).wf(),
            old(self).stopping_reason is None,
            old(self).pending == 0,
        ensures
            final(self).wf(),
            final(self).same_setup(old(self)),
            final(self).processed == old(self).processed,
            final(self).pending == 0,
            final(self).evaluators@ == old(self).evaluators@,
            only_statuses_moved(old(self).variants@, final(self).variants@),
            old(self).rule.follows(
                standings(old(self).variants@),
                variant_names(old(self).variants@),
                failed_evaluators(old(self).evaluators@, old(self).rule.evaluator_failure_threshold),
                exhausted,
                standings(final(self).variants@),
                final(self).stopping_reason,
            ),
            exhausted ==> final(self).stopping_reason is Some,
    {
        let rule = self.rule;
        let ghost before = self.variants@;
        let decision = rule.evaluate(&mut self.variants, &self.evaluators, exhausted);
        proof {
            let s0 = standings(before);
            let s1 = standings(self.variants@);
            let names = variant_names(before);
            let culprits = failed_evaluators(self.evaluators@, rule.evaluator_failure_threshold);
            assert(variant_names(self.variants@) =~= names);
            match &decision {
                Some(GlobalStoppingReason::TopKFound { k, top_variants }) => {
                    rule.lemma_top_k_found(s0, names, culprits, exhausted, s1, decision);
                    let sifted = crate::stopping::after_exclusions(
                        crate::stopping::after_failures(s0, rule.variant_failure_threshold),
                        rule.k_max as int,
                    );
                    let sel = crate::ranking::candidate(sifted, *k as int, rule.epsilon);
                    assert(sel =~= included_flags(self.variants@)) by {
                        assert forall|i: int| 0 <= i < sel.len() implies sel[i] == included_flags(
                            self.variants@,
                        )[i] by {
                            assert(s1[i].status == self.variants@[i].status);
                        }
                    }
                    assert forall|i: int| 0 <= i < s1.len() implies !#[trigger] status_at(
                        s1,
                        VariantStatus::Active,
                    )(i) by {
                        assert(s1[i].status != VariantStatus::Active);
                    }
                    lemma_count_equal(
                        s1.len() as int,
                        status_at(s1, VariantStatus::Active),
                        |i: int| false,
                    );
                    lemma_count_none(s1.len() as int);
                },
                Some(GlobalStoppingReason::TooManyVariantsFailed { num_failed: n }) => {
                    rule.lemma_too_many_failed(s0, names, culprits, exhausted, s1, decision);
                },
                Some(_) => {},
                None => {
                    assert(none_included(s1)) by {
                        assert forall|i: int| 0 <= i < s1.len() implies (#[trigger] s1[i]).status
                            != VariantStatus::Include by {
                            assert(s0[i].status != VariantStatus::Include);
                        }
                    }
                },
            }
            assert forall|i: int| 0 <= i < self.variants@.len() implies (
            #[trigger] self.variants@[i]).per_evaluator@.len() == self.evaluators@.len() by {
                assert(before[i].per_evaluator@.len() == self.evaluators@.len());
            }
        }
        self.stopping_reason = decision;
    }

    /// Ends the open batch once every pair of it is recorded: its datapoints
    /// count as processed, and the stopping rule is evaluated. The result says
    /// whether the run has ended.
    pub fn finish_batch(&mut self) -> (result: Result<bool, LoopError>)
        requires
            old(self).wf(),
        ensures
            final(self).wf(),
            final(self).same_setup(old(self)),
            final(self).evaluators@ == old(self).evaluators@,
            old(self).pending == 0 ==> result == Err::<bool, LoopError>(LoopError::NoBatchOpen),
            old(self).pending > 0 && old(self).turn < old(self).variants@.len() ==> result == Err::<
                bool,
                LoopError,
            >(LoopError::BatchIncomplete),
            old(self).pending > 0 && old(self).turn >= old(self).variants@.len() ==> result.is_ok(),
            result.is_err() ==> final(self).same_state(old(self)),
            result.is_ok() ==> {
                &&& final(self).processed == old(self).processed + old(self).pending
                &&& final(self).pending == 0
                &&& result.unwrap() == (final(self).stopping_reason is Some)
                &&& only_statuses_moved(old(self).variants@, final(self).variants@)
                &&& old(self).rule.follows(
                    standings(old(self).variants@),
                    variant_names(old(self).variants@),
                    failed_evaluators(
                        old(self).evaluators@,
                        old(self).rule.evaluator_failure_threshold,
                    ),
                    false,
                    standings(final(self).variants@),
                    final(self).stopping_reason,
                )
            },
    {
        if self.pending == 0 {
            return Err(LoopError::NoBatchOpen);
        }
        if self.turn < self.variants.len() {
            return Err(LoopError::BatchIncomplete);
        }
        self.processed = self.processed + self.pending;
        self.pending = 0;
        self.turn = 0;
        self.offset = 0;
        self.close(false);
        Ok(self.stopping_reason.is_some())
    }
}

/// The search for an active variant ends on an active variant or after the
/// last one, and a search from there ends there.
pub proof fn lemma_next_active_fixed(v: Seq<VariantTracker>, from: int)
    requires
        0 <= from,
    ensures
        next_active(v, next_active(v, from)) == next_active(v, from),
        from <= next_active(v, from) || next_active(v, from) == v.len(),
        next_active(v, from) <= v.len(),
    decreases v.len() - from,
{
    if from < v.len() && v[from].status != VariantStatus::Active {
        lemma_next_active_fixed(v, from + 1);
    }
}

/// No position satisfies the predicate that is always false.
proof fn lemma_count_none(n: int)
    ensures
        count_where(n, |i: int| false) == 0,
    decreases n,
{
    if n > 0 {
        lemma_count_none(n - 1);
    }
}

/// Whether some score is absent, and whether some score is present.
pub fn presence(scores: &Vec<Option<Observation>>) -> (found: (bool, bool))
    ensures
        found.0 == has_absent(scores@),
        found.1 == has_present(scores@),
{
    let n: usize = scores.len();
    let mut absent: bool = false;
    let mut present: bool = false;
    let mut i: usize = 0;
    while i < n
        invariant
            n == scores@.len(),
            0 <= i <= n,
            absent == (exists|e: int| 0 <= e < i && (#[trigger] scores@[e]) is None),
            present == (exists|e: int| 0 <= e < i && (#[trigger] scores@[e]) is Some),
        decreases n - i,
    {
        if scores[i].is_none() {
            absent = true;
        } else {
            present = true;
        }
        i = i + 1;
    }
    (absent, present)
}

/// No evaluator from `from` on refuses its observation where the search for a
/// refusal from there finds none.
pub proof fn lemma_evaluator_refusal_none(
    evaluators: Seq<EvaluatorTracker>,
    scores: Seq<Option<Observation>>,
    verdicts: Seq<Vec<bool>>,
    from: int,
)
    requires
        0 <= from <= evaluators.len(),
        evaluators.len() == scores.len(),
        evaluators.len() == verdicts.len(),
        evaluator_refusal(evaluators, scores, verdicts, from) is None,
    ensures
        forall|k: int|
            from <= k < evaluators.len() ==> evaluators[k].failures.refusal(
                indicator(scores[k] is None),
                (#[trigger] verdicts[k])@,
            ) is None,
    decreases evaluators.len() - from,
{
    if from < evaluators.len() {
        lemma_evaluator_refusal_none(evaluators, scores, verdicts, from + 1);
    }
}

/// Where two sequences of trackers agree on every status, the search for an
/// active variant gives the same in both.
pub proof fn lemma_same_statuses(a: Seq<VariantTracker>, b: Seq<VariantTracker>, from: int)
    requires
        a.len() == b.len(),
        forall|i: int| 0 <= i < a.len() ==> (#[trigger] a[i]).status == b[i].status,
    ensures
        next_active(a, from) == next_active(b, from),
    decreases a.len() - from,
{
    if 0 <= from < a.len() {
        assert(a[from].status == b[from].status);
        lemma_same_statuses(a, b, from + 1);
    }
}

/// Where two standings agree on every status, each status occurs equally often
/// in both.
pub proof fn lemma_same_counts(a: Seq<Standing>, b: Seq<Standing>)
    requires
        a.len() == b.len(),
        forall|i: int| 0 <= i < a.len() ==> (#[trigger] b[i]).status == a[i].status,
    ensures
        forall|status: VariantStatus| #[trigger]
            num_with_status(a, status) == num_with_status(b, status),
        none_included(a) ==> none_included(b),
{
    assert forall|status: VariantStatus| #[trigger]
        num_with_status(a, status) == num_with_status(b, status) by {
        assert forall|i: int| 0 <= i < a.len() implies #[trigger] status_at(a, status)(i)
            == status_at(b, status)(i) by {
            assert(b[i].status == a[i].status);
        }
        lemma_count_equal(a.len() as int, status_at(a, status), status_at(b, status));
    }
    if none_included(a) {
        assert forall|i: int| 0 <= i < b.len() implies (#[trigger] b[i]).status
            != VariantStatus::Include by {
            assert(a[i].status != VariantStatus::Include);
        }
    }
}

} // verus!
