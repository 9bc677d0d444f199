//! The state kept for each variant and for each evaluator.

use vstd::prelude::*;
use crate::confidence::{BettingCS, ConfidenceError};
use crate::fraction::HALF;
use crate::fraction::ONE;
use crate::scorer::{all_wf, lemma_average_score_wf, ScoreInterval, ScoringFunctionType};

verus! {

/// Where a variant stands in the identification.
#[derive(Debug, Clone, Copy, PartialEq, Eq, Structural)]
pub enum VariantStatus {
    /// Still sampled and compared.
    Active,
    /// Identified as one of the top variants.
    Include,
    /// Ruled out of the top variants.
    Exclude,
    /// Dropped because it fails too often.
    Failed,
}

/// One observation for a confidence sequence: the value in millionths, and for
/// each candidate mean whether the wealth processes have not refuted it.
#[derive(Debug)]
pub struct Observation {
    /// The observed value.
    pub value: u64,
    /// One flag per candidate mean.
    pub surviving: Vec<bool>,
}

/// The value that a failure indicator contributes: one for a failure.
pub open spec fn indicator(failed: bool) -> u64 {
    if failed {
        ONE
    } else {
        0
    }
}

/// Why the confidence sequence `cs` cannot take in `score`, if it cannot; an
/// absent score asks nothing of it.
pub open spec fn score_refusal(cs: BettingCS, score: Option<Observation>) -> Option<ConfidenceError> {
    match score {
        Some(obs) => cs.refusal(obs.value, obs.surviving@),
        None => None,
    }
}

/// The refusal of the first evaluator at or after `from` that refuses its score.
pub open spec fn first_refusal(
    cs: Seq<BettingCS>,
    scores: Seq<Option<Observation>>,
    from: int,
) -> Option<ConfidenceError>
    decreases cs.len() - from,
{
    if from < 0 || from >= cs.len() || from >= scores.len() {
        None
    } else {
        match score_refusal(cs[from], scores[from]) {
            Some(e) => Some(e),
            None => first_refusal(cs, scores, from + 1),
        }
    }
}

/// The confidence sequence `cs` after `score`, unchanged where it is absent.
pub open spec fn after_score(cs: BettingCS, score: Option<Observation>) -> BettingCS {
    match score {
        Some(obs) => cs.after(obs.value, obs.surviving@),
        None => cs,
    }
}

/// The per-evaluator confidence sequences after a sample.
pub open spec fn after_scores(cs: Seq<BettingCS>, scores: Seq<Option<Observation>>) -> Seq<BettingCS> {
    Seq::new(cs.len(), |e: int| after_score(cs[e], scores[e]))
}

/// Whether some score is absent.
pub open spec fn has_absent(scores: Seq<Option<Observation>>) -> bool {
    exists|e: int| 0 <= e < scores.len() && (#[trigger] scores[e]) is None
}

/// Whether some score is present.
pub open spec fn has_present(scores: Seq<Option<Observation>>) -> bool {
    exists|e: int| 0 <= e < scores.len() && (#[trigger] scores[e]) is Some
}

/// Whether `after` is the tracker `before` with one more sample recorded.
pub open spec fn recorded(
    before: VariantTracker,
    after: VariantTracker,
    scores: Seq<Option<Observation>>,
    any_failure: bool,
    failure_flags: Seq<bool>,
) -> bool {
    &&& after.name == before.name
    &&& after.status == before.status
    &&& after.scoring == before.scoring
    &&& after.per_evaluator@ == after_scores(before.per_evaluator@, scores)
    &&& after.failures == before.failures.after(indicator(any_failure), failure_flags)
    &&& after.performance == before.scoring.spec_score(after_scores(before.per_evaluator@, scores))
}

/// Whether `cs` is a confidence sequence without observation, under the name
/// `name`, at the level `alpha` and on a grid of `resolution` points.
pub open spec fn fresh(cs: BettingCS, name: Seq<char>, alpha: u64, resolution: usize) -> bool {
    &&& cs.name@ == name
    &&& cs.count == 0
    &&& cs.total == 0
    &&& cs.deviation == 0
    &&& cs.mean_est == HALF
    &&& cs.mean_regularized == HALF
    &&& cs.variance_regularized == ONE / 4
    &&& cs.cs_lower == 0
    &&& cs.cs_upper == ONE
    &&& cs.alpha == alpha
    &&& cs.resolution == resolution
}

/// The state of one variant.
#[derive(Debug)]
pub struct VariantTracker {
    /// The variant's name.
    pub name: String,
    /// Where the variant stands.
    pub status: VariantStatus,
    /// How the evaluators are combined into the score.
    pub scoring: ScoringFunctionType,
    /// The variant's score, kept equal to the combination of `per_evaluator`.
    pub performance: ScoreInterval,
    /// One confidence sequence per evaluator, over its score on this variant.
    pub per_evaluator: Vec<BettingCS>,
    /// The confidence sequence over the indicator that the inference or any
    /// evaluator failed on a datapoint.
    pub failures: BettingCS,
}

impl VariantTracker {
    /// The invariant of a tracker: every confidence sequence keeps its own, and
    /// the score is the combination of the evaluators' sequences.
    pub open spec fn wf(&self) -> bool {
        &&& all_wf(self.per_evaluator@)
        &&& self.failures.wf()
        &&& self.performance == self.scoring.spec_score(self.per_evaluator@)
    }

    /// Why a sample cannot be recorded, if it cannot.
    pub open spec fn record_refusal(
        &self,
        scores: Seq<Option<Observation>>,
        any_failure: bool,
        failure_flags: Seq<bool>,
    ) -> Option<ConfidenceError> {
        if scores.len() != self.per_evaluator@.len() {
            Some(ConfidenceError::EvaluatorMismatch)
        } else {
            match first_refusal(self.per_evaluator@, scores, 0) {
                Some(e) => Some(e),
                None => self.failures.refusal(indicator(any_failure), failure_flags),
            }
        }
    }

    /// Whether the tracker keeps its invariant.
    pub fn is_valid(&self) -> (valid: bool)
        ensures
            valid == self.wf(),
    {
        let n: usize = self.per_evaluator.len();
        let mut e: usize = 0;
        while e < n
            invariant
                n == self.per_evaluator@.len(),
                0 <= e <= n,
                forall|k: int| 0 <= k < e ==> (#[trigger] self.per_evaluator@[k]).wf(),
            decreases n - e,
        {
            if !self.per_evaluator[e].is_valid() {
                return false;
            }
            e = e + 1;
        }
        if !self.failures.is_valid() {
            return false;
        }
        let expected = self.scoring.score(&self.per_evaluator);
        self.performance == expected
    }

    /// A tracker for the variant `name`, scored by the evaluators
    /// `evaluator_names`: active, with no observation anywhere.
    pub fn new(
        name: String,
        evaluator_names: &Vec<String>,
        scoring: ScoringFunctionType,
        alpha: u64,
        resolution: usize,
    ) -> (result: Result<VariantTracker, ConfidenceError>)
        ensures
            (alpha == 0 || alpha >= ONE) ==> result == Err::<VariantTracker, ConfidenceError>(
                ConfidenceError::InvalidAlpha,
            ),
            (0 < alpha < ONE && resolution < 3) ==> result == Err::<VariantTracker, ConfidenceError>(
                ConfidenceError::InvalidResolution,
            ),
            (0 < alpha < ONE && resolution >= 3) ==> result.is_ok(),
            result.is_ok() ==> {
                let t = result.unwrap();
                &&& t.wf()
                &&& t.name == name
                &&& t.status == VariantStatus::Active
                &&& t.scoring == scoring
                &&& t.per_evaluator@.len() == evaluator_names@.len()
                &&& forall|e: int|
                    0 <= e < evaluator_names@.len() ==> fresh(
                        #[trigger] t.per_evaluator@[e],
                        evaluator_names@[e]@,
                        alpha,
                        resolution,
                    )
                &&& fresh(t.failures, name@, alpha, resolution)
            },
    {
        let failures = match BettingCS::new(name.clone(), alpha, resolution) {
            Ok(cs) => cs,
            Err(e) => {
                return Err(e);
            },
        };
        let mut per_evaluator: Vec<BettingCS> = Vec::new();
        let n: usize = evaluator_names.len();
        let mut e: usize = 0;
        while e < n
            invariant
                n == evaluator_names@.len(),
                0 <= e <= n,
                0 < alpha < ONE,
                resolution >= 3,
                per_evaluator@.len() == e,
                all_wf(per_evaluator@),
                forall|k: int|
                    0 <= k < e ==> fresh(
                        #[trigger] per_evaluator@[k],
                        evaluator_names@[k]@,
                        alpha,
                        resolution,
                    ),
            decreases n - e,
        {
            match BettingCS::new(evaluator_names[e].clone(), alpha, resolution) {
                Ok(cs) => {
                    per_evaluator.push(cs);
                },
                Err(err) => {
                    return Err(err);
                },
            }
            e = e + 1;
        }
        let performance = scoring.score(&per_evaluator);
        Ok(VariantTracker { name, status: VariantStatus::Active, scoring, performance, per_evaluator, failures })
    }

    /// Whether [`VariantTracker::record`] would refuse the sample, and why.
    pub fn check_record(
        &self,
        scores: &Vec<Option<Observation>>,
        any_failure: bool,
        failure_surviving: &Vec<bool>,
    ) -> (verdict: Option<ConfidenceError>)
        requires
            self.wf(),
        ensures
            verdict == self.record_refusal(scores@, any_failure, failure_surviving@),
    {
        let n: usize = self.per_evaluator.len();
        if scores.len() != n {
            return Some(ConfidenceError::EvaluatorMismatch);
        }
        let mut e: usize = 0;
        while e < n
            invariant
                n == self.per_evaluator@.len(),
                n == scores@.len(),
                0 <= e <= n,
                self.wf(),
                first_refusal(self.per_evaluator@, scores@, 0) == first_refusal(
                    self.per_evaluator@,
                    scores@,
                    e as int,
                ),
            decreases n - e,
        {
            match &scores[e] {
                Some(obs) => {
                    match self.per_evaluator[e].check(obs.value, &obs.surviving) {
                        Some(err) => {
                            return Some(err);
                        },
                        None => {},
                    }
                },
                None => {},
            }
            e = e + 1;
        }
        let x: u64 = if any_failure {
            ONE
        } else {
            0
        };
        self.failures.check(x, failure_surviving)
    }

    /// Records one sample of this variant. `scores[e]` is the score that
    /// evaluator `e` gave, absent where it gave none; `any_failure` says that
    /// the inference or an evaluator failed. Each present score goes to its
    /// evaluator's confidence sequence, the failure indicator goes to the
    /// failure sequence, and the score of the variant is combined anew. A
    /// refused sample leaves the tracker as it was.
    pub fn record(
        &mut self,
        scores: &Vec<Option<Observation>>,
        any_failure: bool,
        failure_surviving: &Vec<bool>,
    ) -> (result: Result<(), ConfidenceError>)
        requires
            old(self).wf(),
        ensures
            final(self).wf(),
            result == match old(self).record_refusal(scores@, any_failure, failure_surviving@) {
                Some(e) => Err::<(), ConfidenceError>(e),
                None => Ok::<(), ConfidenceError>(()),
            },
            result.is_err() ==> *final(self) == *old(self),
            result.is_ok() ==> recorded(
                *old(self),
                *final(self),
                scores@,
                any_failure,
                failure_surviving@,
            ),
    {
        let n: usize = self.per_evaluator.len();
        match self.check_record(scores, any_failure, failure_surviving) {
            Some(err) => {
                return Err(err);
            },
            None => {},
        }
        let x: u64 = if any_failure {
            ONE
        } else {
            0
        };
        proof {
            lemma_first_refusal_none(self.per_evaluator@, scores@, 0);
        }
        let mut next: Vec<BettingCS> = Vec::new();
        let mut e: usize = 0;
        while e < n
            invariant
                n == self.per_evaluator@.len(),
                n == scores@.len(),
                0 <= e <= n,
                *self == *old(self),
                self.wf(),
                forall|k: int|
                    0 <= k < n ==> score_refusal(
                        #[trigger] self.per_evaluator@[k],
                        scores@[k],
                    ).is_none(),
                next@.len() == e,
                all_wf(next@),
                forall|k: int|
                    0 <= k < e ==> #[trigger] next@[k] == after_score(
                        self.per_evaluator@[k],
                        scores@[k],
                    ),
            decreases n - e,
        {
            let mut cs = self.per_evaluator[e].clone();
            assert(self.per_evaluator@[e as int].wf());
            assert(score_refusal(self.per_evaluator@[e as int], scores@[e as int]).is_none());
            match &scores[e] {
                Some(obs) => {
                    let taken = cs.update(obs.value, &obs.surviving);
                    assert(taken.is_ok());
                },
                None => {},
            }
            next.push(cs);
            e = e + 1;
        }
        assert(next@ =~= after_scores(self.per_evaluator@, scores@));
        let taken = self.failures.update(x, failure_surviving);
        assert(taken.is_ok());
        self.performance = self.scoring.score(&next);
        self.per_evaluator = next;
        Ok(())
    }
}

/// No evaluator from `from` on refuses its score exactly if the search for a
/// refusal from there finds none.
pub proof fn lemma_first_refusal_none(cs: Seq<BettingCS>, scores: Seq<Option<Observation>>, from: int)
    requires
        0 <= from <= cs.len(),
        cs.len() == scores.len(),
        first_refusal(cs, scores, from).is_none(),
    ensures
        forall|k: int| from <= k < cs.len() ==> score_refusal(#[trigger] cs[k], scores[k]).is_none(),
    decreases cs.len() - from,
{
    if from < cs.len() {
        lemma_first_refusal_none(cs, scores, from + 1);
    }
}

/// The state of one evaluator.
#[derive(Debug)]
pub struct EvaluatorTracker {
    /// The evaluator's name.
    pub name: String,
    /// The confidence sequence over the indicator that the evaluator failed on
    /// a sample it was asked to score.
    pub failures: BettingCS,
}

impl EvaluatorTracker {
    /// The invariant of a tracker: that of its confidence sequence.
    pub open spec fn wf(&self) -> bool {
        self.failures.wf()
    }

    /// Whether the evaluator fails more often than `threshold` allows: the
    /// lower end of its failure rate lies strictly above the threshold.
    pub open spec fn over_threshold(&self, threshold: u64) -> bool {
        self.failures.cs_lower > threshold
    }

    /// Whether the tracker keeps its invariant.
    pub fn is_valid(&self) -> (valid: bool)
        ensures
            valid == self.wf(),
    {
        self.failures.is_valid()
    }

    /// A tracker for the evaluator `name`, with no observation.
    pub fn new(name: String, alpha: u64, resolution: usize) -> (result: Result<
        EvaluatorTracker,
        ConfidenceError,
    >)
        ensures
            (alpha == 0 || alpha >= ONE) ==> result == Err::<EvaluatorTracker, ConfidenceError>(
                ConfidenceError::InvalidAlpha,
            ),
            (0 < alpha < ONE && resolution < 3) ==> result == Err::<EvaluatorTracker, ConfidenceError>(
                ConfidenceError::InvalidResolution,
            ),
            (0 < alpha < ONE && resolution >= 3) ==> result.is_ok(),
            result.is_ok() ==> {
                let t = result.unwrap();
                &&& t.wf()
                &&& t.name == name
                &&& fresh(t.failures, name@, alpha, resolution)
            },
    {
        match BettingCS::new(name.clone(), alpha, resolution) {
            Ok(failures) => Ok(EvaluatorTracker { name, failures }),
            Err(e) => Err(e),
        }
    }

    /// Records whether the evaluator failed on one sample. A refused sample
    /// leaves the tracker as it was.
    pub fn record(&mut self, failed: bool, surviving: &Vec<bool>) -> (result: Result<(), ConfidenceError>)
        requires
            old(self).wf(),
        ensures
            final(self).wf(),
            result == match old(self).failures.refusal(indicator(failed), surviving@) {
                Some(e) => Err::<(), ConfidenceError>(e),
                None => Ok::<(), ConfidenceError>(()),
            },
            result.is_err() ==> *final(self) == *old(self),
            final(self).name == old(self).name,
            result.is_ok() ==> final(self).failures == old(self).failures.after(
                indicator(failed),
                surviving@,
            ),
    {
        let x: u64 = if failed {
            ONE
        } else {
            0
        };
        self.failures.update(x, surviving)
    }

    /// Whether the evaluator is over the failure threshold.
    pub fn is_over_threshold(&self, threshold: u64) -> (over: bool)
        ensures
            over == self.over_threshold(threshold),
    {
        self.failures.cs_lower > threshold
    }
}

} // verus!
