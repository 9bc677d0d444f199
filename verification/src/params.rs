//! The parameters of a top-k evaluation and their validation.

use vstd::prelude::*;
use crate::fraction::ONE;
use crate::scorer::ScoringFunctionType;

verus! {

/// How inference requests use the cache.
#[derive(Debug, Clone, Copy, PartialEq, Eq, Structural)]
pub enum CacheEnabledMode {
    /// Read from the cache and write to it.
    On,
    /// Do not use the cache.
    Off,
    /// Read from the cache, never write to it.
    ReadOnly,
}

/// The parameters of a top-k evaluation. Fractions are in millionths.
#[derive(Debug)]
pub struct RunTopKEvaluationParams {
    /// The name of the evaluation to run.
    pub evaluation_name: String,
    /// The name of the dataset to run on.
    pub dataset_name: String,
    /// The variants to compare.
    pub variant_names: Vec<String>,
    /// The smallest wanted size of the top set.
    pub k_min: u32,
    /// The largest wanted size of the top set.
    pub k_max: u32,
    /// The tolerance for performance equivalence; zero where absent.
    pub epsilon: Option<u64>,
    /// The largest number of datapoints to process; the whole dataset where
    /// absent.
    pub max_datapoints: Option<usize>,
    /// The number of datapoints drawn at a time; the concurrency where absent.
    pub batch_size: Option<usize>,
    /// The failure rate above which a variant is marked failed.
    pub variant_failure_threshold: u64,
    /// The failure rate above which an evaluator ends the run.
    pub evaluator_failure_threshold: u64,
    /// The largest number of requests in flight.
    pub concurrency: usize,
    /// How inference requests use the cache.
    pub inference_cache: CacheEnabledMode,
    /// How the evaluators are combined into a score.
    pub scoring_function: ScoringFunctionType,
}

/// Why parameters are refused.
#[derive(Debug, Clone, Copy, PartialEq, Eq, Structural)]
pub enum ParamError {
    /// `k_min` is zero.
    KMinZero,
    /// `k_min` is larger than `k_max`.
    KMinAboveKMax,
    /// `k_max` is larger than the number of variants.
    KMaxAboveVariants,
    /// The tolerance is larger than one.
    EpsilonOutOfRange,
    /// The failure threshold of the variants is larger than one.
    VariantThresholdOutOfRange,
    /// The failure threshold of the evaluators is larger than one.
    EvaluatorThresholdOutOfRange,
    /// The concurrency is zero.
    ConcurrencyZero,
}

/// The failure threshold used where none is given: five percent.
pub fn default_failure_threshold() -> (threshold: u64)
    ensures
        threshold == 50_000,
        threshold <= ONE,
{
    50_000
}

/// The concurrency used where none is given.
pub fn default_concurrency() -> (concurrency: usize)
    ensures
        concurrency == 5,
{
    5
}

impl RunTopKEvaluationParams {
    /// The first rule that the parameters break, if they break one. The rules
    /// are: `1 <= k_min <= k_max <= |variant_names|`; the tolerance and both
    /// thresholds are at most one; the concurrency is at least one.
    pub open spec fn violation(&self) -> Option<ParamError> {
        if self.k_min == 0 {
            Some(ParamError::KMinZero)
        } else if self.k_min > self.k_max {
            Some(ParamError::KMinAboveKMax)
        } else if self.k_max > self.variant_names@.len() {
            Some(ParamError::KMaxAboveVariants)
        } else if self.epsilon is Some && self.epsilon->0 > ONE {
            Some(ParamError::EpsilonOutOfRange)
        } else if self.variant_failure_threshold > ONE {
            Some(ParamError::VariantThresholdOutOfRange)
        } else if self.evaluator_failure_threshold > ONE {
            Some(ParamError::EvaluatorThresholdOutOfRange)
        } else if self.concurrency == 0 {
            Some(ParamError::ConcurrencyZero)
        } else {
            None
        }
    }

    /// The tolerance in force: the given one, or zero.
    pub open spec fn spec_epsilon(&self) -> u64 {
        match self.epsilon {
            Some(e) => e,
            None => 0,
        }
    }

    /// The batch size in force: the given one, or the concurrency.
    pub open spec fn spec_batch_size(&self) -> usize {
        match self.batch_size {
            Some(b) => b,
            None => self.concurrency,
        }
    }

    /// Checks the parameters against the rules.
    pub fn validate(&self) -> (result: Result<(), ParamError>)
        ensures
            result == match self.violation() {
                Some(e) => Err::<(), ParamError>(e),
                None => Ok::<(), ParamError>(()),
            },
    {
        if self.k_min == 0 {
            return Err(ParamError::KMinZero);
        }
        if self.k_min > self.k_max {
            return Err(ParamError::KMinAboveKMax);
        }
        if self.k_max as u64 > self.variant_names.len() as u64 {
            return Err(ParamError::KMaxAboveVariants);
        }
        match self.epsilon {
            Some(e) => {
                if e > ONE {
                    return Err(ParamError::EpsilonOutOfRange);
                }
            },
            None => {},
        }
        if self.variant_failure_threshold > ONE {
            return Err(ParamError::VariantThresholdOutOfRange);
        }
        if self.evaluator_failure_threshold > ONE {
            return Err(ParamError::EvaluatorThresholdOutOfRange);
        }
        if self.concurrency == 0 {
            return Err(ParamError::ConcurrencyZero);
        }
        Ok(())
    }

    /// The tolerance in force: the given one, or zero.
    pub fn effective_epsilon(&self) -> (epsilon: u64)
        ensures
            epsilon == self.spec_epsilon(),
    {
        match self.epsilon {
            Some(e) => e,
            None => 0,
        }
    }

    /// The batch size in force: the given one, or the concurrency.
    pub fn effective_batch_size(&self) -> (size: usize)
        ensures
            size == self.spec_batch_size(),
    {
        match self.batch_size {
            Some(b) => b,
            None => self.concurrency,
        }
    }
}

} // verus!
