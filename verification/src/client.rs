//! The embedded client: what the gateway's state allows, and how a top-k
//! evaluation is set up and reported.

use vstd::prelude::*;
use vstd::string::*;
use crate::counting::count_where;
use crate::output::{reports, TopKTaskOutput};
use crate::params::{CacheEnabledMode, ParamError, RunTopKEvaluationParams};
use crate::sampling::SamplingLoop;
use crate::text::concat3;

verus! {

/// What can go wrong at the client.
#[derive(Debug)]
pub enum TensorZeroClientError {
    /// The gateway reported an error.
    TensorZero(String),
    /// A streaming inference came back where none is supported.
    StreamingNotSupported,
    /// No autopilot client is configured.
    AutopilotUnavailable,
    /// The autopilot service reported an error.
    Autopilot(String),
    /// The operation is not supported in this mode.
    NotSupported(String),
    /// The evaluation could not be run.
    Evaluation(String),
}

impl TensorZeroClientError {
    /// The text of the error.
    pub open spec fn spec_message(&self) -> Seq<char> {
        match *self {
            TensorZeroClientError::TensorZero(m) => m@,
            TensorZeroClientError::StreamingNotSupported =>
                "Streaming inference not supported in tool context"@,
            TensorZeroClientError::AutopilotUnavailable => "Autopilot client not configured"@,
            TensorZeroClientError::Autopilot(m) => "Autopilot error: "@ + m@,
            TensorZeroClientError::NotSupported(m) => "Operation not supported: "@ + m@,
            TensorZeroClientError::Evaluation(m) => "Evaluation error: "@ + m@,
        }
    }

    /// The text of the error.
    pub fn message(&self) -> (text: String)
        ensures
            text@ == self.spec_message(),
    {
        match self {
            TensorZeroClientError::TensorZero(m) => m.clone(),
            TensorZeroClientError::StreamingNotSupported => String::from_str(
                "Streaming inference not supported in tool context",
            ),
            TensorZeroClientError::AutopilotUnavailable => String::from_str(
                "Autopilot client not configured",
            ),
            TensorZeroClientError::Autopilot(m) => String::from_str("Autopilot error: ").concat(
                m.as_str(),
            ),
            TensorZeroClientError::NotSupported(m) => String::from_str(
                "Operation not supported: ",
            ).concat(m.as_str()),
            TensorZeroClientError::Evaluation(m) => String::from_str("Evaluation error: ").concat(
                m.as_str(),
            ),
        }
    }
}

/// What the configuration says of one evaluation.
#[derive(Debug)]
pub struct EvaluationConfig {
    /// The names of the evaluators.
    pub evaluators: Vec<String>,
    /// The name of the function that is evaluated.
    pub function_name: String,
}

/// What the client reads of the gateway's state.
#[derive(Debug)]
pub struct AppStateData {
    /// The evaluations of the configuration, each under its name.
    pub evaluations: Vec<(String, EvaluationConfig)>,
    /// Whether a PostgreSQL connection is at hand.
    pub has_postgres: bool,
    /// Whether an autopilot client is configured.
    pub autopilot_available: bool,
    /// The identity of the deployment, where known.
    pub deployment_id: Option<String>,
    /// The hash of the live configuration.
    pub config_hash: String,
}

impl AppStateData {
    /// The position of the first evaluation named `name` at or after `from`,
    /// or the number of evaluations if there is none.
    pub open spec fn position(&self, name: Seq<char>, from: int) -> int
        decreases self.evaluations@.len() - from,
    {
        if from < 0 || from >= self.evaluations@.len() {
            self.evaluations@.len() as int
        } else if self.evaluations@[from].0@ == name {
            from
        } else {
            self.position(name, from + 1)
        }
    }

    /// Whether the configuration holds an evaluation named `name`.
    pub open spec fn has_evaluation(&self, name: Seq<char>) -> bool {
        self.position(name, 0) < self.evaluations@.len()
    }
}

/// The text that says that no evaluation is named `name`.
pub open spec fn not_found_text(name: Seq<char>) -> Seq<char> {
    "Evaluation '"@ + name + "' not found in config"@
}

/// The text that says which rule the parameters break.
pub open spec fn violation_text(e: ParamError) -> Seq<char> {
    match e {
        ParamError::KMinZero => "k_min must be at least 1"@,
        ParamError::KMinAboveKMax => "k_min must not be larger than k_max"@,
        ParamError::KMaxAboveVariants => "k_max must not be larger than the number of variants"@,
        ParamError::EpsilonOutOfRange => "epsilon must lie in [0, 1]"@,
        ParamError::VariantThresholdOutOfRange => "variant_failure_threshold must lie in [0, 1]"@,
        ParamError::EvaluatorThresholdOutOfRange =>
            "evaluator_failure_threshold must lie in [0, 1]"@,
        ParamError::ConcurrencyZero => "concurrency must be at least 1"@,
    }
}

/// The text that says which rule the parameters break.
pub fn violation_message(e: ParamError) -> (text: String)
    ensures
        text@ == violation_text(e),
{
    match e {
        ParamError::KMinZero => String::from_str("k_min must be at least 1"),
        ParamError::KMinAboveKMax => String::from_str("k_min must not be larger than k_max"),
        ParamError::KMaxAboveVariants => String::from_str(
            "k_max must not be larger than the number of variants",
        ),
        ParamError::EpsilonOutOfRange => String::from_str("epsilon must lie in [0, 1]"),
        ParamError::VariantThresholdOutOfRange => String::from_str(
            "variant_failure_threshold must lie in [0, 1]",
        ),
        ParamError::EvaluatorThresholdOutOfRange => String::from_str(
            "evaluator_failure_threshold must lie in [0, 1]",
        ),
        ParamError::ConcurrencyZero => String::from_str("concurrency must be at least 1"),
    }
}

/// What an inference gave.
pub enum InferenceOutput<R> {
    /// The whole response.
    NonStreaming(R),
    /// A stream of chunks.
    Streaming,
}

/// What the action endpoint gave.
pub enum ActionResponse<R> {
    /// The response of an inference.
    Inference(R),
    /// The response to feedback.
    Feedback,
}

/// The response of an inference: a stream is refused.
pub fn inference_result<R>(output: InferenceOutput<R>) -> (result: Result<R, TensorZeroClientError>)
    ensures
        match (output, result) {
            (InferenceOutput::NonStreaming(r), Ok(same)) => same == r,
            (InferenceOutput::Streaming, Err(TensorZeroClientError::StreamingNotSupported)) => true,
            _ => false,
        },
{
    match output {
        InferenceOutput::NonStreaming(response) => Ok(response),
        InferenceOutput::Streaming => Err(TensorZeroClientError::StreamingNotSupported),
    }
}

/// The response of an inference run through the action endpoint: a response
/// to feedback is not expected there.
pub fn action_result<R>(response: ActionResponse<R>) -> (result: Result<R, TensorZeroClientError>)
    ensures
        match (response, result) {
            (ActionResponse::Inference(r), Ok(same)) => same == r,
            (ActionResponse::Feedback, Err(TensorZeroClientError::TensorZero(m))) => m@
                == "Unexpected feedback response from action endpoint"@,
            _ => false,
        },
{
    match response {
        ActionResponse::Inference(r) => Ok(r),
        ActionResponse::Feedback => Err(
            TensorZeroClientError::TensorZero(
                String::from_str("Unexpected feedback response from action endpoint"),
            ),
        ),
    }
}

/// The response of a top-k evaluation.
#[derive(Debug)]
pub struct RunTopKEvaluationResponse {
    /// The report of the run.
    pub output: TopKTaskOutput,
}

/// The text of a UUID: 32 hexadecimal digits in five groups, with hyphens
/// between them.
pub uninterp spec fn uuid_text(id: u128) -> Seq<char>;

/// `uuid::Uuid::now_v7`, as the 128 bits of the UUID. Whatever the time and
/// the random bits, the version is 7 and the variant is that of RFC 4122.
#[verifier::external_body]
fn fresh_uuid() -> (id: u128)
    ensures
        (id >> 76u128) & 0xfu128 == 7u128,
        (id >> 62u128) & 0x3u128 == 2u128,
{
    uuid::Uuid::now_v7().as_u128()
}

/// The `Display` of `uuid::Uuid`, for the UUID with the bits `id`.
#[verifier::external_body]
fn hyphenated(id: u128) -> (text: String)
    ensures
        text@ == uuid_text(id),
{
    uuid::Uuid::from_u128(id).to_string()
}

/// A fresh identity for a run: a time-ordered UUID, as its 128 bits.
pub fn new_run_id() -> (id: u128)
    ensures
        (id >> 76u128) & 0xfu128 == 7u128,
        (id >> 62u128) & 0x3u128 == 2u128,
{
    fresh_uuid()
}

/// The name of the task queue of the run with the identity `id`.
pub fn queue_name(id: u128) -> (name: String)
    ensures
        name@ == "topk_eval_"@ + uuid_text(id),
{
    let text = hyphenated(id);
    String::from_str("topk_eval_").concat(text.as_str())
}

/// A client that uses the state of the gateway it lives in.
pub struct EmbeddedClient {
    app_state: AppStateData,
}

impl EmbeddedClient {
    /// The state of the gateway, in contracts.
    pub closed spec fn spec_app_state(&self) -> AppStateData {
        self.app_state
    }

    /// A client on the state of a gateway.
    pub fn new(app_state: AppStateData) -> (client: EmbeddedClient)
        ensures
            client.spec_app_state() == app_state,
    {
        Self { app_state }
    }

    /// The state of the gateway.
    pub fn app_state(&self) -> (state: &AppStateData)
        ensures
            *state == self.spec_app_state(),
    {
        &self.app_state
    }

    /// The evaluation named `name`, or the error that says there is none.
    pub fn find_evaluation(&self, name: &String) -> (result: Result<
        &EvaluationConfig,
        TensorZeroClientError,
    >)
        ensures
            match result {
                Ok(config) => {
                    let state = self.spec_app_state();
                    &&& state.has_evaluation(name@)
                    &&& *config == state.evaluations@[state.position(name@, 0)].1
                },
                Err(TensorZeroClientError::Evaluation(m)) => {
                    &&& !self.spec_app_state().has_evaluation(name@)
                    &&& m@ == not_found_text(name@)
                },
                Err(_) => false,
            },
    {
        let n: usize = self.app_state.evaluations.len();
        let mut i: usize = 0;
        while i < n
            invariant
                n == self.app_state.evaluations@.len(),
                0 <= i <= n,
                self.app_state.position(name@, 0) == self.app_state.position(name@, i as int),
            decreases n - i,
        {
            if self.app_state.evaluations[i].0 == *name {
                return Ok(&self.app_state.evaluations[i].1);
            }
            i = i + 1;
        }
        Err(
            TensorZeroClientError::Evaluation(
                concat3("Evaluation '", name.as_str(), "' not found in config"),
            ),
        )
    }

    /// The identity of the deployment for a request to the autopilot service.
    /// Without an autopilot client, or without a known deployment, the
    /// service is unavailable.
    pub fn autopilot_deployment(&self) -> (result: Result<&String, TensorZeroClientError>)
        ensures
            match result {
                Ok(id) => {
                    &&& self.spec_app_state().autopilot_available
                    &&& self.spec_app_state().deployment_id == Some(*id)
                },
                Err(TensorZeroClientError::AutopilotUnavailable) => {
                    ||| !self.spec_app_state().autopilot_available
                    ||| self.spec_app_state().deployment_id is None
                },
                Err(_) => false,
            },
    {
        if !self.app_state.autopilot_available {
            return Err(TensorZeroClientError::AutopilotUnavailable);
        }
        match &self.app_state.deployment_id {
            Some(id) => Ok(id),
            None => Err(TensorZeroClientError::AutopilotUnavailable),
        }
    }

    /// The hash of the configuration snapshot to read: the given one, or that
    /// of the live configuration.
    pub fn snapshot_hash(&self, hash: Option<String>) -> (chosen: String)
        ensures
            chosen@ == (match hash {
                Some(h) => h@,
                None => self.spec_app_state().config_hash@,
            }),
    {
        match hash {
            Some(h) => h,
            None => self.app_state.config_hash.clone(),
        }
    }

    /// Why a top-k evaluation cannot begin, if it cannot: the evaluation is
    /// not configured, or no PostgreSQL connection is at hand, or the
    /// parameters break a rule.
    pub open spec fn topk_obstacle(&self, params: &RunTopKEvaluationParams) -> Option<Seq<char>> {
        let state = self.spec_app_state();
        if !state.has_evaluation(params.evaluation_name@) {
            Some(not_found_text(params.evaluation_name@))
        } else if !state.has_postgres {
            Some("PostgreSQL connection required for top-k evaluation"@)
        } else {
            match params.violation() {
                Some(e) => Some("Invalid parameters: "@ + violation_text(e)),
                None => None,
            }
        }
    }

    /// Sets up a top-k evaluation on a dataset of `dataset_len` datapoints:
    /// the run over the variants of `params`, scored by the evaluators of the
    /// configured evaluation, with nothing processed yet.
    pub fn begin_topk_evaluation(&self, params: &RunTopKEvaluationParams, dataset_len: usize) -> (result:
        Result<SamplingLoop, TensorZeroClientError>)
        ensures
            match result {
                Ok(run) => {
                    &&& self.topk_obstacle(params) is None
                    &&& run.wf()
                    &&& run.processed == 0
                    &&& run.pending == 0
                    &&& run.stopping_reason is None
                    &&& run.dataset_len == dataset_len
                    &&& run.max_datapoints == params.max_datapoints
                    &&& run.batch_size == params.spec_batch_size()
                    &&& run.rule.k_min == params.k_min
                    &&& run.rule.k_max == params.k_max
                    &&& run.rule.epsilon == params.spec_epsilon()
                    &&& run.rule.variant_failure_threshold == params.variant_failure_threshold
                    &&& run.rule.evaluator_failure_threshold == params.evaluator_failure_threshold
                    &&& run.variants@.len() == params.variant_names@.len()
                    &&& crate::stopping::variant_names(run.variants@).to_multiset()
                        == crate::names::texts(params.variant_names@).to_multiset()
                    &&& crate::names::ascending(crate::stopping::variant_names(run.variants@))
                    &&& crate::stopping::evaluator_names(run.evaluators@).to_multiset()
                        == crate::names::texts(
                        self.spec_app_state().evaluations@[self.spec_app_state().position(
                            params.evaluation_name@,
                            0,
                        )].1.evaluators@,
                    ).to_multiset()
                    &&& crate::names::ascending(crate::stopping::evaluator_names(run.evaluators@))
                    &&& crate::sampling::all_fresh(&run, params.scoring_function)
                },
                Err(TensorZeroClientError::Evaluation(m)) => self.topk_obstacle(params) == Some(m@),
                Err(_) => false,
            },
    {
        let config = match self.find_evaluation(&params.evaluation_name) {
            Ok(config) => config,
            Err(e) => {
                return Err(e);
            },
        };
        if !self.app_state.has_postgres {
            return Err(
                TensorZeroClientError::Evaluation(
                    String::from_str("PostgreSQL connection required for top-k evaluation"),
                ),
            );
        }
        match SamplingLoop::new(params, &config.evaluators, dataset_len) {
            Ok(run) => {
                proof {
                    let names = crate::stopping::variant_names(run.variants@);
                    let given = crate::names::texts(params.variant_names@);
                    names.to_multiset_ensures();
                    given.to_multiset_ensures();
                }
                Ok(run)
            },
            Err(e) => {
                let reason = violation_message(e);
                Err(
                    TensorZeroClientError::Evaluation(
                        String::from_str("Invalid parameters: ").concat(reason.as_str()),
                    ),
                )
            },
        }
    }

    /// The response of a top-k evaluation whose run has ended; a run that
    /// still goes on has no output.
    pub fn finish_topk_evaluation(run: &SamplingLoop, evaluation_run_id: u128) -> (result: Result<
        RunTopKEvaluationResponse,
        TensorZeroClientError,
    >)
        requires
            run.wf(),
        ensures
            match result {
                Ok(response) => {
                    &&& run.stopping_reason is Some
                    &&& reports(run, evaluation_run_id, &response.output)
                },
                Err(TensorZeroClientError::Evaluation(m)) => {
                    &&& run.stopping_reason is None
                    &&& m@ == "No task output found"@
                },
                Err(_) => false,
            },
    {
        match run.output(evaluation_run_id) {
            Some(output) => Ok(RunTopKEvaluationResponse { output }),
            None => Err(TensorZeroClientError::Evaluation(String::from_str("No task output found"))),
        }
    }
}

/// The parameters of a plain evaluation of one variant. Targets are 32-bit
/// floats, carried as their bit patterns.
#[derive(Debug)]
pub struct RunEvaluationParams {
    /// The name of the evaluation to run.
    pub evaluation_name: String,
    /// The name of the dataset to run on, unless datapoints are named.
    pub dataset_name: Option<String>,
    /// The datapoints to run on, unless a dataset is named.
    pub datapoint_ids: Option<Vec<u128>>,
    /// The variant to evaluate.
    pub variant_name: String,
    /// The largest number of requests in flight.
    pub concurrency: usize,
    /// How inference requests use the cache.
    pub inference_cache: CacheEnabledMode,
    /// The largest number of datapoints to evaluate.
    pub max_datapoints: Option<u32>,
    /// For each named evaluator, the half-width of its interval at which the
    /// evaluation may stop early.
    pub precision_targets: Vec<(String, u32)>,
}

/// The statistics of one evaluator. Mean and standard error are 32-bit floats,
/// carried as their bit patterns.
#[derive(Debug, Clone, Copy, PartialEq, Eq, Structural)]
pub struct EvaluatorStatsResponse {
    pub mean: u32,
    pub stderr: u32,
    pub count: usize,
}

/// The response of a plain evaluation.
#[derive(Debug)]
pub struct RunEvaluationResponse {
    /// The identity of the run.
    pub evaluation_run_id: u128,
    /// The number of datapoints evaluated.
    pub num_datapoints: usize,
    /// The number of datapoints that were evaluated with success.
    pub num_successes: usize,
    /// The number of datapoints on which the evaluation failed.
    pub num_errors: usize,
    /// The statistics of each evaluator, under its name.
    pub stats: Vec<(String, EvaluatorStatsResponse)>,
}

/// What a running evaluation reports.
#[derive(Debug, Clone, Copy, PartialEq, Eq, Structural)]
pub enum EvaluationUpdate {
    /// What the run is about; no datapoint.
    RunInfo,
    /// A datapoint was evaluated.
    Success,
    /// The evaluation of a datapoint failed.
    Error,
}

/// The predicate "the update at position `i` is of the kind `kind`".
pub open spec fn update_is(updates: Seq<EvaluationUpdate>, kind: EvaluationUpdate) -> spec_fn(
    int,
) -> bool {
    |i: int| 0 <= i < updates.len() && updates[i] == kind
}

/// The number of datapoints evaluated with success, and the number on which
/// the evaluation failed. What the run says of itself counts as neither.
pub fn tally(updates: &Vec<EvaluationUpdate>) -> (counts: (usize, usize))
    ensures
        counts.0 == count_where(updates@.len() as int, update_is(updates@, EvaluationUpdate::Success)),
        counts.1 == count_where(updates@.len() as int, update_is(updates@, EvaluationUpdate::Error)),
{
    let n: usize = updates.len();
    let mut successes: usize = 0;
    let mut errors: usize = 0;
    let mut i: usize = 0;
    while i < n
        invariant
            n == updates@.len(),
            0 <= i <= n,
            successes == count_where(i as int, update_is(updates@, EvaluationUpdate::Success)),
            errors == count_where(i as int, update_is(updates@, EvaluationUpdate::Error)),
            successes <= i,
            errors <= i,
        decreases n - i,
    {
        match updates[i] {
            EvaluationUpdate::RunInfo => {},
            EvaluationUpdate::Success => {
                successes = successes + 1;
            },
            EvaluationUpdate::Error => {
                errors = errors + 1;
            },
        }
        i = i + 1;
    }
    (successes, errors)
}

impl EmbeddedClient {
    /// The configured evaluation that a plain evaluation runs, or the error
    /// that says there is none of that name.
    pub fn begin_evaluation(&self, params: &RunEvaluationParams) -> (result: Result<
        &EvaluationConfig,
        TensorZeroClientError,
    >)
        ensures
            match result {
                Ok(config) => {
                    let state = self.spec_app_state();
                    &&& state.has_evaluation(params.evaluation_name@)
                    &&& *config == state.evaluations@[state.position(params.evaluation_name@, 0)].1
                },
                Err(TensorZeroClientError::Evaluation(m)) => {
                    &&& !self.spec_app_state().has_evaluation(params.evaluation_name@)
                    &&& m@ == not_found_text(params.evaluation_name@)
                },
                Err(_) => false,
            },
    {
        self.find_evaluation(&params.evaluation_name)
    }

    /// The response of a plain evaluation of `num_datapoints` datapoints that
    /// reported `updates` and ended with the statistics `stats`.
    pub fn finish_evaluation(
        evaluation_run_id: u128,
        num_datapoints: usize,
        updates: &Vec<EvaluationUpdate>,
        stats: Vec<(String, EvaluatorStatsResponse)>,
    ) -> (response: RunEvaluationResponse)
        ensures
            response.evaluation_run_id == evaluation_run_id,
            response.num_datapoints == num_datapoints,
            response.num_successes == count_where(
                updates@.len() as int,
                update_is(updates@, EvaluationUpdate::Success),
            ),
            response.num_errors == count_where(
                updates@.len() as int,
                update_is(updates@, EvaluationUpdate::Error),
            ),
            response.stats == stats,
    {
        let (num_successes, num_errors) = tally(updates);
        RunEvaluationResponse { evaluation_run_id, num_datapoints, num_successes, num_errors, stats }
    }
}

} // verus!
