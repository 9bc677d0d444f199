//! The tool that runs a top-k evaluation on behalf of a language model: its
//! name, its parameters as the model sees them, and their hand-over to the
//! client.

use vstd::prelude::*;
use vstd::string::*;
use crate::params::{CacheEnabledMode, RunTopKEvaluationParams};
use crate::scorer::ScoringFunctionType;

verus! {

/// The parameters of the tool, as the model gives them. Fractions are in
/// millionths.
#[derive(Debug)]
pub struct RunTopKEvaluationToolParams {
    /// The name of the evaluation to run.
    pub evaluation_name: String,
    /// The name of the dataset to run on.
    pub dataset_name: String,
    /// The variants to compare.
    pub variant_names: Vec<String>,
    /// The smallest wanted size of the top set.
    pub k_min: u32,
    /// The largest wanted size of the top set.
    pub k_max: u32,
    /// The tolerance for performance equivalence.
    pub epsilon: Option<u64>,
    /// The largest number of datapoints to process.
    pub max_datapoints: Option<usize>,
    /// The number of datapoints drawn at a time.
    pub batch_size: Option<usize>,
    /// The failure rate above which a variant is marked failed.
    pub variant_failure_threshold: u64,
    /// The failure rate above which an evaluator ends the run.
    pub evaluator_failure_threshold: u64,
    /// The largest number of requests in flight.
    pub concurrency: usize,
    /// How inference requests use the cache.
    pub inference_cache: CacheEnabledMode,
    /// How the evaluators are combined into a score.
    pub scoring_function: ScoringFunctionType,
}

/// The failure threshold used where the model gives none: five percent.
pub fn default_failure_threshold() -> (threshold: u64)
    ensures
        threshold == 50_000,
{
    50_000
}

/// The concurrency used where the model gives none.
pub fn default_concurrency() -> (concurrency: usize)
    ensures
        concurrency == 5,
{
    5
}

/// The cache mode used where the model gives none.
pub fn default_inference_cache() -> (mode: CacheEnabledMode)
    ensures
        mode == CacheEnabledMode::On,
{
    CacheEnabledMode::On
}

/// The scoring function used where the model gives none.
pub fn default_scoring_function() -> (scoring: ScoringFunctionType)
    ensures
        scoring == ScoringFunctionType::AverageEvaluatorScore,
{
    ScoringFunctionType::AverageEvaluatorScore
}

/// The kind of value that a parameter takes.
#[derive(Debug, Clone, Copy, PartialEq, Eq, Structural)]
pub enum ParameterKind {
    /// A text.
    Text,
    /// A whole number.
    Integer,
    /// A number.
    Number,
    /// A list of texts.
    TextList,
    /// One of the listed texts.
    OneOf,
}

/// One parameter of the tool, as the schema describes it.
#[derive(Debug)]
pub struct ParameterSpec {
    /// The name of the parameter.
    pub name: &'static str,
    /// The kind of its value.
    pub kind: ParameterKind,
    /// What the parameter means.
    pub description: &'static str,
    /// The texts to choose from, for a parameter of kind `OneOf`.
    pub choices: Vec<&'static str>,
    /// Whether the parameter must be given.
    pub required: bool,
}

/// The tool that runs a top-k evaluation.
#[derive(Debug, Clone, Copy)]
pub struct RunTopKEvaluationTool;

impl Default for RunTopKEvaluationTool {
    fn default() -> (tool: RunTopKEvaluationTool) {
        RunTopKEvaluationTool
    }
}

/// One parameter without choices.
fn plain(name: &'static str, kind: ParameterKind, description: &'static str, required: bool) -> (spec:
    ParameterSpec)
    ensures
        spec.name@ == name@,
        spec.kind == kind,
        spec.description@ == description@,
        spec.choices@.len() == 0,
        spec.required == required,
{
    ParameterSpec { name, kind, description, choices: Vec::new(), required }
}

/// The names of the parameters, in the order of the schema.
pub open spec fn parameter_names() -> Seq<Seq<char>> {
    seq![
        "evaluation_name"@,
        "dataset_name"@,
        "variant_names"@,
        "k_min"@,
        "k_max"@,
        "epsilon"@,
        "max_datapoints"@,
        "batch_size"@,
        "variant_failure_threshold"@,
        "evaluator_failure_threshold"@,
        "concurrency"@,
        "inference_cache"@,
        "scoring_function"@,
    ]
}

/// The kinds of the parameters, in the order of the schema.
pub open spec fn parameter_kinds() -> Seq<ParameterKind> {
    seq![
        ParameterKind::Text,
        ParameterKind::Text,
        ParameterKind::TextList,
        ParameterKind::Integer,
        ParameterKind::Integer,
        ParameterKind::Number,
        ParameterKind::Integer,
        ParameterKind::Integer,
        ParameterKind::Number,
        ParameterKind::Number,
        ParameterKind::Integer,
        ParameterKind::OneOf,
        ParameterKind::OneOf,
    ]
}

/// What the schema says of each parameter, in the order of the schema.
pub open spec fn parameter_descriptions() -> Seq<Seq<char>> {
    seq![
        "Name of the evaluation to run (must be defined in config)."@,
        "Name of the dataset to evaluate on."@,
        "List of variant names to compare."@,
        "Minimum k for top-k identification."@,
        "Maximum k for top-k identification."@,
        "Tolerance for performance equivalence (optional)."@,
        "Maximum number of datapoints to process (optional)."@,
        "Batch size for processing (optional)."@,
        "Failure rate threshold for variants (default: 0.05)."@,
        "Failure rate threshold for evaluators (default: 0.05)."@,
        "Number of concurrent inference requests (default: 5)."@,
        "Cache configuration for inference requests (default: 'on')."@,
        "Scoring function type for ranking variants (default: 'AverageEvaluatorScore')."@,
    ]
}

impl RunTopKEvaluationTool {
    /// The name of the tool.
    pub fn name() -> (name: &'static str)
        ensures
            name@ == "run_topk_evaluation"@,
    {
        "run_topk_evaluation"
    }

    /// What the tool does, for the model.
    pub fn description() -> (text: &'static str)
        ensures
            text@
                == "Run a top-k evaluation to identify the best-performing variants from a set. This evaluates multiple variants against a dataset and stops when it can confidently identify the top-k variants (for some k in [k_min, k_max]). Returns the winning variants and confidence statistics."@,
    {
        "Run a top-k evaluation to identify the best-performing variants from a set. This evaluates multiple variants against a dataset and stops when it can confidently identify the top-k variants (for some k in [k_min, k_max]). Returns the winning variants and confidence statistics."
    }

    /// What the schema says of the whole parameter object.
    pub fn schema_description() -> (text: &'static str)
        ensures
            text@ == "Run a top-k evaluation to identify the best-performing variants."@,
    {
        "Run a top-k evaluation to identify the best-performing variants."
    }

    /// The parameters of the tool, in the order of the schema. The first five
    /// must be given; each of the others has a default or may be left out.
    pub fn parameters_schema() -> (schema: Vec<ParameterSpec>)
        ensures
            schema@.len() == 13,
            forall|i: int|
                0 <= i < 13 ==> {
                    &&& (#[trigger] schema@[i]).name@ == parameter_names()[i]
                    &&& schema@[i].kind == parameter_kinds()[i]
                    &&& schema@[i].description@ == parameter_descriptions()[i]
                    &&& schema@[i].required == (i < 5)
                },
            forall|i: int| 0 <= i < 11 ==> (#[trigger] schema@[i]).choices@.len() == 0,
            schema@[11].choices@.len() == 3,
            schema@[11].choices@[0]@ == "on"@,
            schema@[11].choices@[1]@ == "off"@,
            schema@[11].choices@[2]@ == "read_only"@,
            schema@[12].choices@.len() == 1,
            schema@[12].choices@[0]@ == "AverageEvaluatorScore"@,
    {
        let mut schema: Vec<ParameterSpec> = Vec::new();
        schema.push(
            plain(
                "evaluation_name",
                ParameterKind::Text,
                "Name of the evaluation to run (must be defined in config).",
                true,
            ),
        );
        schema.push(
            plain("dataset_name", ParameterKind::Text, "Name of the dataset to evaluate on.", true),
        );
        schema.push(
            plain("variant_names", ParameterKind::TextList, "List of variant names to compare.", true),
        );
        schema.push(
            plain("k_min", ParameterKind::Integer, "Minimum k for top-k identification.", true),
        );
        schema.push(
            plain("k_max", ParameterKind::Integer, "Maximum k for top-k identification.", true),
        );
        schema.push(
            plain(
                "epsilon",
                ParameterKind::Number,
                "Tolerance for performance equivalence (optional).",
                false,
            ),
        );
        schema.push(
            plain(
                "max_datapoints",
                ParameterKind::Integer,
                "Maximum number of datapoints to process (optional).",
                false,
            ),
        );
        schema.push(
            plain("batch_size", ParameterKind::Integer, "Batch size for processing (optional).", false),
        );
        schema.push(
            plain(
                "variant_failure_threshold",
                ParameterKind::Number,
                "Failure rate threshold for variants (default: 0.05).",
                false,
            ),
        );
        schema.push(
            plain(
                "evaluator_failure_threshold",
                ParameterKind::Number,
                "Failure rate threshold for evaluators (default: 0.05).",
                false,
            ),
        );
        schema.push(
            plain(
                "concurrency",
                ParameterKind::Integer,
                "Number of concurrent inference requests (default: 5).",
                false,
            ),
        );
        let mut cache_choices: Vec<&'static str> = Vec::new();
        cache_choices.push("on");
        cache_choices.push("off");
        cache_choices.push("read_only");
        schema.push(
            ParameterSpec {
                name: "inference_cache",
                kind: ParameterKind::OneOf,
                description: "Cache configuration for inference requests (default: 'on').",
                choices: cache_choices,
                required: false,
            },
        );
        let mut scoring_choices: Vec<&'static str> = Vec::new();
        scoring_choices.push("AverageEvaluatorScore");
        schema.push(
            ParameterSpec {
                name: "scoring_function",
                kind: ParameterKind::OneOf,
                description: "Scoring function type for ranking variants (default: 'AverageEvaluatorScore').",
                choices: scoring_choices,
                required: false,
            },
        );
        schema
    }

    /// The parameters for the client, from those that the model gave: each
    /// field is handed over as it is.
    pub fn client_params(llm_params: RunTopKEvaluationToolParams) -> (params: RunTopKEvaluationParams)
        ensures
            params.evaluation_name == llm_params.evaluation_name,
            params.dataset_name == llm_params.dataset_name,
            params.variant_names == llm_params.variant_names,
            params.k_min == llm_params.k_min,
            params.k_max == llm_params.k_max,
            params.epsilon == llm_params.epsilon,
            params.max_datapoints == llm_params.max_datapoints,
            params.batch_size == llm_params.batch_size,
            params.variant_failure_threshold == llm_params.variant_failure_threshold,
            params.evaluator_failure_threshold == llm_params.evaluator_failure_threshold,
            params.concurrency == llm_params.concurrency,
            params.inference_cache == llm_params.inference_cache,
            params.scoring_function == llm_params.scoring_function,
    {
        RunTopKEvaluationParams {
            evaluation_name: llm_params.evaluation_name,
            dataset_name: llm_params.dataset_name,
            variant_names: llm_params.variant_names,
            k_min: llm_params.k_min,
            k_max: llm_params.k_max,
            epsilon: llm_params.epsilon,
            max_datapoints: llm_params.max_datapoints,
            batch_size: llm_params.batch_size,
            variant_failure_threshold: llm_params.variant_failure_threshold,
            evaluator_failure_threshold: llm_params.evaluator_failure_threshold,
            concurrency: llm_params.concurrency,
            inference_cache: llm_params.inference_cache,
            scoring_function: llm_params.scoring_function,
        }
    }
}

} // verus!
