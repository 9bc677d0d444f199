use topk_evaluation::client::{
    action_result, inference_result, new_run_id, queue_name, tally, violation_message,
    ActionResponse, AppStateData, EmbeddedClient, EvaluationConfig, EvaluationUpdate,
    EvaluatorStatsResponse, InferenceOutput, RunEvaluationParams, TensorZeroClientError,
};
use topk_evaluation::params::{
    default_concurrency, default_failure_threshold, CacheEnabledMode, ParamError,
    RunTopKEvaluationParams,
};
use topk_evaluation::polling::{
    failure_query, payload_query, poll_step, state_query, PollAction, PollEvent,
    POLL_INTERVAL_MILLIS, POLL_TIMEOUT_MILLIS,
};
use topk_evaluation::scorer::ScoringFunctionType;
use topk_evaluation::text::decimal_string;
use topk_evaluation::tool::{
    default_inference_cache, default_scoring_function, ParameterKind, RunTopKEvaluationTool,
    RunTopKEvaluationToolParams,
};

fn params(names: &[&str], k_min: u32, k_max: u32) -> RunTopKEvaluationParams {
    RunTopKEvaluationParams {
        evaluation_name: "test_evaluation".to_string(),
        dataset_name: "test_dataset".to_string(),
        variant_names: names.iter().map(|s| s.to_string()).collect(),
        k_min,
        k_max,
        epsilon: None,
        max_datapoints: None,
        batch_size: None,
        variant_failure_threshold: 50_000,
        evaluator_failure_threshold: 50_000,
        concurrency: 5,
        inference_cache: CacheEnabledMode::Off,
        scoring_function: ScoringFunctionType::AverageEvaluatorScore,
    }
}

fn state(has_postgres: bool) -> AppStateData {
    AppStateData {
        evaluations: vec![(
            "test_evaluation".to_string(),
            EvaluationConfig {
                evaluators: vec!["llm_judge".to_string(), "exact_match".to_string()],
                function_name: "f".to_string(),
            },
        )],
        has_postgres,
        autopilot_available: true,
        deployment_id: Some("dep".to_string()),
        config_hash: "live".to_string(),
    }
}

fn evaluation_text(e: TensorZeroClientError) -> String {
    match e {
        TensorZeroClientError::Evaluation(m) => m,
        other => panic!("unexpected {other:?}"),
    }
}

#[test]
fn validation_accepts_and_refuses() {
    assert_eq!(params(&["a", "b", "c"], 1, 2).validate(), Ok(()));
    assert_eq!(params(&["a"], 0, 1).validate(), Err(ParamError::KMinZero));
    assert_eq!(params(&["a", "b"], 2, 1).validate(), Err(ParamError::KMinAboveKMax));
    assert_eq!(params(&["a"], 1, 2).validate(), Err(ParamError::KMaxAboveVariants));
    let mut p = params(&["a"], 1, 1);
    p.epsilon = Some(1_000_001);
    assert_eq!(p.validate(), Err(ParamError::EpsilonOutOfRange));
    p.epsilon = Some(1_000_000);
    assert_eq!(p.validate(), Ok(()));
    p.variant_failure_threshold = 1_000_001;
    assert_eq!(p.validate(), Err(ParamError::VariantThresholdOutOfRange));
    p.variant_failure_threshold = 0;
    p.evaluator_failure_threshold = 2_000_000;
    assert_eq!(p.validate(), Err(ParamError::EvaluatorThresholdOutOfRange));
    p.evaluator_failure_threshold = 0;
    p.concurrency = 0;
    assert_eq!(p.validate(), Err(ParamError::ConcurrencyZero));
}

#[test]
fn defaults() {
    assert_eq!(default_failure_threshold(), 50_000);
    assert_eq!(default_concurrency(), 5);
    assert_eq!(topk_evaluation::tool::default_failure_threshold(), 50_000);
    assert_eq!(topk_evaluation::tool::default_concurrency(), 5);
    assert_eq!(default_inference_cache(), CacheEnabledMode::On);
    assert_eq!(default_scoring_function(), ScoringFunctionType::AverageEvaluatorScore);
    let mut p = params(&["a"], 1, 1);
    assert_eq!(p.effective_epsilon(), 0);
    assert_eq!(p.effective_batch_size(), 5);
    p.epsilon = Some(10_000);
    p.batch_size = Some(20);
    assert_eq!(p.effective_epsilon(), 10_000);
    assert_eq!(p.effective_batch_size(), 20);
}

#[test]
fn tool_name_and_schema() {
    assert_eq!(RunTopKEvaluationTool::name(), "run_topk_evaluation");
    assert!(RunTopKEvaluationTool::description().starts_with("Run a top-k evaluation"));
    let schema = RunTopKEvaluationTool::parameters_schema();
    let names: Vec<&str> = schema.iter().map(|p| p.name).collect();
    assert_eq!(
        names,
        vec![
            "evaluation_name",
            "dataset_name",
            "variant_names",
            "k_min",
            "k_max",
            "epsilon",
            "max_datapoints",
            "batch_size",
            "variant_failure_threshold",
            "evaluator_failure_threshold",
            "concurrency",
            "inference_cache",
            "scoring_function"
        ]
    );
    let required: Vec<&str> = schema.iter().filter(|p| p.required).map(|p| p.name).collect();
    assert_eq!(
        required,
        vec!["evaluation_name", "dataset_name", "variant_names", "k_min", "k_max"]
    );
    assert_eq!(schema[2].kind, ParameterKind::TextList);
    assert_eq!(schema[5].kind, ParameterKind::Number);
    assert_eq!(schema[11].choices, vec!["on", "off", "read_only"]);
    assert_eq!(schema[12].choices, vec!["AverageEvaluatorScore"]);
}

#[test]
fn tool_hands_parameters_over() {
    let llm_params = RunTopKEvaluationToolParams {
        evaluation_name: "test_evaluation".to_string(),
        dataset_name: "test_dataset".to_string(),
        variant_names: vec![
            "variant_a".to_string(),
            "variant_b".to_string(),
            "variant_c".to_string(),
        ],
        k_min: 1,
        k_max: 2,
        epsilon: None,
        max_datapoints: Some(100),
        batch_size: Some(20),
        variant_failure_threshold: 50_000,
        evaluator_failure_threshold: 50_000,
        concurrency: 5,
        inference_cache: CacheEnabledMode::Off,
        scoring_function: ScoringFunctionType::AverageEvaluatorScore,
    };
    let params = RunTopKEvaluationTool::client_params(llm_params);
    assert_eq!(params.evaluation_name, "test_evaluation");
    assert_eq!(params.dataset_name, "test_dataset");
    assert_eq!(params.variant_names.len(), 3);
    assert_eq!(params.k_min, 1);
    assert_eq!(params.k_max, 2);
    assert_eq!(params.concurrency, 5);
    assert_eq!(params.max_datapoints, Some(100));
    assert_eq!(params.batch_size, Some(20));
    assert_eq!(params.inference_cache, CacheEnabledMode::Off);
}

#[test]
fn unknown_evaluation_is_refused() {
    let client = EmbeddedClient::new(state(true));
    let mut p = params(&["variant_a"], 1, 1);
    p.evaluation_name = "nonexistent_evaluation".to_string();
    let err = client.begin_topk_evaluation(&p, 10).err().unwrap();
    assert_eq!(
        evaluation_text(err),
        "Evaluation 'nonexistent_evaluation' not found in config"
    );
    assert!(client.find_evaluation(&"test_evaluation".to_string()).is_ok());
}

#[test]
fn postgres_and_parameters_are_checked() {
    let without = EmbeddedClient::new(state(false));
    let err = without.begin_topk_evaluation(&params(&["a"], 1, 1), 10).err().unwrap();
    assert_eq!(evaluation_text(err), "PostgreSQL connection required for top-k evaluation");

    let client = EmbeddedClient::new(state(true));
    let err = client.begin_topk_evaluation(&params(&["a"], 1, 2), 10).err().unwrap();
    assert_eq!(
        evaluation_text(err),
        "Invalid parameters: k_max must not be larger than the number of variants"
    );
    assert_eq!(violation_message(ParamError::KMinZero), "k_min must be at least 1");

    let run = client.begin_topk_evaluation(&params(&["b", "a"], 1, 1), 10).unwrap();
    assert_eq!(run.variants.len(), 2);
    assert_eq!(run.variants[0].name, "a");
    assert_eq!(run.variants[1].name, "b");
    assert_eq!(run.evaluators[0].name, "exact_match");
    assert_eq!(run.evaluators[1].name, "llm_judge");
    assert_eq!(run.processed, 0);
    let err = EmbeddedClient::finish_topk_evaluation(&run, 1).err().unwrap();
    assert_eq!(evaluation_text(err), "No task output found");
}

#[test]
fn client_state_decisions() {
    let client = EmbeddedClient::new(state(true));
    assert_eq!(client.app_state().config_hash, "live");
    assert_eq!(client.autopilot_deployment().unwrap(), "dep");
    assert_eq!(client.snapshot_hash(None), "live");
    assert_eq!(client.snapshot_hash(Some("abc".to_string())), "abc");
    let mut s = state(true);
    s.autopilot_available = false;
    assert!(matches!(
        EmbeddedClient::new(s).autopilot_deployment(),
        Err(TensorZeroClientError::AutopilotUnavailable)
    ));
    let mut s = state(true);
    s.deployment_id = None;
    assert!(matches!(
        EmbeddedClient::new(s).autopilot_deployment(),
        Err(TensorZeroClientError::AutopilotUnavailable)
    ));
    assert_eq!(inference_result(InferenceOutput::NonStreaming(7)).unwrap(), 7);
    assert!(matches!(
        inference_result(InferenceOutput::<u8>::Streaming),
        Err(TensorZeroClientError::StreamingNotSupported)
    ));
    assert_eq!(action_result(ActionResponse::Inference(9)).unwrap(), 9);
    match action_result(ActionResponse::<u8>::Feedback) {
        Err(TensorZeroClientError::TensorZero(m)) => {
            assert_eq!(m, "Unexpected feedback response from action endpoint")
        }
        _ => panic!("expected an error"),
    }
}

#[test]
fn error_messages() {
    assert_eq!(TensorZeroClientError::TensorZero("x".to_string()).message(), "x");
    assert_eq!(
        TensorZeroClientError::StreamingNotSupported.message(),
        "Streaming inference not supported in tool context"
    );
    assert_eq!(
        TensorZeroClientError::AutopilotUnavailable.message(),
        "Autopilot client not configured"
    );
    assert_eq!(
        TensorZeroClientError::Autopilot("down".to_string()).message(),
        "Autopilot error: down"
    );
    assert_eq!(
        TensorZeroClientError::NotSupported("op".to_string()).message(),
        "Operation not supported: op"
    );
    assert_eq!(
        TensorZeroClientError::Evaluation("bad".to_string()).message(),
        "Evaluation error: bad"
    );
}

#[test]
fn run_identity_and_queue_name() {
    let id = new_run_id();
    assert_eq!((id >> 76) & 0xf, 7);
    assert_eq!((id >> 62) & 0x3, 2);
    let later = new_run_id();
    assert!(id < later);
    assert_eq!(
        queue_name(0x0193a1a2b1b27c1c91d2d3d4d5d6d7d8),
        "topk_eval_0193a1a2-b1b2-7c1c-91d2-d3d4d5d6d7d8"
    );
    assert_eq!(queue_name(0), "topk_eval_00000000-0000-0000-0000-000000000000");
}

#[test]
fn decimal_digits() {
    assert_eq!(decimal_string(0), "0");
    assert_eq!(decimal_string(7), "7");
    assert_eq!(decimal_string(10), "10");
    assert_eq!(decimal_string(1234567890), "1234567890");
}

fn fail_text(action: PollAction) -> String {
    match action {
        PollAction::Fail(e) => evaluation_text(e),
        other => panic!("unexpected {other:?}"),
    }
}

#[test]
fn polling_decisions() {
    assert_eq!(POLL_TIMEOUT_MILLIS, 3_600_000);
    assert_eq!(POLL_INTERVAL_MILLIS, 500);
    assert!(matches!(poll_step(PollEvent::Round { elapsed_millis: 0 }), PollAction::QueryState));
    assert!(matches!(
        poll_step(PollEvent::Round { elapsed_millis: 3_600_000 }),
        PollAction::QueryState
    ));
    assert_eq!(
        fail_text(poll_step(PollEvent::Round { elapsed_millis: 3_600_001 })),
        "Top-k evaluation timed out"
    );
    assert!(matches!(
        poll_step(PollEvent::State(Some("completed".to_string()))),
        PollAction::QueryPayload
    ));
    assert!(matches!(
        poll_step(PollEvent::State(Some("failed".to_string()))),
        PollAction::QueryFailure
    ));
    assert!(matches!(
        poll_step(PollEvent::State(Some("running".to_string()))),
        PollAction::Sleep(500)
    ));
    assert!(matches!(poll_step(PollEvent::State(None)), PollAction::Sleep(500)));
    assert_eq!(
        fail_text(poll_step(PollEvent::StateQueryFailed("boom".to_string()))),
        "Failed to query task state: boom"
    );
    assert_eq!(
        fail_text(poll_step(PollEvent::FailureText(Some("oops".to_string())))),
        "Top-k task failed: oops"
    );
    assert_eq!(
        fail_text(poll_step(PollEvent::FailureText(None))),
        "Top-k task failed: Unknown error"
    );
    match poll_step(PollEvent::Payload(Some("{}".to_string()))) {
        PollAction::Decode(p) => assert_eq!(p, "{}"),
        other => panic!("unexpected {other:?}"),
    }
    assert_eq!(fail_text(poll_step(PollEvent::Payload(None))), "No task output found");
    assert_eq!(
        fail_text(poll_step(PollEvent::PayloadQueryFailed("x".to_string()))),
        "Failed to query task result: x"
    );
    assert_eq!(
        fail_text(poll_step(PollEvent::DecodeFailed("y".to_string()))),
        "Failed to deserialize output: y"
    );
}

#[test]
fn polling_queries() {
    assert_eq!(state_query("q"), "SELECT state FROM durable.t_q WHERE task_id = $1");
    assert_eq!(failure_query("q"), "SELECT failed_error FROM durable.t_q WHERE task_id = $1");
    assert_eq!(
        payload_query("q"),
        "SELECT completed_payload FROM durable.t_q WHERE task_id = $1"
    );
}

#[test]
fn plain_evaluation_lookup_and_response() {
    let client = EmbeddedClient::new(state(true));
    let mut p = RunEvaluationParams {
        evaluation_name: "test_evaluation".to_string(),
        dataset_name: Some("test_dataset".to_string()),
        datapoint_ids: None,
        variant_name: "variant_a".to_string(),
        concurrency: 5,
        inference_cache: CacheEnabledMode::On,
        max_datapoints: Some(10),
        precision_targets: vec![("judge".to_string(), 0.1f32.to_bits())],
    };
    assert_eq!(client.begin_evaluation(&p).unwrap().evaluators.len(), 2);
    p.evaluation_name = "other".to_string();
    let err = client.begin_evaluation(&p).err().unwrap();
    assert_eq!(evaluation_text(err), "Evaluation 'other' not found in config");

    let updates = vec![
        EvaluationUpdate::RunInfo,
        EvaluationUpdate::Success,
        EvaluationUpdate::Error,
        EvaluationUpdate::Success,
        EvaluationUpdate::Success,
    ];
    assert_eq!(tally(&updates), (3, 1));
    assert_eq!(tally(&vec![]), (0, 0));
    let stats = EvaluatorStatsResponse { mean: 0.5f32.to_bits(), stderr: 0.1f32.to_bits(), count: 3 };
    let response =
        EmbeddedClient::finish_evaluation(9, 4, &updates, vec![("judge".to_string(), stats)]);
    assert_eq!(response.evaluation_run_id, 9);
    assert_eq!(response.num_datapoints, 4);
    assert_eq!(response.num_successes, 3);
    assert_eq!(response.num_errors, 1);
    assert_eq!(response.stats, vec![("judge".to_string(), stats)]);
}
