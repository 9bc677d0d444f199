use topk_evaluation::kie::{
    apply_inference_params, chat_completions_url, extract_content_blocks_from_kie_response,
    is_stream_end, kie_to_tensorzero_chunk, provider_response, url_outcome, ApiKey,
    ChatCompletionInferenceParamsV2, ContentBlockChunk, ContentBlockOutput, Credential,
    FinishReason, InferenceCredentials, KIEChatChunk, KIEChatChunkChoice, KIECredentials,
    KIEProvider, KIERequest, KIEResponse, KIEResponseChoice, KIEResponseFormat,
    KIEResponseMessage, KIEStreamDelta, ModelInferenceRequest, ModelInferenceRequestJsonMode,
    ProviderError, StreamOptions, ToolCall, Usage, KIE_API_BASE, PROVIDER_NAME, PROVIDER_TYPE,
};

fn no_params() -> ChatCompletionInferenceParamsV2 {
    ChatCompletionInferenceParamsV2 {
        reasoning_effort: None,
        service_tier: None,
        thinking_budget_tokens: None,
        verbosity: None,
    }
}

fn base_request() -> ModelInferenceRequest {
    ModelInferenceRequest {
        temperature: None,
        max_tokens: Some(100),
        seed: None,
        top_p: None,
        presence_penalty: None,
        frequency_penalty: None,
        stream: false,
        json_mode: ModelInferenceRequestJsonMode::Off,
        stop_sequences: None,
        inference_params_v2: no_params(),
    }
}

fn high_request() -> KIERequest {
    KIERequest {
        model: "kie-chat".to_string(),
        temperature: None,
        max_tokens: Some(100),
        seed: None,
        top_p: None,
        stop: None,
        presence_penalty: None,
        frequency_penalty: None,
        stream: false,
        stream_options: None,
        response_format: None,
        include_thoughts: Some(true),
        reasoning_effort: Some("high".to_string()),
    }
}

#[test]
fn test_kie_url_construction() {
    let model_name = "gemini-3-pro";
    let expected_url = chat_completions_url(model_name);
    assert_eq!(
        expected_url,
        "https://api.kie.ai/gemini-3-pro/v1/chat/completions"
    );
    assert_eq!(
        expected_url,
        format!("{}/{}/v1/chat/completions", KIE_API_BASE, model_name)
    );
}

#[test]
fn test_reasoning_effort_mapping() {
    let mut request = base_request();

    request.inference_params_v2.reasoning_effort = Some("medium".to_string());
    let mut kie_request = high_request();
    apply_inference_params(&mut kie_request, &request.inference_params_v2);
    assert_eq!(kie_request.reasoning_effort, Some("high".to_string()));

    request.inference_params_v2.reasoning_effort = Some("low".to_string());
    let mut kie_request_low = high_request();
    apply_inference_params(&mut kie_request_low, &request.inference_params_v2);
    assert_eq!(kie_request_low.reasoning_effort, Some("low".to_string()));

    request.inference_params_v2.reasoning_effort = Some("high".to_string());
    let mut kie_request_high = high_request();
    apply_inference_params(&mut kie_request_high, &request.inference_params_v2);
    assert_eq!(kie_request_high.reasoning_effort, Some("high".to_string()));
}

#[test]
fn test_kie_request_new() {
    let mut request = base_request();
    request.temperature = Some(0.5f32.to_bits());
    request.seed = Some(69);
    let kie_request = KIERequest::new("gemini-3-pro", &request);
    assert_eq!(kie_request.temperature.map(f32::from_bits), Some(0.5));
    assert_eq!(kie_request.max_tokens, Some(100));
    assert!(!kie_request.stream);
    assert_eq!(kie_request.seed, Some(69));
}

#[test]
fn request_defaults_and_stream_options() {
    let mut request = base_request();
    request.stream = true;
    request.json_mode = ModelInferenceRequestJsonMode::Strict;
    request.stop_sequences = Some(vec!["END".to_string()]);
    let built = KIERequest::new("m", &request);
    assert_eq!(built.model, "m");
    assert_eq!(built.stream_options, Some(StreamOptions { include_usage: true }));
    assert_eq!(built.response_format, Some(KIEResponseFormat::JsonObject));
    assert_eq!(built.include_thoughts, Some(true));
    assert_eq!(built.reasoning_effort, Some("high".to_string()));
    assert_eq!(built.stop, Some(vec!["END".to_string()]));

    let plain = KIERequest::new("m", &base_request());
    assert_eq!(plain.stream_options, None);
    assert_eq!(plain.response_format, Some(KIEResponseFormat::Text));
}

#[test]
fn unknown_effort_becomes_high_and_absent_keeps() {
    let mut params = no_params();
    params.reasoning_effort = Some("extreme".to_string());
    let mut request = high_request();
    request.reasoning_effort = Some("low".to_string());
    apply_inference_params(&mut request, &params);
    assert_eq!(request.reasoning_effort, Some("high".to_string()));

    let mut kept = high_request();
    kept.reasoning_effort = Some("low".to_string());
    apply_inference_params(&mut kept, &no_params());
    assert_eq!(kept.reasoning_effort, Some("low".to_string()));
}

#[test]
fn response_format_of_json_mode() {
    assert_eq!(
        KIEResponseFormat::new(ModelInferenceRequestJsonMode::Off),
        KIEResponseFormat::Text
    );
    assert_eq!(
        KIEResponseFormat::new(ModelInferenceRequestJsonMode::On),
        KIEResponseFormat::JsonObject
    );
    assert_eq!(
        KIEResponseFormat::new(ModelInferenceRequestJsonMode::Strict),
        KIEResponseFormat::JsonObject
    );
    assert_eq!(KIEResponseFormat::default(), KIEResponseFormat::Text);
}

#[test]
fn provider_constants() {
    assert_eq!(PROVIDER_NAME, "KIE");
    assert_eq!(PROVIDER_TYPE, "kie");
    assert_eq!(KIE_API_BASE, "https://api.kie.ai");
}

#[test]
fn request_url_is_parsed_and_serialized() {
    let provider = KIEProvider::new("gemini-3-pro".to_string(), KIECredentials::Unset);
    assert_eq!(provider.model_name(), "gemini-3-pro");
    assert_eq!(
        provider.request_url().unwrap(),
        "https://api.kie.ai/gemini-3-pro/v1/chat/completions"
    );
    let spaced = KIEProvider::new("a b".to_string(), KIECredentials::Unset);
    assert_eq!(
        spaced.request_url().unwrap(),
        "https://api.kie.ai/a%20b/v1/chat/completions"
    );
}

#[test]
fn url_outcome_reports_the_parse_error() {
    match url_outcome(Err("empty host".to_string())) {
        Err(ProviderError::InvalidBaseUrl { message }) => {
            assert_eq!(message, "Failed to construct KIE chat URL: empty host")
        }
        other => panic!("unexpected {other:?}"),
    }
    assert_eq!(url_outcome(Ok("https://x/".to_string())).unwrap(), "https://x/");
}

#[test]
fn api_key_round_trip() {
    let key = ApiKey::new("sk-test".to_string());
    assert_eq!(key.expose(), "sk-test");
}

#[test]
fn credentials_from_configuration() {
    assert!(matches!(
        KIECredentials::try_from(Credential::Missing),
        Ok(KIECredentials::Unset)
    ));
    match KIECredentials::try_from(Credential::Dynamic("k".to_string())) {
        Ok(KIECredentials::Dynamic(name)) => assert_eq!(name, "k"),
        _ => panic!("expected a dynamic credential"),
    }
    match KIECredentials::try_from(Credential::Static(ApiKey::new("s".to_string()))) {
        Ok(KIECredentials::Static(key)) => assert_eq!(key.expose(), "s"),
        _ => panic!("expected a static credential"),
    }
    let nested = Credential::WithFallback {
        default: Box::new(Credential::Dynamic("k".to_string())),
        fallback: Box::new(Credential::Unsupported),
    };
    match KIECredentials::try_from(nested) {
        Err(ProviderError::Config { message }) => {
            assert_eq!(message, "Invalid api_key_location for KIE provider")
        }
        _ => panic!("expected a configuration error"),
    }
}

#[test]
fn api_key_lookup() {
    let keys = InferenceCredentials {
        entries: vec![
            ("a".to_string(), ApiKey::new("key-a".to_string())),
            ("b".to_string(), ApiKey::new("key-b".to_string())),
        ],
    };
    let fixed = KIECredentials::Static(ApiKey::new("fixed".to_string()));
    assert_eq!(fixed.get_api_key(&keys).unwrap().expose(), "fixed");

    let dynamic = KIECredentials::Dynamic("b".to_string());
    assert_eq!(dynamic.get_api_key(&keys).unwrap().expose(), "key-b");

    let missing = KIECredentials::Dynamic("c".to_string());
    match missing.get_api_key(&keys) {
        Err(ProviderError::ApiKeyMissing { provider_name, message }) => {
            assert_eq!(provider_name, "KIE");
            assert_eq!(message, "Dynamic api key `c` is missing");
        }
        _ => panic!("expected a missing key"),
    }
    match KIECredentials::Unset.get_api_key(&keys) {
        Err(ProviderError::ApiKeyMissing { message, .. }) => {
            assert_eq!(message, "No credentials are set")
        }
        _ => panic!("expected a missing key"),
    }
    let pair = KIECredentials::WithFallback {
        default: Box::new(KIECredentials::Dynamic("c".to_string())),
        fallback: Box::new(KIECredentials::Dynamic("a".to_string())),
    };
    assert_eq!(pair.get_api_key(&keys).unwrap().expose(), "key-a");
    let both_missing = KIECredentials::WithFallback {
        default: Box::new(KIECredentials::Dynamic("c".to_string())),
        fallback: Box::new(KIECredentials::Unset),
    };
    match both_missing.get_api_key(&keys) {
        Err(ProviderError::ApiKeyMissing { message, .. }) => {
            assert_eq!(message, "No credentials are set")
        }
        _ => panic!("expected a missing key"),
    }
    let provider = KIEProvider::new("m".to_string(), KIECredentials::Dynamic("a".to_string()));
    assert_eq!(provider.api_key(&keys).unwrap().expose(), "key-a");
}

fn message(content: Option<&str>, reasoning: Option<&str>, calls: usize) -> KIEResponseMessage {
    KIEResponseMessage {
        content: content.map(|s| s.to_string()),
        reasoning_content: reasoning.map(|s| s.to_string()),
        tool_calls: if calls == 0 {
            None
        } else {
            Some(
                (0..calls)
                    .map(|i| ToolCall {
                        id: format!("call-{i}"),
                        name: "tool".to_string(),
                        arguments: "{}".to_string(),
                    })
                    .collect(),
            )
        },
    }
}

#[test]
fn response_with_one_choice() {
    let response = KIEResponse {
        choices: vec![KIEResponseChoice {
            index: 0,
            message: message(Some("hello"), Some("thinking"), 2),
            finish_reason: Some(FinishReason::Stop),
        }],
        usage: Usage { input_tokens: Some(3), output_tokens: Some(5) },
    };
    let out = provider_response(&response, "req".to_string(), "resp".to_string()).unwrap();
    assert_eq!(out.output.len(), 4);
    match &out.output[0] {
        ContentBlockOutput::Thought(t) => {
            assert_eq!(t.text.as_deref(), Some("thinking"));
            assert_eq!(t.signature, None);
            assert_eq!(t.provider_type.as_deref(), Some("kie"));
        }
        _ => panic!("expected a thought"),
    }
    match &out.output[1] {
        ContentBlockOutput::Text(t) => assert_eq!(t, "hello"),
        _ => panic!("expected a text"),
    }
    match &out.output[3] {
        ContentBlockOutput::ToolCall(c) => assert_eq!(c.id, "call-1"),
        _ => panic!("expected a tool call"),
    }
    assert_eq!(out.finish_reason, Some(FinishReason::Stop));
    assert_eq!(out.usage, Usage { input_tokens: Some(3), output_tokens: Some(5) });
    assert_eq!(out.raw_request, "req");
    assert_eq!(out.raw_response, "resp");
}

#[test]
fn response_with_wrong_number_of_choices() {
    let empty = KIEResponse { choices: vec![], usage: Usage { input_tokens: None, output_tokens: None } };
    match provider_response(&empty, "req".to_string(), "resp".to_string()) {
        Err(ProviderError::InferenceServer { message, raw_request, raw_response, provider_type }) => {
            assert_eq!(message, "Response has invalid number of choices 0, Expected 1");
            assert_eq!(raw_request.as_deref(), Some("req"));
            assert_eq!(raw_response.as_deref(), Some("resp"));
            assert_eq!(provider_type, "kie");
        }
        _ => panic!("expected a server error"),
    }
    let many = KIEResponse {
        choices: (0..12)
            .map(|i| KIEResponseChoice { index: i, message: message(None, None, 0), finish_reason: None })
            .collect(),
        usage: Usage { input_tokens: None, output_tokens: None },
    };
    match provider_response(&many, String::new(), String::new()) {
        Err(ProviderError::InferenceServer { message, .. }) => {
            assert_eq!(message, "Response has invalid number of choices 12, Expected 1")
        }
        _ => panic!("expected a server error"),
    }
}

#[test]
fn content_blocks_of_all_choices() {
    let response = KIEResponse {
        choices: vec![
            KIEResponseChoice { index: 0, message: message(Some("a"), None, 0), finish_reason: None },
            KIEResponseChoice { index: 1, message: message(None, Some("r"), 1), finish_reason: None },
        ],
        usage: Usage { input_tokens: None, output_tokens: None },
    };
    let blocks = extract_content_blocks_from_kie_response(&response);
    assert_eq!(blocks.len(), 3);
    assert!(matches!(&blocks[0], ContentBlockOutput::Text(t) if t == "a"));
    assert!(matches!(&blocks[1], ContentBlockOutput::Thought(_)));
    assert!(matches!(&blocks[2], ContentBlockOutput::ToolCall(_)));
}

#[test]
fn chunk_with_one_choice() {
    let chunk = KIEChatChunk {
        choices: vec![KIEChatChunkChoice {
            delta: KIEStreamDelta {
                content: Some("hi".to_string()),
                reasoning_content: Some("why".to_string()),
                tool_calls: Some(vec![]),
            },
            finish_reason: Some(FinishReason::Length),
        }],
        usage: Some(Usage { input_tokens: Some(1), output_tokens: Some(2) }),
    };
    let out = kie_to_tensorzero_chunk("raw".to_string(), &chunk, "ser".to_string(), 17).unwrap();
    assert_eq!(out.content.len(), 2);
    match &out.content[0] {
        ContentBlockChunk::Text { text, id } => {
            assert_eq!(text, "hi");
            assert_eq!(id, "0");
        }
        _ => panic!("expected a text"),
    }
    match &out.content[1] {
        ContentBlockChunk::Thought { text, id, provider_type } => {
            assert_eq!(text.as_deref(), Some("why"));
            assert_eq!(id, "0");
            assert_eq!(provider_type.as_deref(), Some("kie"));
        }
        _ => panic!("expected a thought"),
    }
    assert_eq!(out.finish_reason, Some(FinishReason::Length));
    assert_eq!(out.raw_response, "raw");
    assert_eq!(out.latency_millis, 17);
    assert_eq!(out.usage, Some(Usage { input_tokens: Some(1), output_tokens: Some(2) }));
}

#[test]
fn chunk_without_or_with_too_many_choices() {
    let none = KIEChatChunk { choices: vec![], usage: None };
    let out = kie_to_tensorzero_chunk("raw".to_string(), &none, "ser".to_string(), 0).unwrap();
    assert!(out.content.is_empty());
    assert_eq!(out.finish_reason, None);

    let delta = || KIEStreamDelta { content: None, reasoning_content: None, tool_calls: None };
    let two = KIEChatChunk {
        choices: vec![
            KIEChatChunkChoice { delta: delta(), finish_reason: None },
            KIEChatChunkChoice { delta: delta(), finish_reason: None },
        ],
        usage: None,
    };
    match kie_to_tensorzero_chunk("raw".to_string(), &two, "ser".to_string(), 0) {
        Err(ProviderError::InferenceServer { message, raw_request, raw_response, provider_type }) => {
            assert_eq!(message, "Response has invalid number of choices. Expected 1.");
            assert_eq!(raw_request, None);
            assert_eq!(raw_response.as_deref(), Some("ser"));
            assert_eq!(provider_type, "kie");
        }
        _ => panic!("expected a server error"),
    }
}

#[test]
fn stream_end_and_batch() {
    assert!(is_stream_end("[DONE]"));
    assert!(!is_stream_end("[DONE] "));
    assert!(!is_stream_end("{}"));
    match KIEProvider::batch_unsupported() {
        ProviderError::UnsupportedModelProviderForBatchInference { provider_type } => {
            assert_eq!(provider_type, "kie")
        }
        _ => panic!("expected the batch error"),
    }
}
