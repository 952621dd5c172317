use inference_server::config::{
    default_connect_timeout_secs, default_host, default_keep_alive_secs, default_log_directory,
    default_log_file_max_files, default_log_file_max_size_mb, default_log_file_prefix,
    default_log_format, default_log_level, default_log_output, default_max_idle_connections,
    default_max_retries, default_model, default_port, default_retry_backoff_ms,
    default_rotation_policy, default_timeout_secs, HttpConfigSchema, InferenceConfig,
    InferenceProvider, LogFormat, LogOutput, RotationPolicy,
};
use inference_server::error::ApiError;
use inference_server::handlers::{
    health_of_status, health_response, mock_completion, models_response, plan_completion, root,
    HttpConfigInfo,
};
use inference_server::json::{Json, Member};
use inference_server::lm_client_studio::{check_status, extract_response, request_body, LMStudioError};
use inference_server::models::{
    Choice, CompletionRequest, Message, ResponseMode, StringOrArray, Usage,
};
use inference_server::number::Float32;
use inference_server::providers::mock::load_fixture;
use inference_server::providers::{
    fresh_completion_id, normalize_stop_sequences, select_adapter, standard_completion_response,
    validate_extensions_default, InferenceResponse, ProviderError, ProviderKind,
};
use inference_server::validations::ValidationError;

fn parse_json(text: &str) -> Result<Json, String> {
    match inference_server::http_client::json_of_body(text) {
        Ok(json) => Ok(json),
        Err(inference_server::providers::ProviderError::InvalidResponse(m)) => Err(m),
        Err(other) => panic!("{other:?}"),
    }
}

fn user(text: &str) -> CompletionRequest {
    CompletionRequest { messages: vec![Message::new("user", text)], ..Default::default() }
}

fn members(text: &str) -> Vec<Member> {
    match parse_json(text).unwrap() {
        Json::Object(ms) => ms,
        other => panic!("{other:?}"),
    }
}

#[test]
fn test_error_handling() {
    let error = LMStudioError::RequestFailed("Connection refused".to_string());
    assert_eq!(error.status_code(), axum::http::StatusCode::BAD_GATEWAY.as_u16());

    let error = LMStudioError::InvalidResponse("Bad JSON".to_string());
    assert_eq!(error.status_code(), axum::http::StatusCode::INTERNAL_SERVER_ERROR.as_u16());
}

#[test]
fn stop_sequences_become_a_list() {
    assert_eq!(normalize_stop_sequences(&None), None);
    assert_eq!(
        normalize_stop_sequences(&Some(StringOrArray::String("s".to_string()))),
        Some(vec!["s".to_string()])
    );
    let list = vec!["a".to_string(), "b".to_string()];
    assert_eq!(normalize_stop_sequences(&Some(StringOrArray::Array(list.clone()))), Some(list));
    assert_eq!(normalize_stop_sequences(&Some(StringOrArray::Array(vec![]))), Some(vec![]));
}

fn neutral(data: Option<Vec<Member>>) -> InferenceResponse {
    InferenceResponse {
        text: "t".to_string(),
        model_used: "m".to_string(),
        finish_reason: None,
        total_tokens: None,
        prompt_tokens: None,
        completion_tokens: None,
        latency_ms: None,
        provider_request_id: None,
        system_fingerprint: None,
        tool_calls: None,
        logprobs: None,
        provider_data: data,
    }
}

#[test]
fn backend_data_goes_out_in_the_extended_mode_only() {
    let data = || Some(members(r#"{"k": 1}"#));
    for (mode, provider_data, emitted) in [
        (None, data(), false),
        (Some(ResponseMode::Standard), data(), false),
        (Some(ResponseMode::Extended), data(), true),
        (Some(ResponseMode::Extended), None, false),
        (Some(ResponseMode::Extended), Some(Vec::new()), false),
        (None, None, false),
    ] {
        let request = CompletionRequest { response_mode: mode, ..Default::default() };
        let wire = standard_completion_response(neutral(provider_data), &request, "p");
        assert_eq!(wire.provider_extensions.is_some(), emitted);
        if let Some(e) = wire.provider_extensions {
            assert_eq!(e.provider, "p");
            assert_eq!(e.data.len(), 1);
        }
    }
    assert_eq!(ResponseMode::default(), ResponseMode::Standard);
}

#[test]
fn a_response_without_an_id_gets_one() {
    let before = std::time::SystemTime::now()
        .duration_since(std::time::UNIX_EPOCH)
        .unwrap()
        .as_secs();
    let wire = standard_completion_response(neutral(None), &CompletionRequest::default(), "p");
    assert!(wire.id.starts_with("chatcmpl-"));
    assert_eq!(wire.id.len(), "chatcmpl-".len() + 36);
    assert_eq!(wire.object, "chat.completion");
    assert!(wire.created >= before && wire.created <= before + 5);
    assert_eq!(wire.choices.len(), 1);
    assert!(wire.usage.is_none());
    assert!(wire.choices[0].finish_reason.is_none());
    assert!(wire.choices[0].delta.is_none());
    assert_ne!(fresh_completion_id(), fresh_completion_id());
    assert_eq!(fresh_completion_id().len(), "chatcmpl-".len() + 36);

    let mut with_id = neutral(None);
    with_id.provider_request_id = Some("backend-7".to_string());
    with_id.completion_tokens = Some(4);
    let wire = standard_completion_response(with_id, &CompletionRequest::default(), "p");
    assert_eq!(wire.id, "backend-7");
    assert_eq!(
        wire.usage,
        Some(Usage { prompt_tokens: None, completion_tokens: Some(4), total_tokens: None })
    );
}

#[test]
fn bad_temperature() {
    let request = CompletionRequest {
        temperature: Some(Float32::from_bits(3.0f32.to_bits())),
        ..user("x")
    };
    let error = plan_completion(&request, "d", None, ProviderKind::Mock).unwrap_err();
    assert_eq!(error.status_code(), 400);
    let shown = match &error {
        ApiError::Validation(e) => {
            f32::from_bits(e.offending_number().unwrap().to_bits()).to_string()
        }
        other => panic!("{other:?}"),
    };
    let body = error.to_response(&shown).error;
    assert_eq!(body.error_type, "invalid_request_error");
    assert_eq!(body.param.as_deref(), Some("temperature"));
    assert!(body.message.contains('3'));
    assert_eq!(body.message, "Temperature must be between 0.0 and 2.0, got 3");
}

#[test]
fn allow_list_rejection() {
    let allowed = vec!["mock-a".to_string(), "mock-b".to_string()];
    let request = CompletionRequest { model: Some("mock-c".to_string()), ..user("x") };
    let error = plan_completion(&request, "mock-a", Some(&allowed), ProviderKind::Mock).unwrap_err();
    assert_eq!(error.status_code(), 400);
    let body = error.to_response("").error;
    assert_eq!(body.code.as_deref(), Some("model_not_found"));
    assert_eq!(body.param.as_deref(), Some("model"));
    assert_eq!(body.error_type, "invalid_request_error");

    let request = CompletionRequest { model: Some("mock-b".to_string()), ..user("x") };
    let plan = plan_completion(&request, "mock-a", Some(&allowed), ProviderKind::Mock).unwrap();
    assert_eq!(plan.model, "mock-b");
    assert!(!plan.stream);
}

#[test]
fn the_default_model_is_held_against_the_allow_list_too() {
    let allowed = vec!["a".to_string()];
    let plan = plan_completion(&user("x"), "a", Some(&allowed), ProviderKind::LMStudio).unwrap();
    assert_eq!(plan.model, "a");
    let error = plan_completion(&user("x"), "d", Some(&allowed), ProviderKind::LMStudio).unwrap_err();
    match error {
        ApiError::Validation(ValidationError::ModelNotInAllowedList { model, allowed: list }) => {
            assert_eq!(model, "d");
            assert_eq!(list, allowed);
        }
        other => panic!("{other:?}"),
    }
    let plan = plan_completion(&user("x"), "d", None, ProviderKind::LMStudio).unwrap();
    assert_eq!(plan.model, "d");
}

#[test]
fn the_steps_of_the_pipeline_in_their_order() {
    let allowed = vec!["a".to_string()];
    let request = CompletionRequest {
        messages: vec![],
        model: Some("zzz".to_string()),
        extensions: Some(members(r#"{"bogus": 1}"#)),
        ..Default::default()
    };
    assert!(matches!(
        plan_completion(&request, "a", Some(&allowed), ProviderKind::OpenAI),
        Err(ApiError::Validation(ValidationError::EmptyMessages))
    ));
    let request = CompletionRequest { messages: vec![Message::new("user", "x")], ..request };
    assert!(matches!(
        plan_completion(&request, "a", Some(&allowed), ProviderKind::OpenAI),
        Err(ApiError::Validation(ValidationError::ModelNotInAllowedList { .. }))
    ));
    let request = CompletionRequest { model: Some("a".to_string()), ..request };
    match plan_completion(&request, "a", Some(&allowed), ProviderKind::OpenAI) {
        Err(ApiError::Provider(ProviderError::InvalidExtension { param, reason })) => {
            assert_eq!(param, "bogus");
            assert_eq!(reason, "Provider 'openai' does not support any extensions");
        }
        other => panic!("{other:?}"),
    }
    match plan_completion(&request, "a", Some(&allowed), ProviderKind::LMStudio) {
        Err(ApiError::Provider(ProviderError::InvalidExtension { param, reason })) => {
            assert_eq!(param, "bogus");
            assert!(reason.starts_with("unknown parameter (supported: top_k, "));
        }
        other => panic!("{other:?}"),
    }
    let request = CompletionRequest {
        extensions: Some(members(r#"{"top_k": 40}"#)),
        stream: Some(true),
        ..request
    };
    let plan = plan_completion(&request, "a", Some(&allowed), ProviderKind::LMStudio).unwrap();
    assert!(plan.stream);
    assert_eq!(plan.model, "a");
    let request = CompletionRequest { extensions: Some(Vec::new()), stream: Some(false), ..request };
    let plan = plan_completion(&request, "a", Some(&allowed), ProviderKind::Mock).unwrap();
    assert!(!plan.stream);
}

#[test]
fn the_default_policy_for_extensions() {
    let none: Vec<String> = Vec::new();
    assert!(validate_extensions_default(&Vec::new(), &none, "p").is_ok());
    match validate_extensions_default(&members(r#"{"a": 1, "b": 2}"#), &none, "p") {
        Err(ProviderError::InvalidExtension { param, reason }) => {
            assert_eq!(param, "a, b");
            assert_eq!(reason, "Provider 'p' does not support any extensions");
        }
        other => panic!("{other:?}"),
    }
    let some = vec!["a".to_string(), "c".to_string()];
    assert!(validate_extensions_default(&members(r#"{"a": 1, "c": null}"#), &some, "p").is_ok());
    match validate_extensions_default(&members(r#"{"a": 1, "b": 2, "d": 3}"#), &some, "p") {
        Err(ProviderError::InvalidExtension { param, reason }) => {
            assert_eq!(param, "b");
            assert_eq!(reason, "Not supported by provider 'p'. Supported extensions: a, c");
        }
        other => panic!("{other:?}"),
    }
}

#[test]
fn the_adapters() {
    assert_eq!(ProviderKind::LMStudio.name(), "lmstudio");
    assert_eq!(ProviderKind::OpenAI.name(), "openai");
    assert_eq!(ProviderKind::Mock.name(), "mock");
    for kind in [ProviderKind::LMStudio, ProviderKind::OpenAI, ProviderKind::Mock] {
        assert!(kind.supports_streaming());
        assert!(kind.validate_extensions(&Vec::new()).is_ok());
    }
    assert_eq!(ProviderKind::LMStudio.supported_extensions().len(), 12);
    assert!(ProviderKind::OpenAI.supported_extensions().is_empty());
    assert!(ProviderKind::Mock.supported_extensions().is_empty());
    assert!(ProviderKind::Mock.validate_extensions(&members(r#"{"top_k": 1}"#)).is_err());
    assert!(ProviderKind::LMStudio.validate_extensions(&members(r#"{"top_k": 1}"#)).is_ok());
    let http = HttpConfigSchema::default();
    assert_eq!(ProviderKind::Mock.http_config(Some(http)), None);
    assert_eq!(ProviderKind::OpenAI.http_config(Some(http)), Some(http));
    assert_eq!(ProviderKind::LMStudio.http_config(None), None);

    assert_eq!(select_adapter(&InferenceProvider::LMStudio).unwrap(), ProviderKind::LMStudio);
    assert_eq!(
        select_adapter(&InferenceProvider::OpenAI { api_key: "k".to_string(), organization_id: None })
            .unwrap(),
        ProviderKind::OpenAI
    );
    assert_eq!(
        select_adapter(&InferenceProvider::Mock { responses_dir: "d".to_string() }).unwrap(),
        ProviderKind::Mock
    );
    match select_adapter(&InferenceProvider::Triton { model_version: "1".to_string() }) {
        Err(ProviderError::Configuration(m)) => assert_eq!(m, "Triton provider not yet implemented"),
        other => panic!("{other:?}"),
    }
    match select_adapter(&InferenceProvider::Triton { model_version: "1".to_string() }) {
        Err(e) => assert_eq!(e.status_code(), 500),
        other => panic!("{other:?}"),
    }
}

#[test]
fn the_other_endpoints() {
    let listing = models_response(vec!["b".to_string(), "a".to_string()]);
    assert_eq!(listing.object, "list");
    assert_eq!(listing.data.len(), 2);
    assert_eq!(listing.data[0].id, "b");
    assert_eq!(listing.data[1].id, "a");
    for model in &listing.data {
        assert_eq!(model.object, "model");
        assert_eq!(model.owned_by, "local");
    }
    assert_eq!(root().message, "Ok");
    let http = HttpConfigSchema::default();
    let health = health_response(ProviderKind::LMStudio, Some(http));
    assert_eq!(health.status, "healthy");
    assert_eq!(health.provider, "lmstudio");
    assert_eq!(
        health.http_config,
        Some(HttpConfigInfo { timeout_secs: 60, connect_timeout_secs: 30, max_retries: 3 })
    );
    assert_eq!(health_response(ProviderKind::Mock, Some(http)).http_config, None);
    assert_eq!(health_response(ProviderKind::Mock, Some(http)).provider, "mock");
    assert_eq!(health_response(ProviderKind::OpenAI, None).http_config, None);

    assert!(health_of_status(ProviderKind::LMStudio, 200).is_ok());
    assert!(health_of_status(ProviderKind::OpenAI, 299).is_ok());
    assert!(matches!(
        health_of_status(ProviderKind::OpenAI, 401),
        Err(ProviderError::Configuration(m)) if m == "Invalid API key"
    ));
    assert!(matches!(
        health_of_status(ProviderKind::LMStudio, 401),
        Err(ProviderError::RequestFailed { status: 401, message }) if message == "Health check failed"
    ));
    assert!(matches!(
        health_of_status(ProviderKind::OpenAI, 500),
        Err(ProviderError::RequestFailed { status: 500, .. })
    ));
}

#[test]
fn the_mock_answers_a_unary_request() {
    let fixture = load_fixture("responses: [{text: hello}]", "p").unwrap();
    let wire = mock_completion("demo", fixture, &user("hi"));
    assert!(wire.id.starts_with("mock-demo-"));
    assert_eq!(wire.object, "chat.completion");
    assert_eq!(wire.choices.len(), 1);
    assert_eq!(wire.model, "mock-model");
}

#[test]
fn the_settings_have_their_defaults() {
    assert_eq!(default_connect_timeout_secs(), 30);
    assert_eq!(default_max_retries(), 3);
    assert_eq!(default_retry_backoff_ms(), 250);
    assert_eq!(default_keep_alive_secs(), Some(60));
    assert_eq!(default_max_idle_connections(), Some(10));
    assert_eq!(default_model(), "gpt-oss-20b");
    assert_eq!(default_host(), "127.0.0.1");
    assert_eq!(default_port(), 3000);
    assert_eq!(default_timeout_secs(), 60);
    assert_eq!(default_log_output(), LogOutput::Stdout);
    assert_eq!(default_log_level(), "info");
    assert_eq!(default_log_format(), LogFormat::Pretty);
    assert_eq!(default_log_directory(), "./logs");
    assert_eq!(default_log_file_prefix(), "app");
    assert_eq!(default_log_file_max_size_mb(), 10);
    assert_eq!(default_log_file_max_files(), 10);
    assert_eq!(default_rotation_policy(), RotationPolicy::Daily);
    let http = HttpConfigSchema::default();
    assert_eq!(
        http,
        HttpConfigSchema {
            timeout_secs: 60,
            connect_timeout_secs: 30,
            max_retries: 3,
            retry_backoff_ms: 250,
            keep_alive_secs: Some(60),
            max_idle_connections: Some(10),
        }
    );
    assert_eq!(http.timeout(), 60);
    assert_eq!(http.connect_timeout(), 30);
    assert_eq!(http.keep_alive(), Some(60));
    assert_eq!(HttpConfigSchema::for_adapter(Some(http)), http);
    assert_eq!(
        HttpConfigSchema::for_adapter(None),
        HttpConfigSchema {
            timeout_secs: 30,
            connect_timeout_secs: 10,
            max_retries: 3,
            retry_backoff_ms: 100,
            keep_alive_secs: Some(30),
            max_idle_connections: Some(10),
        }
    );
    let config = |provider| InferenceConfig {
        base_url: "http://h".to_string(),
        default_model: "m".to_string(),
        allowed_models: None,
        timeout_secs: 1,
        http: None,
        provider,
    };
    assert_eq!(config(InferenceProvider::LMStudio).provider_name(), "lmstudio");
    assert!(!config(InferenceProvider::LMStudio).requires_auth());
    let openai = config(InferenceProvider::OpenAI { api_key: "k".to_string(), organization_id: None });
    assert_eq!(openai.provider_name(), "openai");
    assert!(openai.requires_auth());
    assert_eq!(
        config(InferenceProvider::Triton { model_version: "1".to_string() }).provider_name(),
        "triton"
    );
    assert_eq!(
        config(InferenceProvider::Mock { responses_dir: "d".to_string() }).provider_name(),
        "mock"
    );
}

#[test]
fn a_simple_choice() {
    let choice = Choice::simple("text", "stop");
    assert_eq!(choice.index, 0);
    assert_eq!(choice.finish_reason.as_deref(), Some("stop"));
    assert!(choice.delta.is_none() && choice.logprobs.is_none());
    let message = choice.message.unwrap();
    assert_eq!(message.role, "assistant");
    assert_eq!(message.content.as_deref(), Some("text"));
    let usage = Usage::new(10, 5);
    assert_eq!(
        (usage.prompt_tokens, usage.completion_tokens, usage.total_tokens),
        (Some(10), Some(5), Some(15))
    );
    let message = Message::default();
    assert_eq!(message.role, "assistant");
    assert_eq!(message.content.as_deref(), Some(""));
}

#[test]
fn the_plain_client() {
    let answer = parse_json(
        r#"{"choices":[{"message":{"content":"hi"}}],
            "usage":{"total_tokens":3,"prompt_tokens":4294967297,"completion_tokens":"x"}}"#,
    )
    .unwrap();
    let r = extract_response(&answer).unwrap();
    assert_eq!(r.text, "hi");
    assert_eq!(r.total_tokens, Some(3));
    assert_eq!(r.prompt_tokens, Some(1));
    assert_eq!(r.prompt_tokens, Some(4294967297u64 as u32));
    assert_eq!(r.completion_tokens, None);
    for text in ["{}", r#"{"choices":[]}"#, r#"{"choices":[{"message":{"content":null}}]}"#, r#"{"choices":{"0":1}}"#] {
        match extract_response(&parse_json(text).unwrap()) {
            Err(LMStudioError::InvalidResponse(m)) => assert_eq!(m, "Missing content field"),
            other => panic!("{text}: {other:?}"),
        }
    }
    assert!(check_status(200).is_ok());
    assert!(matches!(check_status(404), Err(LMStudioError::ServerError(404))));
    assert!(matches!(check_status(99), Err(LMStudioError::ServerError(500))));
    let e = LMStudioError::ServerError(503);
    assert_eq!(e.status_code(), 503);
    let body = e.to_error_response();
    assert_eq!(body.error, "LM Studio returned error status: 503");
    assert_eq!(body.code, "LM_STUDIO_SERVER_ERROR");
    let body = LMStudioError::RequestFailed("x".to_string()).to_error_response();
    assert_eq!(body.error, "Failed to connect to LM Studio: x");
    assert_eq!(body.code, "LM_STUDIO_REQUEST_FAILED");
    let body = LMStudioError::InvalidResponse("x".to_string()).to_error_response();
    assert_eq!(body.error, "Invalid response from LM Studio: x");
    assert_eq!(body.code, "LM_STUDIO_INVALID_RESPONSE");

    let body = request_body("say hi", None, None, "m");
    assert!(matches!(body.get("model"), Some(Json::String(m)) if m == "m"));
    assert!(matches!(
        body.get("max_tokens"),
        Some(Json::Number(inference_server::json::Number::PosInt(100)))
    ));
    match body.get("messages") {
        Some(Json::Array(items)) => {
            assert_eq!(items.len(), 1);
            assert!(matches!(items[0].get("role"), Some(Json::String(r)) if r == "user"));
            assert!(matches!(items[0].get("content"), Some(Json::String(r)) if r == "say hi"));
        }
        other => panic!("{other:?}"),
    }
}
