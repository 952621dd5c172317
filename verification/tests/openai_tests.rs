use inference_server::http_client::default_headers;
use inference_server::json::{Json, Number};
use inference_server::models::Message;
use inference_server::number::Float32;
use inference_server::providers::openai::{
    build_request_body, completions_path, envelope_failure, extract_model_from_error,
    filter_chat_models, interpret_response, list_models, models_path, parse_response_body,
};
use inference_server::providers::{InferenceRequest, ProviderError};

fn parse_json(text: &str) -> Result<Json, String> {
    match inference_server::http_client::json_of_body(text) {
        Ok(json) => Ok(json),
        Err(inference_server::providers::ProviderError::InvalidResponse(m)) => Err(m),
        Err(other) => panic!("{other:?}"),
    }
}

fn f(value: f32) -> Float32 {
    Float32::from_bits(value.to_bits())
}

fn single(body: &Json, key: &str) -> f64 {
    match body.get(key) {
        Some(Json::Number(Number::Single(v))) => f32::from_bits(v.to_bits()) as f64,
        other => panic!("{key}: {other:?}"),
    }
}

#[test]
fn test_build_request_body() {
    let request = InferenceRequest {
        messages: vec![Message::new("user", "Hello")],
        model: "gpt-3.5-turbo".to_string(),
        max_tokens: Some(100),
        temperature: Some(f(0.7)),
        top_p: Some(f(0.9)),
        frequency_penalty: Some(f(0.5)),
        presence_penalty: None,
        stop_sequences: Some(vec!["STOP".to_string()]),
        seed: Some(42),
        stream: None,
        n: None,
        logprobs: None,
        top_logprobs: None,
        user: None,
        response_format: None,
        logit_bias: None,
    };

    let body = build_request_body(request, false);

    assert!(matches!(body.get("model"), Some(Json::String(m)) if m == "gpt-3.5-turbo"));
    assert!(matches!(body.get("max_tokens"), Some(Json::Number(Number::PosInt(100)))));
    assert!((single(&body, "temperature") - 0.7).abs() < 0.001);
    assert!((single(&body, "top_p") - 0.9).abs() < 0.001);
    assert!((single(&body, "frequency_penalty") - 0.5).abs() < 0.001);
    match body.get("stop") {
        Some(Json::Array(items)) => {
            assert_eq!(items.len(), 1);
            assert!(matches!(&items[0], Json::String(s) if s == "STOP"));
        }
        other => panic!("{other:?}"),
    }
    assert!(matches!(body.get("seed"), Some(Json::Number(Number::PosInt(42)))));
    assert!(matches!(body.get("n"), Some(Json::Number(Number::PosInt(1)))));
    assert!(matches!(body.get("stream"), Some(Json::Bool(false))));
    assert!(body.get("presence_penalty").is_none());
}

#[test]
fn test_parse_error_response() {
    let error_response = parse_json(
        r#"{
            "error": {
                "message": "You exceeded your current quota",
                "type": "insufficient_quota",
                "code": "insufficient_quota"
            }
        }"#,
    )
    .unwrap();

    let result = parse_response_body(&error_response);

    assert!(result.is_err());
    match result.unwrap_err() {
        ProviderError::RequestFailed { status, message } => {
            assert_eq!(status, 429);
            assert!(message.contains("quota"));
        }
        _ => panic!("Expected RequestFailed error"),
    }
}

#[test]
fn a_body_without_sampling_parameters() {
    let request = InferenceRequest {
        messages: vec![Message::new("user", "Hello")],
        model: "gpt-4".to_string(),
        max_tokens: None,
        temperature: None,
        top_p: None,
        frequency_penalty: None,
        presence_penalty: None,
        stop_sequences: None,
        seed: None,
        stream: Some(false),
        n: Some(5),
        logprobs: Some(true),
        top_logprobs: Some(2),
        user: Some("u".to_string()),
        response_format: None,
        logit_bias: None,
    };
    let body = build_request_body(request, true);
    match &body {
        Json::Object(ms) => assert_eq!(ms.len(), 4),
        other => panic!("{other:?}"),
    }
    assert!(matches!(body.get("n"), Some(Json::Number(Number::PosInt(1)))));
    assert!(matches!(body.get("stream"), Some(Json::Bool(true))));
    assert!(body.get("max_tokens").is_none());
    assert!(body.get("temperature").is_none());
    assert!(body.get("user").is_none());
}

fn envelope(text: &str) -> ProviderError {
    envelope_failure(&parse_json(text).unwrap())
}

#[test]
fn error_envelopes_by_their_type() {
    match envelope(r#"{"message":"slow down","type":"rate_limit_exceeded"}"#) {
        ProviderError::RequestFailed { status, message } => {
            assert_eq!(status, 429);
            assert_eq!(message, "OpenAI API error: slow down");
        }
        other => panic!("{other:?}"),
    }
    match envelope(r#"{"message":"The model gpt-9 does not exist","type":"model_not_found"}"#) {
        ProviderError::ModelNotAvailable { requested, available } => {
            assert_eq!(requested, "gpt-9");
            assert!(available.is_empty());
        }
        other => panic!("{other:?}"),
    }
    for kind in ["invalid_api_key", "invalid_organization"] {
        match envelope(&format!("{{\"message\":\"bad\",\"type\":\"{kind}\"}}")) {
            ProviderError::Configuration(m) => assert_eq!(m, "Authentication error: bad"),
            other => panic!("{other:?}"),
        }
    }
    match envelope(r#"{"message":"boom","type":"server_error","code":"E42"}"#) {
        ProviderError::RequestFailed { status, message } => {
            assert_eq!(status, 500);
            assert_eq!(message, "OpenAI API error (E42): boom");
        }
        other => panic!("{other:?}"),
    }
    match envelope(r#"{"message":"boom","type":"server_error","code":null}"#) {
        ProviderError::RequestFailed { status, message } => {
            assert_eq!(status, 500);
            assert_eq!(message, "OpenAI API error (server_error): boom");
        }
        other => panic!("{other:?}"),
    }
    match envelope("{}") {
        ProviderError::RequestFailed { status, message } => {
            assert_eq!(status, 500);
            assert_eq!(message, "OpenAI API error (unknown): Unknown error");
        }
        other => panic!("{other:?}"),
    }
    match envelope("\"just text\"") {
        ProviderError::RequestFailed { status, message } => {
            assert_eq!(status, 500);
            assert_eq!(message, "OpenAI API error (unknown): Unknown error");
        }
        other => panic!("{other:?}"),
    }
}

#[test]
fn the_model_that_a_message_speaks_of() {
    assert_eq!(extract_model_from_error("The model gpt-9 does not exist"), "gpt-9");
    assert_eq!(extract_model_from_error("no text-davinci-003 here, nor gpt-4"), "text-davinci-003");
    assert_eq!(extract_model_from_error("davinci"), "davinci");
    assert_eq!(extract_model_from_error("nothing to see"), "unknown");
    assert_eq!(extract_model_from_error(""), "unknown");
    assert_eq!(extract_model_from_error("`gpt-4` is quoted"), "unknown");
}

#[test]
fn reading_a_response_of_the_api() {
    let ok = parse_json(
        r#"{"id":"chatcmpl-1","object":"chat.completion","created":1,"model":"gpt-4o-2024",
            "choices":[{"index":0,"message":{"role":"assistant","content":"hi"},"finish_reason":"stop"}],
            "usage":{"prompt_tokens":1,"completion_tokens":2,"total_tokens":3},
            "system_fingerprint":"fp_1"}"#,
    )
    .unwrap();
    let neutral = parse_response_body(&ok).unwrap();
    assert_eq!(neutral.text, "hi");
    assert_eq!(neutral.model_used, "gpt-4o-2024");
    assert_eq!(neutral.provider_request_id.as_deref(), Some("chatcmpl-1"));
    assert_eq!(neutral.system_fingerprint.as_deref(), Some("fp_1"));
    assert_eq!(neutral.total_tokens, Some(3));
    assert!(neutral.provider_data.is_none());
    assert!(neutral.latency_ms.is_none());

    match parse_response_body(&parse_json("{\"hello\": 1}").unwrap()) {
        Err(ProviderError::InvalidResponse(m)) => {
            assert_eq!(m, "Unexpected response format from OpenAI")
        }
        other => panic!("{other:?}"),
    }
    match parse_response_body(
        &parse_json(r#"{"id":"x","object":"o","created":1,"model":"m","choices":[]}"#).unwrap(),
    ) {
        Err(ProviderError::InvalidResponse(m)) => assert_eq!(m, "No choices in response"),
        other => panic!("{other:?}"),
    }
}

#[test]
fn the_latency_is_recorded() {
    let body = r#"{"id":"x","object":"o","created":1,"model":"m",
        "choices":[{"index":0,"message":{"role":"assistant","content":"hi"}}]}"#;
    let neutral = interpret_response(body, 123).unwrap();
    assert_eq!(neutral.latency_ms, Some(123));
    assert_eq!(neutral.text, "hi");
    match interpret_response("<html>", 5) {
        Err(ProviderError::InvalidResponse(m)) => assert!(m.starts_with("Invalid JSON response: ")),
        other => panic!("{other:?}"),
    }
    match interpret_response(r#"{"error":{"message":"quota","type":"insufficient_quota","code":"insufficient_quota"}}"#, 5) {
        Err(e) => {
            assert_eq!(e.status_code(), 429);
            let wire = e.to_openai_error();
            assert_eq!(wire.error_type, "rate_limit_error");
            assert!(wire.message.contains("quota"));
        }
        other => panic!("{other:?}"),
    }
}

#[test]
fn only_chat_models_are_listed() {
    let ids: Vec<String> = ["gpt-4", "whisper-1", "gpt-3.5-turbo", "text-davinci-003", "babbage-002", "my-turbo", ""]
        .iter()
        .map(|s| s.to_string())
        .collect();
    assert_eq!(
        filter_chat_models(ids),
        vec!["gpt-4", "gpt-3.5-turbo", "text-davinci-003", "my-turbo"]
    );
    assert_eq!(
        list_models(200, r#"{"data":[{"id":"dall-e-3"},{"id":"gpt-4"}]}"#).unwrap(),
        vec!["gpt-4"]
    );
    assert!(matches!(list_models(500, "{}"), Err(ProviderError::RequestFailed { status: 500, .. })));
    assert_eq!(completions_path(), "chat/completions");
    assert_eq!(models_path(), "models");
}

#[test]
fn the_headers_of_the_api() {
    let headers = default_headers("sk-1", None);
    assert_eq!(headers.len(), 2);
    assert_eq!((headers[0].name.as_str(), headers[0].value.as_str()), ("Authorization", "Bearer sk-1"));
    assert_eq!(
        (headers[1].name.as_str(), headers[1].value.as_str()),
        ("Content-Type", "application/json")
    );
    let headers = default_headers("sk-1", Some("org-9"));
    assert_eq!(headers.len(), 3);
    assert_eq!(
        (headers[1].name.as_str(), headers[1].value.as_str()),
        ("OpenAI-Organization", "org-9")
    );
    assert_eq!(headers[2].name, "Content-Type");
}

#[test]
fn upstream_rate_limit_translation() {
    let body = r#"{"error":{"message":"quota","type":"insufficient_quota","code":"insufficient_quota"}}"#;
    let failure = interpret_response(body, 1).unwrap_err();
    assert!(matches!(failure, ProviderError::RequestFailed { status: 429, .. }));
    assert_eq!(failure.status_code(), 429);
    let wire = failure.to_openai_error();
    assert_eq!(wire.error_type, "rate_limit_error");
    assert!(wire.message.contains("quota"));
    assert_eq!(wire.message, "OpenAI API error: quota");
}
