use inference_server::json::{Json, Member, Number};
use inference_server::models::{CompletionRequest, Message};
use inference_server::number::{Float32, Float64};
use inference_server::validations::{
    determine_model, gate_capabilities, validate_completion_request, validate_model_allowed,
    validate_provider_capabilities, ValidationError,
};

fn parse_json(text: &str) -> Result<Json, String> {
    match inference_server::http_client::json_of_body(text) {
        Ok(json) => Ok(json),
        Err(inference_server::providers::ProviderError::InvalidResponse(m)) => Err(m),
        Err(other) => panic!("{other:?}"),
    }
}

fn f(value: f32) -> Float32 {
    Float32::from_bits(value.to_bits())
}

fn user(text: &str) -> CompletionRequest {
    CompletionRequest { messages: vec![Message::new("user", text)], ..Default::default() }
}

#[test]
fn test_validate_empty_messages() {
    let request = CompletionRequest {
        messages: vec![],
        max_tokens: Some(100),
        temperature: Some(f(0.7)),
        model: Some("gpt-oss-20b".to_string()),
        ..Default::default()
    };

    let result = validate_completion_request(&request);
    assert!(matches!(result, Err(ValidationError::EmptyMessages)));
}

#[test]
fn test_validate_null_content_allowed_with_tools() {
    let request = CompletionRequest {
        messages: vec![Message {
            role: "assistant".to_string(),
            content: None,
            tool_calls: Some(vec![]),
            ..Default::default()
        }],
        model: Some("gpt-4".to_string()),
        ..Default::default()
    };

    let result = validate_completion_request(&request);
    assert!(result.is_ok());
}

#[test]
fn test_validate_all_null_content_fails() {
    let request = CompletionRequest {
        messages: vec![Message {
            role: "user".to_string(),
            content: None,
            ..Default::default()
        }],
        model: Some("gpt-4".to_string()),
        ..Default::default()
    };

    let result = validate_completion_request(&request);
    assert!(matches!(result, Err(ValidationError::NoContent)));
}

#[test]
fn test_validate_frequency_penalty_bounds() {
    let request = CompletionRequest {
        messages: vec![Message::new("user", "test")],
        frequency_penalty: Some(f(2.1)),
        ..Default::default()
    };

    let result = validate_completion_request(&request);
    assert!(matches!(result, Err(ValidationError::InvalidFrequencyPenalty(_))));
}

#[test]
fn test_validate_provider_capabilities() {
    let request = CompletionRequest {
        messages: vec![Message::new("user", "test")],
        stream: Some(true),
        ..Default::default()
    };

    let result = validate_provider_capabilities(&request, false, false);
    assert!(matches!(result, Err(ValidationError::StreamingNotSupported)));
}

#[test]
fn tool_call_id_counts_as_content() {
    let request = CompletionRequest {
        messages: vec![Message {
            role: "tool".to_string(),
            content: None,
            tool_call_id: Some("call-1".to_string()),
            ..Default::default()
        }],
        ..Default::default()
    };
    assert!(validate_completion_request(&request).is_ok());
}

#[test]
fn max_tokens_range_has_both_ends() {
    for (value, ok) in [(0u32, false), (1, true), (128000, true), (128001, false), (u32::MAX, false)] {
        let request = CompletionRequest { max_tokens: Some(value), ..user("x") };
        match validate_completion_request(&request) {
            Ok(()) => assert!(ok, "{value} was let through"),
            Err(ValidationError::InvalidMaxTokens(v)) => {
                assert!(!ok);
                assert_eq!(v, value);
            }
            Err(other) => panic!("{other:?}"),
        }
    }
}

#[test]
fn top_logprobs_range_has_both_ends() {
    for (value, ok) in [(0u8, true), (20, true), (21, false), (255, false)] {
        let request = CompletionRequest { top_logprobs: Some(value), ..user("x") };
        match validate_completion_request(&request) {
            Ok(()) => assert!(ok),
            Err(ValidationError::InvalidTopLogprobs(v)) => {
                assert!(!ok);
                assert_eq!(v, value);
            }
            Err(other) => panic!("{other:?}"),
        }
    }
}

#[test]
fn n_range_has_both_ends() {
    for (value, ok) in [(0u32, false), (1, true), (10, true), (11, false)] {
        let request = CompletionRequest { n: Some(value), ..user("x") };
        match validate_completion_request(&request) {
            Ok(()) => assert!(ok),
            Err(ValidationError::InvalidN(v)) => {
                assert!(!ok);
                assert_eq!(v, value);
            }
            Err(other) => panic!("{other:?}"),
        }
    }
}

fn above(value: f32) -> f32 {
    f32::from_bits(value.to_bits() + 1)
}

#[test]
fn temperature_range_has_both_ends() {
    let cases = [
        (0.0f32, true),
        (-0.0, true),
        (2.0, true),
        (1.0, true),
        (above(2.0), false),
        (3.0, false),
        (-f32::MIN_POSITIVE, false),
        (-1.0, false),
        (f32::INFINITY, false),
        (f32::NEG_INFINITY, false),
    ];
    for (value, ok) in cases {
        let request = CompletionRequest { temperature: Some(f(value)), ..user("x") };
        match validate_completion_request(&request) {
            Ok(()) => assert!(ok, "{value} was let through"),
            Err(ValidationError::InvalidTemperature(v)) => {
                assert!(!ok, "{value} was refused");
                assert_eq!(v.to_bits(), value.to_bits());
            }
            Err(other) => panic!("{other:?}"),
        }
        assert_eq!(ok, !(value < 0.0 || value > 2.0));
    }
}

#[test]
fn top_p_range_has_both_ends() {
    for (value, ok) in [(0.0f32, true), (1.0, true), (above(1.0), false), (-0.5, false), (0.5, true)] {
        let request = CompletionRequest { top_p: Some(f(value)), ..user("x") };
        match validate_completion_request(&request) {
            Ok(()) => assert!(ok),
            Err(ValidationError::InvalidTopP(v)) => {
                assert!(!ok);
                assert_eq!(v.to_bits(), value.to_bits());
            }
            Err(other) => panic!("{other:?}"),
        }
    }
}

#[test]
fn penalty_ranges_have_both_ends() {
    let below = -above(2.0);
    for (value, ok) in [(-2.0f32, true), (2.0, true), (0.0, true), (above(2.0), false), (below, false)] {
        let request = CompletionRequest { frequency_penalty: Some(f(value)), ..user("x") };
        match validate_completion_request(&request) {
            Ok(()) => assert!(ok),
            Err(ValidationError::InvalidFrequencyPenalty(_)) => assert!(!ok),
            Err(other) => panic!("{other:?}"),
        }
        let request = CompletionRequest { presence_penalty: Some(f(value)), ..user("x") };
        match validate_completion_request(&request) {
            Ok(()) => assert!(ok),
            Err(ValidationError::InvalidPresencePenalty(_)) => assert!(!ok),
            Err(other) => panic!("{other:?}"),
        }
    }
}

#[test]
fn not_a_number_is_in_every_range() {
    let request = CompletionRequest { temperature: Some(f(f32::NAN)), ..user("x") };
    assert!(validate_completion_request(&request).is_ok());
}

#[test]
fn checks_run_in_their_order() {
    let request = CompletionRequest {
        max_tokens: Some(0),
        temperature: Some(f(9.0)),
        n: Some(0),
        ..user("x")
    };
    assert!(matches!(
        validate_completion_request(&request),
        Err(ValidationError::InvalidMaxTokens(0))
    ));
    let request = CompletionRequest { temperature: Some(f(9.0)), n: Some(0), ..user("x") };
    assert!(matches!(
        validate_completion_request(&request),
        Err(ValidationError::InvalidTemperature(_))
    ));
}

fn bias(key: &str, value: Json) -> Member {
    Member { key: key.to_string(), value }
}

#[test]
fn logit_bias_entries_are_held_to_their_range() {
    let good = vec![
        bias("50256", Json::Number(Number::NegInt(-100))),
        bias("7", Json::Number(Number::PosInt(100))),
        bias("8", Json::Number(Number::Float(Float64::from_bits(99.5f64.to_bits())))),
        bias("9", Json::Number(Number::Float(Float64::from_bits((-100.0f64).to_bits())))),
    ];
    let request = CompletionRequest { logit_bias: Some(good), ..user("x") };
    assert!(validate_completion_request(&request).is_ok());

    let cases = vec![
        bias("7", Json::Number(Number::PosInt(101))),
        bias("7", Json::Number(Number::NegInt(-101))),
        bias("7", Json::Number(Number::Float(Float64::from_bits(100.5f64.to_bits())))),
        bias("7", Json::String("1".to_string())),
        bias("seven", Json::Number(Number::PosInt(1))),
        bias("", Json::Number(Number::PosInt(1))),
        bias("-", Json::Number(Number::PosInt(1))),
        bias("1.5", Json::Number(Number::PosInt(1))),
    ];
    for entry in cases {
        let key = entry.key.clone();
        let request = CompletionRequest {
            logit_bias: Some(vec![bias("1", Json::Number(Number::PosInt(0))), entry]),
            ..user("x")
        };
        match validate_completion_request(&request) {
            Err(ValidationError::InvalidLogitBias { token }) => assert_eq!(token, key),
            other => panic!("{other:?}"),
        }
    }
}

#[test]
fn logit_bias_from_a_document() {
    let parsed = parse_json("{\"15\": -100, \"16\": 100.0, \"-3\": 0}").unwrap();
    let entries = match parsed {
        Json::Object(members) => members,
        other => panic!("{other:?}"),
    };
    let request = CompletionRequest { logit_bias: Some(entries), ..user("x") };
    assert!(validate_completion_request(&request).is_ok());
}

#[test]
fn allow_list_lets_through_what_it_holds() {
    let allowed = vec!["mock-a".to_string(), "mock-b".to_string()];
    assert!(validate_model_allowed("mock-a", Some(&allowed)).is_ok());
    assert!(validate_model_allowed("mock-b", Some(&allowed)).is_ok());
    assert!(validate_model_allowed("anything", None).is_ok());
    match validate_model_allowed("mock-c", Some(&allowed)) {
        Err(ValidationError::ModelNotInAllowedList { model, allowed: list }) => {
            assert_eq!(model, "mock-c");
            assert_eq!(list, allowed);
        }
        other => panic!("{other:?}"),
    }
    let empty: Vec<String> = vec![];
    assert!(validate_model_allowed("mock-a", Some(&empty)).is_err());
    assert!(validate_model_allowed("mock-", Some(&allowed)).is_err());
    assert!(validate_model_allowed("mock-ab", Some(&allowed)).is_err());
}

#[test]
fn the_model_is_the_requested_one_or_the_default() {
    let allowed = vec!["a".to_string()];
    assert_eq!(determine_model(Some("a"), "d", Some(&allowed)).unwrap(), "a");
    assert_eq!(determine_model(None, "d", Some(&allowed)).unwrap(), "d");
    assert_eq!(determine_model(Some("z"), "d", None).unwrap(), "z");
    assert!(matches!(
        determine_model(Some("z"), "d", Some(&allowed)),
        Err(ValidationError::ModelNotInAllowedList { .. })
    ));
}

#[test]
fn the_gate_looks_at_streaming_only() {
    let mut request = user("x");
    assert!(gate_capabilities(&request, false).is_ok());
    request.stream = Some(false);
    assert!(gate_capabilities(&request, false).is_ok());
    request.stream = Some(true);
    assert!(gate_capabilities(&request, true).is_ok());
    assert!(matches!(
        gate_capabilities(&request, false),
        Err(ValidationError::StreamingNotSupported)
    ));
}

#[test]
fn tools_need_an_adapter_that_has_them() {
    let mut request = user("x");
    request.messages[0].tool_call_id = Some("c".to_string());
    assert!(matches!(
        validate_provider_capabilities(&request, true, false),
        Err(ValidationError::ToolsNotSupported)
    ));
    assert!(validate_provider_capabilities(&request, true, true).is_ok());
    assert!(validate_provider_capabilities(&user("x"), true, false).is_ok());
}

#[test]
fn messages_of_the_validator() {
    assert_eq!(
        ValidationError::InvalidMaxTokens(128001).message(""),
        "Max tokens must be between 1 and 128000, got 128001"
    );
    assert_eq!(
        ValidationError::InvalidTemperature(f(3.0)).message(&3.0f32.to_string()),
        "Temperature must be between 0.0 and 2.0, got 3"
    );
    assert_eq!(
        ValidationError::InvalidTopP(f(1.5)).message("1.5"),
        "Top-p must be between 0.0 and 1.0, got 1.5"
    );
    assert_eq!(
        ValidationError::InvalidFrequencyPenalty(f(2.1)).message("2.1"),
        "Frequency penalty must be between -2.0 and 2.0, got 2.1"
    );
    assert_eq!(
        ValidationError::InvalidPresencePenalty(f(-2.1)).message("-2.1"),
        "Presence penalty must be between -2.0 and 2.0, got -2.1"
    );
    assert_eq!(
        ValidationError::InvalidTopLogprobs(21).message(""),
        "Top logprobs must be between 0 and 20, got 21"
    );
    assert_eq!(
        ValidationError::InvalidN(0).message(""),
        "N (number of choices) must be between 1 and 10, got 0"
    );
    assert_eq!(ValidationError::EmptyMessages.message(""), "Messages array cannot be empty");
    assert_eq!(
        ValidationError::NoContent.message(""),
        "At least one message must have content or tool calls"
    );
    assert_eq!(
        ValidationError::ModelNotInAllowedList {
            model: "c".to_string(),
            allowed: vec!["a".to_string(), "b".to_string()],
        }
        .message(""),
        "Model 'c' is not in the allowed list. Available models: a, b"
    );
    assert_eq!(
        ValidationError::StreamingNotSupported.message(""),
        "Streaming is not supported by the current provider"
    );
    assert_eq!(
        ValidationError::ToolsNotSupported.message(""),
        "Tool/function calling is not supported by the current provider"
    );
    assert!(ValidationError::InvalidLogitBias { token: "x1".to_string() }
        .message("")
        .contains("'x1'"));
}

#[test]
fn the_validator_names_the_field_at_fault() {
    let cases: Vec<(ValidationError, &str)> = vec![
        (ValidationError::EmptyMessages, "messages"),
        (ValidationError::NoContent, "messages"),
        (ValidationError::InvalidMaxTokens(0), "max_tokens"),
        (ValidationError::InvalidTemperature(f(3.0)), "temperature"),
        (ValidationError::InvalidTopP(f(3.0)), "top_p"),
        (ValidationError::InvalidFrequencyPenalty(f(3.0)), "frequency_penalty"),
        (ValidationError::InvalidPresencePenalty(f(3.0)), "presence_penalty"),
        (ValidationError::InvalidTopLogprobs(30), "top_logprobs"),
        (ValidationError::InvalidN(0), "n"),
        (ValidationError::InvalidLogitBias { token: "x".to_string() }, "logit_bias"),
        (ValidationError::StreamingNotSupported, "stream"),
        (ValidationError::ToolsNotSupported, "tools"),
    ];
    for (error, field) in cases {
        let body = error.to_openai_error("3");
        assert_eq!(body.error_type, "invalid_request_error");
        assert_eq!(body.param.as_deref(), Some(field));
        assert_eq!(error.status_code(), 400);
        assert_eq!(error.param(), field);
        assert!(body.code.is_some());
    }
}

#[test]
fn only_float_failures_have_a_number_to_show() {
    assert_eq!(
        ValidationError::InvalidTemperature(f(3.0)).offending_number().map(|v| v.to_bits()),
        Some(3.0f32.to_bits())
    );
    assert!(ValidationError::InvalidTopP(f(3.0)).offending_number().is_some());
    assert!(ValidationError::InvalidFrequencyPenalty(f(3.0)).offending_number().is_some());
    assert!(ValidationError::InvalidPresencePenalty(f(3.0)).offending_number().is_some());
    assert!(ValidationError::InvalidN(0).offending_number().is_none());
    assert!(ValidationError::EmptyMessages.offending_number().is_none());
}
