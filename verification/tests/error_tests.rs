use inference_server::error::ApiError;
use inference_server::providers::ProviderError;
use inference_server::validations::ValidationError;

#[test]
fn test_provider_connection_failed_error() {
    let error = ProviderError::ConnectionFailed("Network error".to_string());
    let openai_error = error.to_openai_error();

    assert_eq!(openai_error.error_type, "api_error");
    assert_eq!(openai_error.code, Some("provider_connection_failed".to_string()));
    assert!(openai_error.message.contains("Network error"));
    assert_eq!(openai_error.param, None);
}

#[test]
fn test_provider_timeout_error() {
    let error = ProviderError::Timeout;
    let openai_error = error.to_openai_error();

    assert_eq!(openai_error.error_type, "timeout_error");
    assert_eq!(openai_error.code, Some("provider_timeout".to_string()));
    assert!(openai_error.message.contains("timed out"));
}

#[test]
fn test_provider_authentication_error() {
    let error = ProviderError::RequestFailed {
        status: 401,
        message: "Invalid API key".to_string(),
    };
    let openai_error = error.to_openai_error();

    assert_eq!(openai_error.error_type, "authentication_error");
    assert_eq!(openai_error.code, Some("invalid_api_key".to_string()));
    assert_eq!(openai_error.message, "Invalid API key");
}

#[test]
fn test_provider_rate_limit_error() {
    let error = ProviderError::RequestFailed {
        status: 429,
        message: "Rate limit exceeded".to_string(),
    };
    let openai_error = error.to_openai_error();

    assert_eq!(openai_error.error_type, "rate_limit_error");
    assert_eq!(openai_error.code, Some("rate_limit_exceeded".to_string()));
}

#[test]
fn test_provider_permission_error() {
    let error = ProviderError::RequestFailed {
        status: 403,
        message: "Insufficient quota".to_string(),
    };
    let openai_error = error.to_openai_error();

    assert_eq!(openai_error.error_type, "permission_error");
    assert_eq!(openai_error.code, Some("insufficient_quota".to_string()));
}

#[test]
fn test_model_not_available_error() {
    let error = ProviderError::ModelNotAvailable {
        requested: "gpt-5".to_string(),
        available: vec!["gpt-3.5-turbo".to_string(), "gpt-4".to_string()],
    };
    let openai_error = error.to_openai_error();

    assert_eq!(openai_error.error_type, "invalid_request_error");
    assert_eq!(openai_error.param, Some("model".to_string()));
    assert_eq!(openai_error.code, Some("model_not_found".to_string()));
    assert!(openai_error.message.contains("gpt-5"));
    assert!(openai_error.message.contains("gpt-3.5-turbo"));
}

#[test]
fn test_streaming_not_supported_error() {
    let error = ProviderError::StreamingNotSupported;
    let openai_error = error.to_openai_error();

    assert_eq!(openai_error.error_type, "invalid_request_error");
    assert_eq!(openai_error.param, Some("stream".to_string()));
    assert_eq!(openai_error.code, Some("unsupported_parameter".to_string()));
}

#[test]
fn test_invalid_extension_error() {
    let error = ProviderError::InvalidExtension {
        param: "custom_param".to_string(),
        reason: "Not supported".to_string(),
    };
    let openai_error = error.to_openai_error();

    assert_eq!(openai_error.error_type, "invalid_request_error");
    assert_eq!(openai_error.param, Some("custom_param".to_string()));
    assert_eq!(openai_error.code, Some("invalid_extension".to_string()));
    assert!(openai_error.message.contains("custom_param"));
    assert!(openai_error.message.contains("Not supported"));
}

#[test]
fn test_provider_error_status_codes() {
    assert_eq!(
        ProviderError::ConnectionFailed("test".to_string()).status_code(),
        axum::http::StatusCode::BAD_GATEWAY.as_u16()
    );
    assert_eq!(
        ProviderError::Timeout.status_code(),
        axum::http::StatusCode::GATEWAY_TIMEOUT.as_u16()
    );
    assert_eq!(
        ProviderError::RequestFailed {
            status: 401,
            message: "test".to_string()
        }
        .status_code(),
        axum::http::StatusCode::UNAUTHORIZED.as_u16()
    );
    assert_eq!(
        ProviderError::ModelNotAvailable {
            requested: "test".to_string(),
            available: vec![]
        }
        .status_code(),
        axum::http::StatusCode::BAD_REQUEST.as_u16()
    );
}

#[test]
fn test_configuration_error() {
    let error = ProviderError::Configuration("Invalid config".to_string());
    let openai_error = error.to_openai_error();

    assert_eq!(openai_error.error_type, "api_error");
    assert_eq!(openai_error.code, Some("configuration_error".to_string()));
    assert!(openai_error.message.contains("Invalid config"));
}

#[test]
fn test_stream_error() {
    let error = ProviderError::StreamError("Connection lost".to_string());
    let openai_error = error.to_openai_error();

    assert_eq!(openai_error.error_type, "api_error");
    assert_eq!(openai_error.code, Some("stream_error".to_string()));
    assert!(openai_error.message.contains("Connection lost"));
}

#[test]
fn status_of_a_failed_request_falls_back_to_500() {
    for status in [0u16, 42, 99, 1000, 65535] {
        let error = ProviderError::RequestFailed { status, message: String::new() };
        assert_eq!(error.status_code(), 500);
        assert_eq!(
            error.status_code(),
            axum::http::StatusCode::from_u16(status)
                .unwrap_or(axum::http::StatusCode::INTERNAL_SERVER_ERROR)
                .as_u16()
        );
    }
    for status in [100u16, 200, 404, 503, 999] {
        let error = ProviderError::RequestFailed { status, message: String::new() };
        assert_eq!(error.status_code(), status);
        assert_eq!(
            error.status_code(),
            axum::http::StatusCode::from_u16(status).unwrap().as_u16()
        );
    }
}

#[test]
fn every_provider_error_has_its_status() {
    assert_eq!(ProviderError::InvalidResponse("x".to_string()).status_code(), 500);
    assert_eq!(ProviderError::Configuration("x".to_string()).status_code(), 500);
    assert_eq!(ProviderError::StreamingNotSupported.status_code(), 400);
    assert_eq!(ProviderError::StreamError("x".to_string()).status_code(), 500);
    assert_eq!(
        ProviderError::InvalidExtension { param: "p".to_string(), reason: "r".to_string() }
            .status_code(),
        400
    );
}

#[test]
fn provider_error_in_one_line() {
    assert_eq!(
        ProviderError::RequestFailed { status: 503, message: "down".to_string() }.to_text(),
        "Request failed with status 503: down"
    );
    assert_eq!(
        ProviderError::ModelNotAvailable {
            requested: "a".to_string(),
            available: vec!["b".to_string(), "c\"d".to_string()],
        }
        .to_text(),
        "Model 'a' not available. Available models: [\"b\", \"c\\\"d\"]"
    );
    assert_eq!(ProviderError::Timeout.to_text(), "Request timed out");
    assert_eq!(
        ProviderError::StreamError("x".to_string()).to_text(),
        "Streaming error: x"
    );
}

#[test]
fn model_not_available_without_models() {
    let error = ProviderError::ModelNotAvailable { requested: "m".to_string(), available: vec![] };
    assert_eq!(
        error.to_openai_error().message,
        "Model 'm' is not available. No models available"
    );
}

#[test]
fn api_error_wraps_both_kinds() {
    let v = ApiError::from_validation(ValidationError::EmptyMessages);
    assert_eq!(v.status_code(), 400);
    let body = v.to_response("");
    assert_eq!(body.error.error_type, "invalid_request_error");
    assert_eq!(body.error.param, Some("messages".to_string()));
    let p = ApiError::from_provider(ProviderError::Timeout);
    assert_eq!(p.status_code(), 504);
    assert_eq!(p.to_response("").error.error_type, "timeout_error");
}
