//! The error taxonomy: what each failure becomes on the wire.

use vstd::prelude::*;
use vstd::string::*;
use crate::models::{opt_text, OpenAIError, OpenAIErrorResponse};
use crate::providers::ProviderError;
use crate::text::{concat2, concat3, decimal, decimal_text, join, joined, views};
use crate::validations::ValidationError;

verus! {

/// A failure of the request pipeline: of the validator or of the adapter.
#[derive(Clone, Debug)]
pub enum ApiError {
    Validation(ValidationError),
    Provider(ProviderError),
}

impl ApiError {
    /// A failure of the validator as a failure of the pipeline.
    pub fn from_validation(err: ValidationError) -> (r: ApiError)
        ensures
            r == ApiError::Validation(err),
    {
        ApiError::Validation(err)
    }

    /// A failure of an adapter as a failure of the pipeline.
    pub fn from_provider(err: ProviderError) -> (r: ApiError)
        ensures
            r == ApiError::Provider(err),
    {
        ApiError::Provider(err)
    }

    /// The HTTP status of the failure.
    pub open spec fn spec_status_code(self) -> u16 {
        match self {
            ApiError::Validation(e) => 400,
            ApiError::Provider(e) => e.spec_status_code(),
        }
    }

    /// The HTTP status of the failure.
    pub fn status_code(&self) -> (r: u16)
        ensures
            r == self.spec_status_code(),
    {
        match self {
            ApiError::Validation(e) => e.status_code(),
            ApiError::Provider(e) => e.status_code(),
        }
    }

    /// The error body of the failure. `shown` is the decimal form of the
    /// number that a range failure rejects; no other failure reads it.
    pub fn to_response(&self, shown: &str) -> (r: OpenAIErrorResponse)
        ensures
            match self {
                ApiError::Validation(e) => e.is_wire_form(r.error, shown@),
                ApiError::Provider(e) => e.is_wire_form(r.error),
            },
    {
        match self {
            ApiError::Validation(e) => OpenAIErrorResponse { error: e.to_openai_error(shown) },
            ApiError::Provider(e) => OpenAIErrorResponse { error: e.to_openai_error() },
        }
    }
}

/// What `{:?}` writes for a list of strings: the strings in their `Debug`
/// form, between brackets and with commas.
pub uninterp spec fn debug_list_text(items: Seq<Seq<char>>) -> Seq<char>;

/// Writes a list of strings as `format!` does for `{:?}`. The same list
/// always gives the same text.
#[verifier::external_body]
fn debug_list(items: &Vec<String>) -> (r: String)
    ensures
        r@ == debug_list_text(views(items@)),
{
    format!("{:?}", items)
}

impl ProviderError {
    /// The failure in one line, as a log or a stream shows it.
    pub open spec fn spec_text(self) -> Seq<char> {
        match self {
            ProviderError::ConnectionFailed(msg) => "Connection failed: "@ + msg@,
            ProviderError::InvalidResponse(msg) => "Invalid response: "@ + msg@,
            ProviderError::ModelNotAvailable { requested, available } => "Model '"@ + requested@
                + "' not available. Available models: "@ + debug_list_text(views(available@)),
            ProviderError::RequestFailed { status, message } => "Request failed with status "@
                + decimal(status as nat) + ": "@ + message@,
            ProviderError::Timeout => "Request timed out"@,
            ProviderError::Configuration(msg) => "Configuration error: "@ + msg@,
            ProviderError::StreamingNotSupported => "Streaming is not supported by this provider"@,
            ProviderError::StreamError(msg) => "Streaming error: "@ + msg@,
            ProviderError::InvalidExtension { param, reason } => "Invalid extension parameter '"@
                + param@ + "': "@ + reason@,
        }
    }

    /// Writes the failure in one line.
    pub fn to_text(&self) -> (r: String)
        ensures
            r@ == self.spec_text(),
    {
        match self {
            ProviderError::ConnectionFailed(msg) => concat2("Connection failed: ", msg.as_str()),
            ProviderError::InvalidResponse(msg) => concat2("Invalid response: ", msg.as_str()),
            ProviderError::ModelNotAvailable { requested, available } => {
                let mut r = concat3(
                    "Model '",
                    requested.as_str(),
                    "' not available. Available models: ",
                );
                r.append(debug_list(available).as_str());
                r
            },
            ProviderError::RequestFailed { status, message } => {
                let mut r = concat3(
                    "Request failed with status ",
                    decimal_text(*status as u64).as_str(),
                    ": ",
                );
                r.append(message.as_str());
                r
            },
            ProviderError::Timeout => String::from_str("Request timed out"),
            ProviderError::Configuration(msg) => concat2("Configuration error: ", msg.as_str()),
            ProviderError::StreamingNotSupported => String::from_str(
                "Streaming is not supported by this provider",
            ),
            ProviderError::StreamError(msg) => concat2("Streaming error: ", msg.as_str()),
            ProviderError::InvalidExtension { param, reason } => {
                let mut r = concat3("Invalid extension parameter '", param.as_str(), "': ");
                r.append(reason.as_str());
                r
            },
        }
    }

    /// A `RequestFailed` keeps its status where that is an HTTP status
    /// code (100 to 999) and falls back to 500 where it is not.
    pub open spec fn spec_status_code(self) -> u16 {
        match self {
            ProviderError::ConnectionFailed(_) => 502,
            ProviderError::InvalidResponse(_) => 500,
            ProviderError::RequestFailed { status, .. } => if 100 <= status < 1000 {
                status
            } else {
                500
            },
            ProviderError::ModelNotAvailable { .. } => 400,
            ProviderError::Timeout => 504,
            ProviderError::Configuration(_) => 500,
            ProviderError::StreamingNotSupported => 400,
            ProviderError::StreamError(_) => 500,
            ProviderError::InvalidExtension { .. } => 400,
        }
    }

    /// The kind of error that the body names.
    pub open spec fn spec_error_type(self) -> Seq<char> {
        match self {
            ProviderError::ConnectionFailed(_) => "api_error"@,
            ProviderError::InvalidResponse(_) => "api_error"@,
            ProviderError::RequestFailed { status, .. } => if status == 401 {
                "authentication_error"@
            } else if status == 403 {
                "permission_error"@
            } else if status == 429 {
                "rate_limit_error"@
            } else {
                "api_error"@
            },
            ProviderError::ModelNotAvailable { .. } => "invalid_request_error"@,
            ProviderError::Timeout => "timeout_error"@,
            ProviderError::Configuration(_) => "api_error"@,
            ProviderError::StreamingNotSupported => "invalid_request_error"@,
            ProviderError::StreamError(_) => "api_error"@,
            ProviderError::InvalidExtension { .. } => "invalid_request_error"@,
        }
    }

    /// The code that the body names.
    pub open spec fn spec_code(self) -> Seq<char> {
        match self {
            ProviderError::ConnectionFailed(_) => "provider_connection_failed"@,
            ProviderError::InvalidResponse(_) => "provider_invalid_response"@,
            ProviderError::RequestFailed { status, .. } => if status == 401 {
                "invalid_api_key"@
            } else if status == 403 {
                "insufficient_quota"@
            } else if status == 429 {
                "rate_limit_exceeded"@
            } else {
                "provider_error"@
            },
            ProviderError::ModelNotAvailable { .. } => "model_not_found"@,
            ProviderError::Timeout => "provider_timeout"@,
            ProviderError::Configuration(_) => "configuration_error"@,
            ProviderError::StreamingNotSupported => "unsupported_parameter"@,
            ProviderError::StreamError(_) => "stream_error"@,
            ProviderError::InvalidExtension { .. } => "invalid_extension"@,
        }
    }

    /// The request field at fault, where there is one.
    pub open spec fn spec_param(self) -> Option<Seq<char>> {
        match self {
            ProviderError::ModelNotAvailable { .. } => Some("model"@),
            ProviderError::StreamingNotSupported => Some("stream"@),
            ProviderError::InvalidExtension { param, .. } => Some(param@),
            _ => None,
        }
    }

    /// The message of the body.
    pub open spec fn spec_message(self) -> Seq<char> {
        match self {
            ProviderError::ConnectionFailed(msg) => "Failed to connect to inference provider: "@
                + msg@,
            ProviderError::InvalidResponse(msg) => "Invalid response from inference provider: "@
                + msg@,
            ProviderError::RequestFailed { message, .. } => message@,
            ProviderError::ModelNotAvailable { requested, available } => "Model '"@ + requested@
                + "' is not available. "@ + (if available@.len() == 0 {
                "No models available"@
            } else {
                "Available models: "@ + joined(views(available@), ", "@)
            }),
            ProviderError::Timeout => "Request to inference provider timed out"@,
            ProviderError::Configuration(msg) => "Provider configuration error: "@ + msg@,
            ProviderError::StreamingNotSupported =>
                "Streaming is not supported by the current provider"@,
            ProviderError::StreamError(msg) => "Streaming error: "@ + msg@,
            ProviderError::InvalidExtension { param, reason } => "Invalid extension parameter '"@
                + param@ + "': "@ + reason@,
        }
    }

    /// `e` is the error body of this failure.
    pub open spec fn is_wire_form(self, e: OpenAIError) -> bool {
        &&& e.message@ == self.spec_message()
        &&& e.error_type@ == self.spec_error_type()
        &&& opt_text(e.param) == self.spec_param()
        &&& opt_text(e.code) == Some(self.spec_code())
    }

    /// The HTTP status of the failure.
    pub fn status_code(&self) -> (r: u16)
        ensures
            r == self.spec_status_code(),
    {
        match self {
            ProviderError::ConnectionFailed(_) => 502,
            ProviderError::InvalidResponse(_) => 500,
            ProviderError::RequestFailed { status, .. } => {
                if 100 <= *status && *status < 1000 {
                    *status
                } else {
                    500
                }
            },
            ProviderError::ModelNotAvailable { .. } => 400,
            ProviderError::Timeout => 504,
            ProviderError::Configuration(_) => 500,
            ProviderError::StreamingNotSupported => 400,
            ProviderError::StreamError(_) => 500,
            ProviderError::InvalidExtension { .. } => 400,
        }
    }

    fn error_type(&self) -> (r: &'static str)
        ensures
            r@ == self.spec_error_type(),
    {
        match self {
            ProviderError::RequestFailed { status, .. } => {
                if *status == 401 {
                    "authentication_error"
                } else if *status == 403 {
                    "permission_error"
                } else if *status == 429 {
                    "rate_limit_error"
                } else {
                    "api_error"
                }
            },
            ProviderError::ModelNotAvailable { .. } => "invalid_request_error",
            ProviderError::Timeout => "timeout_error",
            ProviderError::StreamingNotSupported => "invalid_request_error",
            ProviderError::InvalidExtension { .. } => "invalid_request_error",
            _ => "api_error",
        }
    }

    fn code(&self) -> (r: &'static str)
        ensures
            r@ == self.spec_code(),
    {
        match self {
            ProviderError::ConnectionFailed(_) => "provider_connection_failed",
            ProviderError::InvalidResponse(_) => "provider_invalid_response",
            ProviderError::RequestFailed { status, .. } => {
                if *status == 401 {
                    "invalid_api_key"
                } else if *status == 403 {
                    "insufficient_quota"
                } else if *status == 429 {
                    "rate_limit_exceeded"
                } else {
                    "provider_error"
                }
            },
            ProviderError::ModelNotAvailable { .. } => "model_not_found",
            ProviderError::Timeout => "provider_timeout",
            ProviderError::Configuration(_) => "configuration_error",
            ProviderError::StreamingNotSupported => "unsupported_parameter",
            ProviderError::StreamError(_) => "stream_error",
            ProviderError::InvalidExtension { .. } => "invalid_extension",
        }
    }

    fn message(&self) -> (r: String)
        ensures
            r@ == self.spec_message(),
    {
        match self {
            ProviderError::ConnectionFailed(msg) => concat2(
                "Failed to connect to inference provider: ",
                msg.as_str(),
            ),
            ProviderError::InvalidResponse(msg) => concat2(
                "Invalid response from inference provider: ",
                msg.as_str(),
            ),
            ProviderError::RequestFailed { message, .. } => message.clone(),
            ProviderError::ModelNotAvailable { requested, available } => {
                let mut r = concat3("Model '", requested.as_str(), "' is not available. ");
                if available.len() == 0 {
                    r.append("No models available");
                } else {
                    let list = join(available, ", ");
                    r.append("Available models: ");
                    r.append(list.as_str());
                }
                assert(r@ =~= self.spec_message());
                r
            },
            ProviderError::Timeout => String::from_str("Request to inference provider timed out"),
            ProviderError::Configuration(msg) => concat2(
                "Provider configuration error: ",
                msg.as_str(),
            ),
            ProviderError::StreamingNotSupported => String::from_str(
                "Streaming is not supported by the current provider",
            ),
            ProviderError::StreamError(msg) => concat2("Streaming error: ", msg.as_str()),
            ProviderError::InvalidExtension { param, reason } => {
                let mut r = concat3("Invalid extension parameter '", param.as_str(), "': ");
                r.append(reason.as_str());
                r
            },
        }
    }

    /// The error body of the failure.
    pub fn to_openai_error(&self) -> (r: OpenAIError)
        ensures
            self.is_wire_form(r),
    {
        let param = match self {
            ProviderError::ModelNotAvailable { .. } => Some(String::from_str("model")),
            ProviderError::StreamingNotSupported => Some(String::from_str("stream")),
            ProviderError::InvalidExtension { param, .. } => Some(param.clone()),
            _ => None,
        };
        OpenAIError {
            message: self.message(),
            error_type: String::from_str(self.error_type()),
            param,
            code: Some(String::from_str(self.code())),
        }
    }
}

} // verus!
