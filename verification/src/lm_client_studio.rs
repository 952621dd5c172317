//! The plain client for a local server: one prompt in, the text and the
//! token counts out.

use vstd::prelude::*;
use vstd::string::*;
use crate::codec::{encode_message, writes_message};
use crate::json::{find, put, Json, Member, Number};
use crate::models::Message;
use crate::number::Float32;
use crate::providers::lmstudio::{lemma_body_keys, DEFAULT_MAX_TOKENS, DEFAULT_TEMPERATURE};
use crate::text::{concat2, decimal, decimal_text};

verus! {

/// What can go wrong with a call of the plain client.
#[derive(Clone, Debug)]
pub enum LMStudioError {
    RequestFailed(String),
    InvalidResponse(String),
    /// The server answered with this status.
    ServerError(u16),
}

/// The error body of the plain client.
#[derive(Clone, Debug)]
pub struct ErrorResponse {
    pub error: String,
    pub code: String,
}

/// What the plain client takes from an answer.
#[derive(Clone, Debug)]
pub struct LMStudioResponse {
    pub text: String,
    pub total_tokens: Option<u32>,
    pub prompt_tokens: Option<u32>,
    pub completion_tokens: Option<u32>,
}

impl LMStudioError {
    /// The HTTP status of the failure.
    pub open spec fn spec_status_code(self) -> u16 {
        match self {
            LMStudioError::RequestFailed(_) => 502,
            LMStudioError::InvalidResponse(_) => 500,
            LMStudioError::ServerError(code) => code,
        }
    }

    /// The code of the error body.
    pub open spec fn spec_code(self) -> Seq<char> {
        match self {
            LMStudioError::RequestFailed(_) => "LM_STUDIO_REQUEST_FAILED"@,
            LMStudioError::InvalidResponse(_) => "LM_STUDIO_INVALID_RESPONSE"@,
            LMStudioError::ServerError(_) => "LM_STUDIO_SERVER_ERROR"@,
        }
    }

    /// The message of the error body.
    pub open spec fn spec_message(self) -> Seq<char> {
        match self {
            LMStudioError::RequestFailed(msg) => "Failed to connect to LM Studio: "@ + msg@,
            LMStudioError::InvalidResponse(msg) => "Invalid response from LM Studio: "@ + msg@,
            LMStudioError::ServerError(code) => "LM Studio returned error status: "@ + decimal(
                code as nat,
            ),
        }
    }

    /// The HTTP status of the failure.
    pub fn status_code(&self) -> (r: u16)
        ensures
            r == self.spec_status_code(),
    {
        match self {
            LMStudioError::RequestFailed(_) => 502,
            LMStudioError::InvalidResponse(_) => 500,
            LMStudioError::ServerError(code) => *code,
        }
    }

    /// The error body of the failure.
    pub fn to_error_response(&self) -> (r: ErrorResponse)
        ensures
            r.error@ == self.spec_message(),
            r.code@ == self.spec_code(),
    {
        match self {
            LMStudioError::RequestFailed(msg) => ErrorResponse {
                error: concat2("Failed to connect to LM Studio: ", msg.as_str()),
                code: String::from_str("LM_STUDIO_REQUEST_FAILED"),
            },
            LMStudioError::InvalidResponse(msg) => ErrorResponse {
                error: concat2("Invalid response from LM Studio: ", msg.as_str()),
                code: String::from_str("LM_STUDIO_INVALID_RESPONSE"),
            },
            LMStudioError::ServerError(code) => ErrorResponse {
                error: concat2(
                    "LM Studio returned error status: ",
                    decimal_text(*code as u64).as_str(),
                ),
                code: String::from_str("LM_STUDIO_SERVER_ERROR"),
            },
        }
    }
}

/// What stands at a place in a list; nothing for a value that is no list
/// and for a place past its end.
pub open spec fn item_at(j: Option<Json>, place: int) -> Option<Json> {
    match j {
        Some(Json::Array(items)) => if 0 <= place < items@.len() {
            Some(items@[place])
        } else {
            None
        },
        _ => None,
    }
}

/// What an object holds under a key, where there is an object.
pub open spec fn member_of(j: Option<Json>, key: Seq<char>) -> Option<Json> {
    match j {
        Some(v) => v.spec_get(key),
        None => None,
    }
}

/// The count under `key` of the object under `usage`, cut to 32 bits.
pub open spec fn usage_count(j: Json, key: Seq<char>) -> Option<u32> {
    match member_of(j.spec_get("usage"@), key) {
        Some(Json::Number(Number::PosInt(n))) => Some((n % 0x1_0000_0000) as u32),
        _ => None,
    }
}

/// The content of the message of the first choice.
pub open spec fn first_content(j: Json) -> Option<Json> {
    member_of(member_of(item_at(j.spec_get("choices"@), 0), "message"@), "content"@)
}

fn count_at(j: &Json, key: &str) -> (r: Option<u32>)
    ensures
        r == usage_count(*j, key@),
{
    match j.get("usage") {
        Some(usage) => match usage.get(key) {
            Some(Json::Number(Number::PosInt(n))) => Some((*n % 0x1_0000_0000) as u32),
            _ => None,
        },
        None => None,
    }
}

/// Takes the text and the token counts out of an answer. The text is
/// the content of the message of the first choice, and it has to be a string.
pub fn extract_response(j: &Json) -> (r: Result<LMStudioResponse, LMStudioError>)
    ensures
        match first_content(*j) {
            Some(Json::String(text)) => r matches Ok(resp) && resp.text == text
                && resp.total_tokens == usage_count(*j, "total_tokens"@) && resp.prompt_tokens
                == usage_count(*j, "prompt_tokens"@) && resp.completion_tokens == usage_count(
                *j,
                "completion_tokens"@,
            ),
            _ => r matches Err(LMStudioError::InvalidResponse(m)) && m@ == "Missing content field"@,
        },
{
    let first: Option<&Json> = match j.get("choices") {
        Some(Json::Array(items)) => if items.len() > 0 {
            Some(&items[0])
        } else {
            None
        },
        _ => None,
    };
    let message: Option<&Json> = match first {
        Some(choice) => choice.get("message"),
        None => None,
    };
    let content: Option<&Json> = match message {
        Some(m) => m.get("content"),
        None => None,
    };
    match content {
        Some(Json::String(text)) => Ok(
            LMStudioResponse {
                text: text.clone(),
                total_tokens: count_at(j, "total_tokens"),
                prompt_tokens: count_at(j, "prompt_tokens"),
                completion_tokens: count_at(j, "completion_tokens"),
            },
        ),
        _ => Err(LMStudioError::InvalidResponse(String::from_str("Missing content field"))),
    }
}

/// What the plain client makes of the status of an answer: a status of
/// the 2xx class passes, and any other is a server error with that status
/// where it is an HTTP status code, and with 500 where it is not.
pub fn check_status(status: u16) -> (r: Result<(), LMStudioError>)
    ensures
        if 200 <= status <= 299 {
            r is Ok
        } else if 100 <= status < 1000 {
            r == Err::<(), LMStudioError>(LMStudioError::ServerError(status))
        } else {
            r == Err::<(), LMStudioError>(LMStudioError::ServerError(500))
        },
{
    if 200 <= status && status <= 299 {
        Ok(())
    } else if 100 <= status && status < 1000 {
        Err(LMStudioError::ServerError(status))
    } else {
        Err(LMStudioError::ServerError(500))
    }
}

/// The body of a call of the plain client: the model, the prompt as the
/// one message of the user, and the token limit and the temperature with
/// their defaults.
pub fn request_body(prompt: &str, max_tokens: Option<u32>, temperature: Option<Float32>, model: &str) -> (r:
    Json)
    ensures
        r matches Json::Object(ms) && {
            &&& find(ms@, "model"@) matches Some(Json::String(m)) && m@ == model@
            &&& find(ms@, "messages"@) matches Some(Json::Array(items)) && items@.len() == 1
                && exists|m: Message|
                m.is_text("user"@, prompt@) && #[trigger] writes_message(items@[0], m)
            &&& find(ms@, "max_tokens"@) == Some(
                Json::Number(
                    Number::PosInt(
                        match max_tokens {
                            Some(n) => n as u64,
                            None => DEFAULT_MAX_TOKENS as u64,
                        },
                    ),
                ),
            )
            &&& find(ms@, "temperature"@) == Some(
                Json::Number(
                    Number::Single(
                        match temperature {
                            Some(t) => t,
                            None => Float32 { bits: DEFAULT_TEMPERATURE },
                        },
                    ),
                ),
            )
            &&& forall|q: Seq<char>| #[trigger]
                find(ms@, q) is Some ==> q == "model"@ || q == "messages"@ || q == "max_tokens"@
                    || q == "temperature"@
        },
{
    proof {
        lemma_body_keys();
    }
    let message = Message::new("user", prompt);
    let mut items: Vec<Json> = Vec::new();
    items.push(encode_message(&message));
    let mut ms: Vec<Member> = Vec::new();
    put(&mut ms, "model", Json::String(String::from_str(model)));
    put(&mut ms, "messages", Json::Array(items));
    let limit: u32 = match max_tokens {
        Some(n) => n,
        None => DEFAULT_MAX_TOKENS,
    };
    put(&mut ms, "max_tokens", Json::Number(Number::PosInt(limit as u64)));
    let heat = match temperature {
        Some(t) => t,
        None => Float32 { bits: DEFAULT_TEMPERATURE },
    };
    put(&mut ms, "temperature", Json::Number(Number::Single(heat)));
    assert(find(ms@, "messages"@) matches Some(Json::Array(its)) && writes_message(its@[0], message));
    Json::Object(ms)
}

} // verus!
