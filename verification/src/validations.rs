//! The validator: request shape, numeric ranges, the model allow-list and
//! the capability gate.

use vstd::prelude::*;
use vstd::string::*;
use crate::json::{Json, Member};
use crate::models::{opt_text, CompletionRequest, Message, OpenAIError};
use crate::number::{Float32, F32_MINUS_TWO, F32_ONE, F32_TWO, F32_ZERO};
use crate::text::{
    concat2, concat3, copy_strings, decimal, decimal_text, integer_text, is_integer_text, join,
    joined, list_contains, views,
};

verus! {

/// What the validator can find wrong with a request.
#[derive(Clone, Debug)]
pub enum ValidationError {
    EmptyMessages,
    /// No message has content, tool calls or the id of a tool call.
    NoContent,
    InvalidMaxTokens(u32),
    InvalidTemperature(Float32),
    InvalidTopP(Float32),
    InvalidFrequencyPenalty(Float32),
    InvalidPresencePenalty(Float32),
    InvalidTopLogprobs(u8),
    InvalidN(u32),
    /// The entry of `logit_bias` under this key is not a token id with a
    /// bias in range.
    InvalidLogitBias { token: String },
    ModelNotInAllowedList { model: String, allowed: Vec<String> },
    StreamingNotSupported,
    ToolsNotSupported,
}

/// The binary32 number 0.
pub open spec fn zero() -> Float32 {
    Float32 { bits: F32_ZERO }
}

/// The binary32 number 1.
pub open spec fn one() -> Float32 {
    Float32 { bits: F32_ONE }
}

/// The binary32 number 2.
pub open spec fn two() -> Float32 {
    Float32 { bits: F32_TWO }
}

/// The binary32 number -2.
pub open spec fn minus_two() -> Float32 {
    Float32 { bits: F32_MINUS_TWO }
}

/// Some message has content, tool calls or the id of a tool call.
pub open spec fn has_content(messages: Seq<Message>) -> bool {
    exists|i: int| 0 <= i < messages.len() && (#[trigger] messages[i]).carries_something()
}

/// The key is a token id and the value a number in -100 ..= 100.
pub open spec fn bias_entry_ok(m: Member) -> bool {
    is_integer_text(m.key@) && (m.value matches Json::Number(n) && n.within_hundred())
}

/// The first entry from `from` on that is not in order.
pub open spec fn first_bad_bias(entries: Seq<Member>, from: int) -> Option<int>
    decreases entries.len() - from,
{
    if from < 0 || from >= entries.len() {
        None
    } else if !bias_entry_ok(entries[from]) {
        Some(from)
    } else {
        first_bad_bias(entries, from + 1)
    }
}

/// What is wrong with the request, by the first check that fails: the
/// shape of the messages, then `max_tokens`, `temperature`, `top_p`,
/// `frequency_penalty`, `presence_penalty`, `top_logprobs`, `n`, and the
/// entries of `logit_bias` in their order. A number that is no number is in
/// every range.
pub open spec fn first_violation(req: CompletionRequest) -> Option<ValidationError> {
    if req.messages@.len() == 0 {
        Some(ValidationError::EmptyMessages)
    } else if !has_content(req.messages@) {
        Some(ValidationError::NoContent)
    } else if req.max_tokens matches Some(v) && (v == 0 || v > 128000) {
        Some(ValidationError::InvalidMaxTokens(req.max_tokens->0))
    } else if req.temperature matches Some(v) && v.outside(zero(), two()) {
        Some(ValidationError::InvalidTemperature(req.temperature->0))
    } else if req.top_p matches Some(v) && v.outside(zero(), one()) {
        Some(ValidationError::InvalidTopP(req.top_p->0))
    } else if req.frequency_penalty matches Some(v) && v.outside(minus_two(), two()) {
        Some(ValidationError::InvalidFrequencyPenalty(req.frequency_penalty->0))
    } else if req.presence_penalty matches Some(v) && v.outside(minus_two(), two()) {
        Some(ValidationError::InvalidPresencePenalty(req.presence_penalty->0))
    } else if req.top_logprobs matches Some(v) && v > 20 {
        Some(ValidationError::InvalidTopLogprobs(req.top_logprobs->0))
    } else if req.n matches Some(v) && (v == 0 || v > 10) {
        Some(ValidationError::InvalidN(req.n->0))
    } else if req.logit_bias matches Some(entries) && first_bad_bias(entries@, 0) is Some {
        Some(
            ValidationError::InvalidLogitBias {
                token: req.logit_bias->0@[first_bad_bias(req.logit_bias->0@, 0)->0].key,
            },
        )
    } else {
        None
    }
}

/// Every bounded field that is set lies in its range, both ends counted in.
pub open spec fn ranges_hold(req: CompletionRequest) -> bool {
    &&& req.max_tokens matches Some(v) ==> 1 <= v <= 128000
    &&& req.temperature matches Some(v) ==> !v.outside(zero(), two())
    &&& req.top_p matches Some(v) ==> !v.outside(zero(), one())
    &&& req.frequency_penalty matches Some(v) ==> !v.outside(minus_two(), two())
    &&& req.presence_penalty matches Some(v) ==> !v.outside(minus_two(), two())
    &&& req.top_logprobs matches Some(v) ==> v <= 20
    &&& req.n matches Some(v) ==> 1 <= v <= 10
    &&& req.logit_bias matches Some(entries) ==> forall|i: int|
        0 <= i < entries@.len() ==> bias_entry_ok(#[trigger] entries@[i])
}

/// What `first_bad_bias` finds is the first entry that is not in order, and it
/// finds none exactly where every entry is in order.
pub proof fn lemma_first_bad_bias(entries: Seq<Member>, from: int)
    requires
        0 <= from,
    ensures
        match first_bad_bias(entries, from) {
            Some(i) => from <= i < entries.len() && !bias_entry_ok(entries[i]) && forall|j: int|
                from <= j < i ==> bias_entry_ok(#[trigger] entries[j]),
            None => forall|j: int| from <= j < entries.len() ==> bias_entry_ok(#[trigger] entries[j]),
        },
    decreases entries.len() - from,
{
    if from < entries.len() && bias_entry_ok(entries[from]) {
        lemma_first_bad_bias(entries, from + 1);
    }
}

/// A request passes the validator exactly where it has a message, some
/// message carries something, and every bounded field that is set lies in its
/// range. The two ends of each range lie in it; a value strictly below the
/// low end or strictly above the high end does not.
pub proof fn lemma_numeric_ranges(req: CompletionRequest, x: Float32)
    ensures
        first_violation(req) is None <==> req.messages@.len() > 0 && has_content(req.messages@)
            && ranges_hold(req),
        !zero().outside(zero(), two()) && !two().outside(zero(), two()),
        !zero().outside(zero(), one()) && !one().outside(zero(), one()),
        !minus_two().outside(minus_two(), two()) && !two().outside(minus_two(), two()),
        x.lt(zero()) || x.gt(two()) ==> x.outside(zero(), two()),
        x.lt(zero()) || x.gt(one()) ==> x.outside(zero(), one()),
        x.lt(minus_two()) || x.gt(two()) ==> x.outside(minus_two(), two()),
{
    if req.logit_bias is Some {
        lemma_first_bad_bias(req.logit_bias->0@, 0);
    }
}

fn check_has_content(messages: &Vec<Message>) -> (r: bool)
    ensures
        r == has_content(messages@),
{
    let mut i: usize = 0;
    while i < messages.len()
        invariant
            i <= messages.len(),
            forall|j: int| 0 <= j < i ==> !(#[trigger] messages@[j]).carries_something(),
        decreases messages.len() - i,
    {
        let m = &messages[i];
        if m.content.is_some() || m.tool_calls.is_some() || m.tool_call_id.is_some() {
            return true;
        }
        i = i + 1;
    }
    false
}

fn check_bias_entry(m: &Member) -> (r: bool)
    ensures
        r == bias_entry_ok(*m),
{
    if !integer_text(m.key.as_str()) {
        return false;
    }
    match &m.value {
        Json::Number(n) => n.is_within_hundred(),
        _ => false,
    }
}

fn find_bad_bias(entries: &Vec<Member>) -> (r: Option<usize>)
    ensures
        match r {
            Some(i) => first_bad_bias(entries@, 0) == Some(i as int) && i < entries.len(),
            None => first_bad_bias(entries@, 0) is None,
        },
{
    let mut i: usize = 0;
    while i < entries.len()
        invariant
            i <= entries.len(),
            first_bad_bias(entries@, 0) == first_bad_bias(entries@, i as int),
        decreases entries.len() - i,
    {
        if !check_bias_entry(&entries[i]) {
            return Some(i);
        }
        i = i + 1;
    }
    None
}

/// Checks the shape of the request and the range of each bounded field.
pub fn validate_completion_request(request: &CompletionRequest) -> (r: Result<(), ValidationError>)
    ensures
        match first_violation(*request) {
            Some(e) => r == Err::<(), ValidationError>(e),
            None => r is Ok,
        },
{
    if request.messages.len() == 0 {
        return Err(ValidationError::EmptyMessages);
    }
    if !check_has_content(&request.messages) {
        return Err(ValidationError::NoContent);
    }
    if let Some(max_tokens) = request.max_tokens {
        if max_tokens == 0 || max_tokens > 128000 {
            return Err(ValidationError::InvalidMaxTokens(max_tokens));
        }
    }
    let zero = Float32 { bits: F32_ZERO };
    let one = Float32 { bits: F32_ONE };
    let two = Float32 { bits: F32_TWO };
    let minus_two = Float32 { bits: F32_MINUS_TWO };
    if let Some(temperature) = request.temperature {
        if temperature.is_outside(&zero, &two) {
            return Err(ValidationError::InvalidTemperature(temperature));
        }
    }
    if let Some(top_p) = request.top_p {
        if top_p.is_outside(&zero, &one) {
            return Err(ValidationError::InvalidTopP(top_p));
        }
    }
    if let Some(penalty) = request.frequency_penalty {
        if penalty.is_outside(&minus_two, &two) {
            return Err(ValidationError::InvalidFrequencyPenalty(penalty));
        }
    }
    if let Some(penalty) = request.presence_penalty {
        if penalty.is_outside(&minus_two, &two) {
            return Err(ValidationError::InvalidPresencePenalty(penalty));
        }
    }
    if let Some(top_logprobs) = request.top_logprobs {
        if top_logprobs > 20 {
            return Err(ValidationError::InvalidTopLogprobs(top_logprobs));
        }
    }
    if let Some(n) = request.n {
        if n == 0 || n > 10 {
            return Err(ValidationError::InvalidN(n));
        }
    }
    if let Some(entries) = &request.logit_bias {
        if let Some(i) = find_bad_bias(entries) {
            return Err(ValidationError::InvalidLogitBias { token: entries[i].key.clone() });
        }
    }
    Ok(())
}

/// A model passes where no allow-list is set or the list holds it.
pub open spec fn model_allowed(model: Seq<char>, allowed: Option<&Vec<String>>) -> bool {
    match allowed {
        Some(list) => views(list@).contains(model),
        None => true,
    }
}

/// The failure that names `model` and the whole allow-list.
pub open spec fn is_not_allowed(e: ValidationError, model: Seq<char>, list: Seq<String>) -> bool {
    e matches ValidationError::ModelNotInAllowedList { model: m, allowed } && m@ == model
        && allowed@ == list
}

/// Holds the requested model against the allow-list, where one is set.
pub fn validate_model_allowed(requested_model: &str, allowed_models: Option<&Vec<String>>) -> (r:
    Result<(), ValidationError>)
    ensures
        r is Ok <==> model_allowed(requested_model@, allowed_models),
        r matches Err(e) ==> is_not_allowed(e, requested_model@, allowed_models->0@),
{
    if let Some(allowed) = allowed_models {
        if !list_contains(allowed, requested_model) {
            return Err(
                ValidationError::ModelNotInAllowedList {
                    model: String::from_str(requested_model),
                    allowed: copy_strings(allowed),
                },
            );
        }
    }
    Ok(())
}

/// The model to use: the requested one where it is set and allowed, the
/// default where none is requested. The default is not held against the
/// allow-list.
pub fn determine_model<'a>(
    requested_model: Option<&'a str>,
    default_model: &'a str,
    allowed_models: Option<&Vec<String>>,
) -> (r: Result<&'a str, ValidationError>)
    ensures
        match requested_model {
            None => r matches Ok(m) && m@ == default_model@,
            Some(wanted) => if model_allowed(wanted@, allowed_models) {
                r matches Ok(m) && m@ == wanted@
            } else {
                r matches Err(e) && is_not_allowed(e, wanted@, allowed_models->0@)
            },
        },
{
    match requested_model {
        Some(model) => {
            match validate_model_allowed(model, allowed_models) {
                Ok(()) => Ok(model),
                Err(e) => Err(e),
            }
        },
        None => Ok(default_model),
    }
}

/// Fails where the request asks for a stream and the adapter cannot stream.
pub fn gate_capabilities(request: &CompletionRequest, supports_streaming: bool) -> (r: Result<
    (),
    ValidationError,
>)
    ensures
        r is Err <==> request.stream == Some(true) && !supports_streaming,
        r is Err ==> r == Err::<(), ValidationError>(ValidationError::StreamingNotSupported),
{
    match request.stream {
        Some(true) => {
            if !supports_streaming {
                return Err(ValidationError::StreamingNotSupported);
            }
        },
        _ => {},
    }
    Ok(())
}

/// The request has tools, functions, or a message with tool calls or the
/// id of a tool call.
pub open spec fn needs_tools(req: CompletionRequest) -> bool {
    req.tools is Some || req.functions is Some || exists|i: int|
        0 <= i < req.messages@.len() && ((#[trigger] req.messages@[i]).tool_calls is Some
            || req.messages@[i].tool_call_id is Some)
}

fn check_needs_tools(request: &CompletionRequest) -> (r: bool)
    ensures
        r == needs_tools(*request),
{
    if request.tools.is_some() || request.functions.is_some() {
        return true;
    }
    let mut i: usize = 0;
    while i < request.messages.len()
        invariant
            i <= request.messages.len(),
            forall|j: int|
                0 <= j < i ==> !((#[trigger] request.messages@[j]).tool_calls is Some
                    || request.messages@[j].tool_call_id is Some),
        decreases request.messages.len() - i,
    {
        let m = &request.messages[i];
        if m.tool_calls.is_some() || m.tool_call_id.is_some() {
            return true;
        }
        i = i + 1;
    }
    false
}

/// Holds the request against what the adapter can do: streaming first,
/// tools after it.
pub fn validate_provider_capabilities(
    request: &CompletionRequest,
    supports_streaming: bool,
    supports_tools: bool,
) -> (r: Result<(), ValidationError>)
    ensures
        if request.stream == Some(true) && !supports_streaming {
            r == Err::<(), ValidationError>(ValidationError::StreamingNotSupported)
        } else if needs_tools(*request) && !supports_tools {
            r == Err::<(), ValidationError>(ValidationError::ToolsNotSupported)
        } else {
            r is Ok
        },
{
    match gate_capabilities(request, supports_streaming) {
        Err(e) => {
            return Err(e);
        },
        Ok(()) => {},
    }
    if check_needs_tools(request) && !supports_tools {
        return Err(ValidationError::ToolsNotSupported);
    }
    Ok(())
}

impl ValidationError {
    /// Every failure of the validator is a bad request.
    pub fn status_code(&self) -> (r: u16)
        ensures
            r == 400,
    {
        400
    }

    /// The request field at fault.
    pub open spec fn spec_param(self) -> Seq<char> {
        match self {
            ValidationError::EmptyMessages => "messages"@,
            ValidationError::NoContent => "messages"@,
            ValidationError::InvalidMaxTokens(_) => "max_tokens"@,
            ValidationError::InvalidTemperature(_) => "temperature"@,
            ValidationError::InvalidTopP(_) => "top_p"@,
            ValidationError::InvalidFrequencyPenalty(_) => "frequency_penalty"@,
            ValidationError::InvalidPresencePenalty(_) => "presence_penalty"@,
            ValidationError::InvalidTopLogprobs(_) => "top_logprobs"@,
            ValidationError::InvalidN(_) => "n"@,
            ValidationError::InvalidLogitBias { .. } => "logit_bias"@,
            ValidationError::ModelNotInAllowedList { .. } => "model"@,
            ValidationError::StreamingNotSupported => "stream"@,
            ValidationError::ToolsNotSupported => "tools"@,
        }
    }

    /// The code that the body names.
    pub open spec fn spec_code(self) -> Seq<char> {
        match self {
            ValidationError::EmptyMessages => "EMPTY_MESSAGES"@,
            ValidationError::NoContent => "NO_CONTENT"@,
            ValidationError::InvalidMaxTokens(_) => "INVALID_MAX_TOKENS"@,
            ValidationError::InvalidTemperature(_) => "INVALID_TEMPERATURE"@,
            ValidationError::InvalidTopP(_) => "INVALID_TOP_P"@,
            ValidationError::InvalidFrequencyPenalty(_) => "INVALID_FREQUENCY_PENALTY"@,
            ValidationError::InvalidPresencePenalty(_) => "INVALID_PRESENCE_PENALTY"@,
            ValidationError::InvalidTopLogprobs(_) => "INVALID_TOP_LOGPROBS"@,
            ValidationError::InvalidN(_) => "INVALID_N"@,
            ValidationError::InvalidLogitBias { .. } => "INVALID_LOGIT_BIAS"@,
            ValidationError::ModelNotInAllowedList { .. } => "model_not_found"@,
            ValidationError::StreamingNotSupported => "STREAMING_NOT_SUPPORTED"@,
            ValidationError::ToolsNotSupported => "TOOLS_NOT_SUPPORTED"@,
        }
    }

    /// The number that a range failure rejects, where it is a binary32
    /// number: the caller writes it out for the message.
    pub open spec fn spec_offending_number(self) -> Option<Float32> {
        match self {
            ValidationError::InvalidTemperature(v) => Some(v),
            ValidationError::InvalidTopP(v) => Some(v),
            ValidationError::InvalidFrequencyPenalty(v) => Some(v),
            ValidationError::InvalidPresencePenalty(v) => Some(v),
            _ => None,
        }
    }

    /// The message; `shown` stands where a binary32 number is written out.
    pub open spec fn spec_message(self, shown: Seq<char>) -> Seq<char> {
        match self {
            ValidationError::EmptyMessages => "Messages array cannot be empty"@,
            ValidationError::NoContent => "At least one message must have content or tool calls"@,
            ValidationError::InvalidMaxTokens(v) => "Max tokens must be between 1 and 128000, got "@
                + decimal(v as nat),
            ValidationError::InvalidTemperature(_) =>
                "Temperature must be between 0.0 and 2.0, got "@ + shown,
            ValidationError::InvalidTopP(_) => "Top-p must be between 0.0 and 1.0, got "@ + shown,
            ValidationError::InvalidFrequencyPenalty(_) =>
                "Frequency penalty must be between -2.0 and 2.0, got "@ + shown,
            ValidationError::InvalidPresencePenalty(_) =>
                "Presence penalty must be between -2.0 and 2.0, got "@ + shown,
            ValidationError::InvalidTopLogprobs(v) => "Top logprobs must be between 0 and 20, got "@
                + decimal(v as nat),
            ValidationError::InvalidN(v) => "N (number of choices) must be between 1 and 10, got "@
                + decimal(v as nat),
            ValidationError::InvalidLogitBias { token } => "Logit bias for token '"@ + token@
                + "' must be a number between -100 and 100 under an integer token id"@,
            ValidationError::ModelNotInAllowedList { model, allowed } => "Model '"@ + model@
                + "' is not in the allowed list. Available models: "@ + joined(
                views(allowed@),
                ", "@,
            ),
            ValidationError::StreamingNotSupported =>
                "Streaming is not supported by the current provider"@,
            ValidationError::ToolsNotSupported =>
                "Tool/function calling is not supported by the current provider"@,
        }
    }

    /// `e` is the error body of this failure.
    pub open spec fn is_wire_form(self, e: OpenAIError, shown: Seq<char>) -> bool {
        &&& e.message@ == self.spec_message(shown)
        &&& e.error_type@ == "invalid_request_error"@
        &&& opt_text(e.param) == Some(self.spec_param())
        &&& opt_text(e.code) == Some(self.spec_code())
    }

    /// The number that a range failure rejects, where it is a binary32 number.
    pub fn offending_number(&self) -> (r: Option<Float32>)
        ensures
            r == self.spec_offending_number(),
    {
        match self {
            ValidationError::InvalidTemperature(v) => Some(*v),
            ValidationError::InvalidTopP(v) => Some(*v),
            ValidationError::InvalidFrequencyPenalty(v) => Some(*v),
            ValidationError::InvalidPresencePenalty(v) => Some(*v),
            _ => None,
        }
    }

    /// The request field at fault.
    pub fn param(&self) -> (r: &'static str)
        ensures
            r@ == self.spec_param(),
    {
        match self {
            ValidationError::EmptyMessages => "messages",
            ValidationError::NoContent => "messages",
            ValidationError::InvalidMaxTokens(_) => "max_tokens",
            ValidationError::InvalidTemperature(_) => "temperature",
            ValidationError::InvalidTopP(_) => "top_p",
            ValidationError::InvalidFrequencyPenalty(_) => "frequency_penalty",
            ValidationError::InvalidPresencePenalty(_) => "presence_penalty",
            ValidationError::InvalidTopLogprobs(_) => "top_logprobs",
            ValidationError::InvalidN(_) => "n",
            ValidationError::InvalidLogitBias { .. } => "logit_bias",
            ValidationError::ModelNotInAllowedList { .. } => "model",
            ValidationError::StreamingNotSupported => "stream",
            ValidationError::ToolsNotSupported => "tools",
        }
    }

    /// The code that the body names.
    pub fn code(&self) -> (r: &'static str)
        ensures
            r@ == self.spec_code(),
    {
        match self {
            ValidationError::EmptyMessages => "EMPTY_MESSAGES",
            ValidationError::NoContent => "NO_CONTENT",
            ValidationError::InvalidMaxTokens(_) => "INVALID_MAX_TOKENS",
            ValidationError::InvalidTemperature(_) => "INVALID_TEMPERATURE",
            ValidationError::InvalidTopP(_) => "INVALID_TOP_P",
            ValidationError::InvalidFrequencyPenalty(_) => "INVALID_FREQUENCY_PENALTY",
            ValidationError::InvalidPresencePenalty(_) => "INVALID_PRESENCE_PENALTY",
            ValidationError::InvalidTopLogprobs(_) => "INVALID_TOP_LOGPROBS",
            ValidationError::InvalidN(_) => "INVALID_N",
            ValidationError::InvalidLogitBias { .. } => "INVALID_LOGIT_BIAS",
            ValidationError::ModelNotInAllowedList { .. } => "model_not_found",
            ValidationError::StreamingNotSupported => "STREAMING_NOT_SUPPORTED",
            ValidationError::ToolsNotSupported => "TOOLS_NOT_SUPPORTED",
        }
    }

    /// The message of the failure. `shown` is the decimal form of the
    /// number that `offending_number` gives; no other failure reads it.
    pub fn message(&self, shown: &str) -> (r: String)
        ensures
            r@ == self.spec_message(shown@),
    {
        match self {
            ValidationError::EmptyMessages => String::from_str("Messages array cannot be empty"),
            ValidationError::NoContent => String::from_str(
                "At least one message must have content or tool calls",
            ),
            ValidationError::InvalidMaxTokens(v) => concat2(
                "Max tokens must be between 1 and 128000, got ",
                decimal_text(*v as u64).as_str(),
            ),
            ValidationError::InvalidTemperature(_) => concat2(
                "Temperature must be between 0.0 and 2.0, got ",
                shown,
            ),
            ValidationError::InvalidTopP(_) => concat2(
                "Top-p must be between 0.0 and 1.0, got ",
                shown,
            ),
            ValidationError::InvalidFrequencyPenalty(_) => concat2(
                "Frequency penalty must be between -2.0 and 2.0, got ",
                shown,
            ),
            ValidationError::InvalidPresencePenalty(_) => concat2(
                "Presence penalty must be between -2.0 and 2.0, got ",
                shown,
            ),
            ValidationError::InvalidTopLogprobs(v) => concat2(
                "Top logprobs must be between 0 and 20, got ",
                decimal_text(*v as u64).as_str(),
            ),
            ValidationError::InvalidN(v) => concat2(
                "N (number of choices) must be between 1 and 10, got ",
                decimal_text(*v as u64).as_str(),
            ),
            ValidationError::InvalidLogitBias { token } => concat3(
                "Logit bias for token '",
                token.as_str(),
                "' must be a number between -100 and 100 under an integer token id",
            ),
            ValidationError::ModelNotInAllowedList { model, allowed } => {
                let mut r = concat3(
                    "Model '",
                    model.as_str(),
                    "' is not in the allowed list. Available models: ",
                );
                r.append(join(allowed, ", ").as_str());
                r
            },
            ValidationError::StreamingNotSupported => String::from_str(
                "Streaming is not supported by the current provider",
            ),
            ValidationError::ToolsNotSupported => String::from_str(
                "Tool/function calling is not supported by the current provider",
            ),
        }
    }

    /// The error body of the failure.
    pub fn to_openai_error(&self, shown: &str) -> (r: OpenAIError)
        ensures
            self.is_wire_form(r, shown@),
    {
        OpenAIError {
            message: self.message(shown),
            error_type: String::from_str("invalid_request_error"),
            param: Some(String::from_str(self.param())),
            code: Some(String::from_str(self.code())),
        }
    }
}

} // verus!
