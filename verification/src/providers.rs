//! The provider contract: the neutral request and response that every
//! adapter works on, the failures an adapter can report, and the helpers the
//! adapters share.

use vstd::prelude::*;
use vstd::string::*;
use crate::config::{HttpConfigSchema, InferenceProvider};
use crate::json::Member;
use crate::models::{
    opt_text, Choice, CompletionRequest, CompletionResponse, Delta, LogProbs, Message,
    ProviderExtensions, ResponseFormat, ResponseMode, StreamChoice, StreamChunk, StringOrArray,
    ToolCall, Usage,
};
use crate::number::Float32;
use crate::text::{
    concat2, concat3, copy_strings, is_prefix, join, joined, list_contains, split_whitespace, views,
    words,
};

pub mod lmstudio;
pub mod mock;
pub mod openai;

verus! {

/// The validated request in the form every adapter understands.
#[derive(Clone, Debug)]
pub struct InferenceRequest {
    pub messages: Vec<Message>,
    /// The model, with the default already resolved.
    pub model: String,
    pub max_tokens: Option<u32>,
    pub temperature: Option<Float32>,
    pub top_p: Option<Float32>,
    pub frequency_penalty: Option<Float32>,
    pub presence_penalty: Option<Float32>,
    /// The stop sequences as a list, whatever form the wire had.
    pub stop_sequences: Option<Vec<String>>,
    pub seed: Option<u64>,
    pub stream: Option<bool>,
    pub n: Option<u32>,
    pub logprobs: Option<bool>,
    pub top_logprobs: Option<u8>,
    pub user: Option<String>,
    pub response_format: Option<ResponseFormat>,
    pub logit_bias: Option<Vec<Member>>,
}

/// What an adapter hands back, in neutral form.
#[derive(Clone, Debug)]
pub struct InferenceResponse {
    pub text: String,
    pub model_used: String,
    pub finish_reason: Option<String>,
    pub total_tokens: Option<u32>,
    pub prompt_tokens: Option<u32>,
    pub completion_tokens: Option<u32>,
    pub latency_ms: Option<u64>,
    pub provider_request_id: Option<String>,
    pub system_fingerprint: Option<String>,
    pub tool_calls: Option<Vec<ToolCall>>,
    pub logprobs: Option<LogProbs>,
    /// The backend's own response fields, kept for the extended mode.
    pub provider_data: Option<Vec<Member>>,
}

/// The failures an adapter can report.
#[derive(Clone, Debug)]
pub enum ProviderError {
    ConnectionFailed(String),
    InvalidResponse(String),
    ModelNotAvailable { requested: String, available: Vec<String> },
    RequestFailed { status: u16, message: String },
    Timeout,
    Configuration(String),
    StreamingNotSupported,
    StreamError(String),
    InvalidExtension { param: String, reason: String },
}

/// The seconds since the Unix epoch, by `std::time::SystemTime::now`; 0
/// where the clock stands before the epoch. Nothing is promised of a
/// reading of the clock.
#[verifier::external_body]
pub(crate) fn unix_seconds_now() -> (r: u64)
{
    std::time::SystemTime::now().duration_since(std::time::UNIX_EPOCH).map_or(0, |d| d.as_secs())
}

/// A fresh version 7 UUID from `uuid::Uuid::now_v7`, written out by its
/// `Display`: the hyphenated form, which has 36 characters. Which UUID it is
/// depends on the clock and on chance. On a machine whose clock stands before
/// the Unix epoch `now_v7` panics; no argument could rule that out.
#[verifier::external_body]
pub(crate) fn fresh_uuid() -> (r: String)
    ensures
        r@.len() == 36,
{
    uuid::Uuid::now_v7().to_string()
}

/// The id of a response whose backend gave none: `chatcmpl-` and a UUID.
pub fn fresh_completion_id() -> (r: String)
    ensures
        is_prefix("chatcmpl-"@, r@),
        r@.len() == "chatcmpl-"@.len() + 36,
{
    let uuid = fresh_uuid();
    let r = concat2("chatcmpl-", uuid.as_str());
    assert(r@.subrange(0, "chatcmpl-"@.len() as int) =~= "chatcmpl-"@);
    r
}

/// The stop sequences as a list: nothing for nothing, one string as a list
/// of one, a list as it is.
pub open spec fn normalized_stop(stop: Option<StringOrArray>) -> Option<Seq<String>> {
    match stop {
        None => None,
        Some(StringOrArray::String(s)) => Some(seq![s]),
        Some(StringOrArray::Array(a)) => Some(a@),
    }
}

/// The items of a list that may be absent.
pub open spec fn opt_items<T>(list: Option<Vec<T>>) -> Option<Seq<T>> {
    match list {
        Some(v) => Some(v@),
        None => None,
    }
}

/// Lifts the stop sequences of the wire to a list.
pub fn normalize_stop_sequences(stop: &Option<StringOrArray>) -> (r: Option<Vec<String>>)
    ensures
        opt_items(r) == normalized_stop(*stop),
{
    match stop {
        None => None,
        Some(StringOrArray::String(s)) => {
            let mut v: Vec<String> = Vec::new();
            v.push(s.clone());
            assert(v@ =~= seq![*s]);
            Some(v)
        },
        Some(StringOrArray::Array(a)) => Some(copy_strings(a)),
    }
}

/// The neutral form of `request` for the model `model`: a copy field by
/// field, with the stop sequences as a list.
pub open spec fn is_neutral_form(r: InferenceRequest, request: CompletionRequest, model: Seq<char>) -> bool {
    &&& r.messages == request.messages
    &&& r.model@ == model
    &&& r.max_tokens == request.max_tokens
    &&& r.temperature == request.temperature
    &&& r.top_p == request.top_p
    &&& r.frequency_penalty == request.frequency_penalty
    &&& r.presence_penalty == request.presence_penalty
    &&& opt_items(r.stop_sequences) == normalized_stop(request.stop)
    &&& r.seed == request.seed
    &&& r.stream == request.stream
    &&& r.n == request.n
    &&& r.logprobs == request.logprobs
    &&& r.top_logprobs == request.top_logprobs
    &&& r.user == request.user
    &&& r.response_format == request.response_format
    &&& r.logit_bias == request.logit_bias
}

/// Builds the neutral request from the wire request and the resolved model.
pub fn build_inference_request(request: CompletionRequest, model: &str) -> (r: InferenceRequest)
    ensures
        is_neutral_form(r, request, model@),
{
    let stop_sequences = normalize_stop_sequences(&request.stop);
    InferenceRequest {
        messages: request.messages,
        model: String::from_str(model),
        max_tokens: request.max_tokens,
        temperature: request.temperature,
        top_p: request.top_p,
        frequency_penalty: request.frequency_penalty,
        presence_penalty: request.presence_penalty,
        stop_sequences,
        seed: request.seed,
        stream: request.stream,
        n: request.n,
        logprobs: request.logprobs,
        top_logprobs: request.top_logprobs,
        user: request.user,
        response_format: request.response_format,
        logit_bias: request.logit_bias,
    }
}

/// The usage of a response: present where any of the three counts is.
pub open spec fn usage_of(prompt: Option<u32>, completion: Option<u32>, total: Option<u32>) -> Option<
    Usage,
> {
    if prompt is Some || completion is Some || total is Some {
        Some(Usage { prompt_tokens: prompt, completion_tokens: completion, total_tokens: total })
    } else {
        None
    }
}

/// Puts the usage of a response together.
pub fn build_usage(prompt: Option<u32>, completion: Option<u32>, total: Option<u32>) -> (r: Option<
    Usage,
>)
    ensures
        r == usage_of(prompt, completion, total),
{
    if prompt.is_some() || completion.is_some() || total.is_some() {
        Some(Usage { prompt_tokens: prompt, completion_tokens: completion, total_tokens: total })
    } else {
        None
    }
}

/// An extended response carries the backend's data where the request asks
/// for the extended mode and the data has an entry.
pub open spec fn emits_extensions(mode: Option<ResponseMode>, data: Option<Vec<Member>>) -> bool {
    mode == Some(ResponseMode::Extended) && (data matches Some(d) && d@.len() > 0)
}

/// `r` is the wire response for `response`: one choice with the assistant's
/// message, the usage where a count is present, and the backend's data under
/// `provider_name` where `emits_extensions` holds. The id and the time of
/// creation are left open.
pub open spec fn is_wire_response(
    r: CompletionResponse,
    response: InferenceResponse,
    mode: Option<ResponseMode>,
    provider_name: Seq<char>,
) -> bool {
    &&& r.object@ == "chat.completion"@
    &&& r.model == response.model_used
    &&& r.choices@.len() == 1
    &&& r.choices@[0].index == 0
    &&& r.choices@[0].delta is None
    &&& r.choices@[0].finish_reason == response.finish_reason
    &&& r.choices@[0].logprobs == response.logprobs
    &&& r.choices@[0].message matches Some(m) && {
        &&& m.role@ == "assistant"@
        &&& m.content == Some(response.text)
        &&& m.tool_calls == response.tool_calls
        &&& m.name is None
        &&& m.tool_call_id is None
        &&& m.function_call is None
        &&& m.refusal is None
    }
    &&& r.usage == usage_of(
        response.prompt_tokens,
        response.completion_tokens,
        response.total_tokens,
    )
    &&& r.system_fingerprint == response.system_fingerprint
    &&& if emits_extensions(mode, response.provider_data) {
        r.provider_extensions matches Some(e) && e.provider@ == provider_name && Some(e.data)
            == response.provider_data
    } else {
        r.provider_extensions is None
    }
}

/// A response that the gateway puts together has the tag of a chat
/// completion and one choice; its id is the backend's where that gave one,
/// and begins with `chatcmpl-` where it gave none.
pub proof fn lemma_unary_response_shape(
    r: CompletionResponse,
    response: InferenceResponse,
    mode: Option<ResponseMode>,
    provider_name: Seq<char>,
)
    requires
        is_wire_response(r, response, mode, provider_name),
        match response.provider_request_id {
            Some(id) => r.id == id,
            None => is_prefix("chatcmpl-"@, r.id@),
        },
    ensures
        r.object@ == "chat.completion"@,
        r.choices@.len() >= 1,
        is_prefix("chatcmpl-"@, r.id@) || Some(r.id) == response.provider_request_id,
{
}

/// A wire response carries the backend's data exactly where the request
/// asks for the extended mode and the data has an entry.
pub proof fn lemma_extensions_iff(
    r: CompletionResponse,
    response: InferenceResponse,
    mode: Option<ResponseMode>,
    provider_name: Seq<char>,
)
    requires
        is_wire_response(r, response, mode, provider_name),
    ensures
        r.provider_extensions is Some <==> mode == Some(ResponseMode::Extended)
            && response.provider_data is Some && response.provider_data->0@.len() > 0,
{
}

/// The wire response for a neutral response, with the id to use where the
/// backend gave none and the time of creation handed in.
pub fn completion_response_with(
    response: InferenceResponse,
    mode: Option<ResponseMode>,
    provider_name: &str,
    fallback_id: String,
    created: u64,
) -> (r: CompletionResponse)
    ensures
        is_wire_response(r, response, mode, provider_name@),
        r.created == created,
        r.id == (match response.provider_request_id {
            Some(id) => id,
            None => fallback_id,
        }),
{
    let usage = build_usage(
        response.prompt_tokens,
        response.completion_tokens,
        response.total_tokens,
    );
    let message = Message {
        role: String::from_str("assistant"),
        content: Some(response.text),
        name: None,
        tool_calls: response.tool_calls,
        tool_call_id: None,
        function_call: None,
        refusal: None,
    };
    let choice = Choice {
        index: 0,
        message: Some(message),
        delta: None,
        finish_reason: response.finish_reason,
        logprobs: response.logprobs,
    };
    let extended = match mode {
        Some(ResponseMode::Extended) => true,
        _ => false,
    };
    let provider_extensions = match response.provider_data {
        Some(data) => {
            if extended && data.len() > 0 {
                Some(ProviderExtensions { provider: String::from_str(provider_name), data })
            } else {
                None
            }
        },
        None => None,
    };
    let id = match response.provider_request_id {
        Some(id) => id,
        None => fallback_id,
    };
    let mut choices: Vec<Choice> = Vec::new();
    choices.push(choice);
    CompletionResponse {
        id,
        object: String::from_str("chat.completion"),
        created,
        model: response.model_used,
        choices,
        usage,
        system_fingerprint: response.system_fingerprint,
        provider_extensions,
    }
}

/// The wire response for a neutral response. The id is the backend's where
/// it gave one, else `chatcmpl-` and a fresh UUID; the time of creation is the
/// clock's.
pub fn standard_completion_response(
    response: InferenceResponse,
    request: &CompletionRequest,
    provider_name: &str,
) -> (r: CompletionResponse)
    ensures
        is_wire_response(r, response, request.response_mode, provider_name@),
        match response.provider_request_id {
            Some(id) => r.id == id,
            None => is_prefix("chatcmpl-"@, r.id@),
        },
{
    let fallback_id = fresh_completion_id();
    let created = unix_seconds_now();
    completion_response_with(
        response,
        request.response_mode,
        provider_name,
        fallback_id,
        created,
    )
}

/// The tokens of a text for streaming: each word with one space after it.
pub open spec fn stream_tokens(text: Seq<char>) -> Seq<Seq<char>> {
    words(text).map_values(|w: Seq<char>| w + " "@)
}

/// Cuts a text into the tokens that a synthesised stream sends.
pub fn tokenize_for_streaming(text: &str) -> (r: Vec<String>)
    ensures
        views(r@) == stream_tokens(text@),
{
    let parts = split_whitespace(text);
    let mut r: Vec<String> = Vec::new();
    let mut i: usize = 0;
    while i < parts.len()
        invariant
            i <= parts.len(),
            views(parts@) == words(text@),
            views(r@) == stream_tokens(text@).subrange(0, i as int),
        decreases parts.len() - i,
    {
        let token = concat2(parts[i].as_str(), " ");
        assert(views(parts@)[i as int] == parts@[i as int]@);
        assert(stream_tokens(text@)[i as int] == words(text@)[i as int] + " "@);
        let ghost before = views(r@);
        r.push(token);
        assert(views(r@) =~= before.push(token@));
        i = i + 1;
        assert(views(r@) =~= stream_tokens(text@).subrange(0, i as int));
    }
    assert(stream_tokens(text@).subrange(0, parts.len() as int) =~= stream_tokens(text@));
    r
}

/// What all chunks of one stream share: id, model, the object tag and one
/// choice with index 0.
pub open spec fn is_chunk_of(c: StreamChunk, id: Seq<char>, model: Seq<char>) -> bool {
    &&& c.id@ == id
    &&& c.object@ == "chat.completion.chunk"@
    &&& c.model@ == model
    &&& c.system_fingerprint is None
    &&& c.choices@.len() == 1
    &&& c.choices@[0].index == 0
    &&& c.choices@[0].logprobs is None
    &&& c.choices@[0].delta.tool_calls is None
    &&& c.choices@[0].delta.refusal is None
}

/// The chunk that opens a stream: the role and no content.
pub open spec fn is_first_chunk(c: StreamChunk, id: Seq<char>, model: Seq<char>, role: Seq<char>) -> bool {
    &&& is_chunk_of(c, id, model)
    &&& opt_text(c.choices@[0].delta.role) == Some(role)
    &&& c.choices@[0].delta.content is None
    &&& c.choices@[0].finish_reason is None
    &&& c.usage is None
}

/// A chunk in the middle of a stream: content and nothing else.
pub open spec fn is_content_chunk(
    c: StreamChunk,
    id: Seq<char>,
    model: Seq<char>,
    content: Seq<char>,
) -> bool {
    &&& is_chunk_of(c, id, model)
    &&& c.choices@[0].delta.role is None
    &&& opt_text(c.choices@[0].delta.content) == Some(content)
    &&& c.choices@[0].finish_reason is None
    &&& c.usage is None
}

/// The chunk that closes a stream: the finish reason, an empty delta, and
/// the usage where there is one.
pub open spec fn is_final_chunk(
    c: StreamChunk,
    id: Seq<char>,
    model: Seq<char>,
    finish_reason: Seq<char>,
    usage: Option<Usage>,
) -> bool {
    &&& is_chunk_of(c, id, model)
    &&& c.choices@[0].delta.is_empty()
    &&& opt_text(c.choices@[0].finish_reason) == Some(finish_reason)
    &&& c.usage == usage
}

fn chunk_with(
    id: &str,
    model: &str,
    delta: Delta,
    finish_reason: Option<String>,
    usage: Option<Usage>,
    created: u64,
) -> (r: StreamChunk)
    ensures
        r.id@ == id@,
        r.object@ == "chat.completion.chunk"@,
        r.model@ == model@,
        r.created == created,
        r.system_fingerprint is None,
        r.usage == usage,
        r.choices@.len() == 1,
        r.choices@[0].index == 0,
        r.choices@[0].logprobs is None,
        r.choices@[0].delta == delta,
        r.choices@[0].finish_reason == finish_reason,
{
    let mut choices: Vec<StreamChoice> = Vec::new();
    choices.push(StreamChoice { index: 0, delta, finish_reason, logprobs: None });
    StreamChunk {
        id: String::from_str(id),
        object: String::from_str("chat.completion.chunk"),
        created,
        model: String::from_str(model),
        choices,
        system_fingerprint: None,
        usage,
    }
}

/// The opening chunk, created at the time handed in.
pub fn first_chunk_at(id: &str, model: &str, role: &str, created: u64) -> (r: StreamChunk)
    ensures
        is_first_chunk(r, id@, model@, role@),
        r.created == created,
{
    let delta = Delta {
        role: Some(String::from_str(role)),
        content: None,
        tool_calls: None,
        refusal: None,
    };
    chunk_with(id, model, delta, None, None, created)
}

/// A content chunk, created at the time handed in.
pub fn content_chunk_at(id: &str, model: &str, content: &str, created: u64) -> (r: StreamChunk)
    ensures
        is_content_chunk(r, id@, model@, content@),
        r.created == created,
{
    let delta = Delta {
        role: None,
        content: Some(String::from_str(content)),
        tool_calls: None,
        refusal: None,
    };
    chunk_with(id, model, delta, None, None, created)
}

/// The closing chunk, created at the time handed in.
pub fn final_chunk_at(
    id: &str,
    model: &str,
    finish_reason: &str,
    usage: Option<Usage>,
    created: u64,
) -> (r: StreamChunk)
    ensures
        is_final_chunk(r, id@, model@, finish_reason@, usage),
        r.created == created,
{
    let delta = Delta { role: None, content: None, tool_calls: None, refusal: None };
    chunk_with(id, model, delta, Some(String::from_str(finish_reason)), usage, created)
}

/// The opening chunk of a stream, created now.
pub fn create_first_chunk(id: &str, model: &str, role: &str) -> (r: StreamChunk)
    ensures
        is_first_chunk(r, id@, model@, role@),
{
    first_chunk_at(id, model, role, unix_seconds_now())
}

/// A content chunk, created now.
pub fn create_content_chunk(id: &str, model: &str, content: &str) -> (r: StreamChunk)
    ensures
        is_content_chunk(r, id@, model@, content@),
{
    content_chunk_at(id, model, content, unix_seconds_now())
}

/// The closing chunk of a stream, created now.
pub fn create_final_chunk(id: &str, model: &str, finish_reason: &str, usage: Option<Usage>) -> (r:
    StreamChunk)
    ensures
        is_final_chunk(r, id@, model@, finish_reason@, usage),
{
    final_chunk_at(id, model, finish_reason, usage, unix_seconds_now())
}

/// The keys of a list of members, in their order.
pub open spec fn keys_of(entries: Seq<Member>) -> Seq<Seq<char>> {
    entries.map_values(|m: Member| m.key@)
}

/// The first entry from `from` on whose key is not in `supported`.
pub open spec fn first_unsupported(entries: Seq<Member>, supported: Seq<Seq<char>>, from: int) -> Option<int>
    decreases entries.len() - from,
{
    if from < 0 || from >= entries.len() {
        None
    } else if !supported.contains(entries[from].key@) {
        Some(from)
    } else {
        first_unsupported(entries, supported, from + 1)
    }
}

/// What the default policy says of a list of extension parameters: all of
/// them are refused at once where the adapter supports none, and else the
/// first whose key the adapter does not support.
pub open spec fn is_default_verdict(
    r: Result<(), ProviderError>,
    entries: Seq<Member>,
    supported: Seq<Seq<char>>,
    provider: Seq<char>,
) -> bool {
    if supported.len() == 0 && entries.len() > 0 {
        r matches Err(ProviderError::InvalidExtension { param, reason }) && param@ == joined(
            keys_of(entries),
            ", "@,
        ) && reason@ == "Provider '"@ + provider + "' does not support any extensions"@
    } else {
        match first_unsupported(entries, supported, 0) {
            Some(i) => r matches Err(ProviderError::InvalidExtension { param, reason }) && param
                == entries[i].key && reason@ == "Not supported by provider '"@ + provider
                + "'. Supported extensions: "@ + joined(supported, ", "@),
            None => r is Ok,
        }
    }
}

fn keys(entries: &Vec<Member>) -> (r: Vec<String>)
    ensures
        views(r@) == keys_of(entries@),
{
    let mut out: Vec<String> = Vec::new();
    let mut i: usize = 0;
    while i < entries.len()
        invariant
            i <= entries.len(),
            out@.len() == i,
            forall|k: int| 0 <= k < i ==> (#[trigger] out@[k])@ == entries@[k].key@,
        decreases entries.len() - i,
    {
        out.push(entries[i].key.clone());
        i = i + 1;
    }
    assert(views(out@) =~= keys_of(entries@));
    out
}

/// The default policy for extension parameters: every key that the
/// adapter does not list is refused.
pub fn validate_extensions_default(
    extensions: &Vec<Member>,
    supported: &Vec<String>,
    provider_name: &str,
) -> (r: Result<(), ProviderError>)
    ensures
        is_default_verdict(r, extensions@, views(supported@), provider_name@),
{
    if supported.len() == 0 && extensions.len() > 0 {
        let names = keys(extensions);
        return Err(
            ProviderError::InvalidExtension {
                param: join(&names, ", "),
                reason: concat3("Provider '", provider_name, "' does not support any extensions"),
            },
        );
    }
    let mut i: usize = 0;
    while i < extensions.len()
        invariant
            i <= extensions.len(),
            !(supported@.len() == 0 && extensions@.len() > 0),
            first_unsupported(extensions@, views(supported@), 0) == first_unsupported(
                extensions@,
                views(supported@),
                i as int,
            ),
        decreases extensions.len() - i,
    {
        if !list_contains(supported, extensions[i].key.as_str()) {
            let mut reason = concat3(
                "Not supported by provider '",
                provider_name,
                "'. Supported extensions: ",
            );
            reason.append(join(supported, ", ").as_str());
            return Err(
                ProviderError::InvalidExtension { param: extensions[i].key.clone(), reason },
            );
        }
        i = i + 1;
    }
    Ok(())
}

/// The adapters that the gateway has.
#[derive(Clone, Copy, Debug, PartialEq, Eq, Structural)]
pub enum ProviderKind {
    /// A local server that speaks the OpenAI wire.
    LMStudio,
    /// The hosted OpenAI API.
    OpenAI,
    /// Fixtures from files.
    Mock,
}

impl ProviderKind {
    /// The name that stands for the adapter in logs and in an extended
    /// response.
    pub open spec fn spec_name(self) -> Seq<char> {
        match self {
            ProviderKind::LMStudio => "lmstudio"@,
            ProviderKind::OpenAI => "openai"@,
            ProviderKind::Mock => "mock"@,
        }
    }

    /// The extension parameters that the adapter knows.
    pub open spec fn spec_supported_extensions(self) -> Seq<Seq<char>> {
        match self {
            ProviderKind::LMStudio => lmstudio::extension_names(),
            _ => Seq::<Seq<char>>::empty(),
        }
    }

    /// What the adapter says of a list of extension parameters: the local
    /// server holds each against its rule, and the other two refuse them all.
    pub open spec fn is_verdict(self, r: Result<(), ProviderError>, entries: Seq<Member>) -> bool {
        match self {
            ProviderKind::LMStudio => match lmstudio::first_refused(entries, 0) {
                None => r is Ok,
                Some(i) => r matches Err(ProviderError::InvalidExtension { param, reason }) && param
                    == entries[i].key && lmstudio::extension_reason(entries[i]) == Some(reason@),
            },
            _ => is_default_verdict(r, entries, Seq::<Seq<char>>::empty(), self.spec_name()),
        }
    }

    /// The name of the adapter.
    pub fn name(&self) -> (r: &'static str)
        ensures
            r@ == self.spec_name(),
    {
        match self {
            ProviderKind::LMStudio => "lmstudio",
            ProviderKind::OpenAI => "openai",
            ProviderKind::Mock => "mock",
        }
    }

    /// Every adapter can stream.
    pub fn supports_streaming(&self) -> (r: bool)
        ensures
            r,
    {
        true
    }

    /// The names of the extension parameters that the adapter knows.
    pub fn supported_extensions(&self) -> (r: Vec<String>)
        ensures
            views(r@) == self.spec_supported_extensions(),
    {
        match self {
            ProviderKind::LMStudio => lmstudio::supported_extensions(),
            _ => {
                let r: Vec<String> = Vec::new();
                assert(views(r@) =~= Seq::<Seq<char>>::empty());
                r
            },
        }
    }

    /// Holds the extension parameters of a request against the adapter.
    pub fn validate_extensions(&self, extensions: &Vec<Member>) -> (r: Result<(), ProviderError>)
        ensures
            self.is_verdict(r, extensions@),
    {
        match self {
            ProviderKind::LMStudio => lmstudio::validate_lm_studio_extensions(extensions),
            _ => {
                let none: Vec<String> = Vec::new();
                assert(views(none@) =~= Seq::<Seq<char>>::empty());
                validate_extensions_default(extensions, &none, self.name())
            },
        }
    }

    /// The settings of the adapter's HTTP client; none for an adapter that
    /// makes no calls.
    pub fn http_config(&self, configured: Option<HttpConfigSchema>) -> (r: Option<HttpConfigSchema>)
        ensures
            r == (match self {
                ProviderKind::Mock => None,
                _ => configured,
            }),
    {
        match self {
            ProviderKind::Mock => None,
            _ => configured,
        }
    }
}

/// The adapter for the backend that the configuration selects. The
/// reserved backend has none.
pub fn select_adapter(provider: &InferenceProvider) -> (r: Result<ProviderKind, ProviderError>)
    ensures
        match *provider {
            InferenceProvider::LMStudio => r == Ok::<ProviderKind, ProviderError>(
                ProviderKind::LMStudio,
            ),
            InferenceProvider::OpenAI { .. } => r == Ok::<ProviderKind, ProviderError>(
                ProviderKind::OpenAI,
            ),
            InferenceProvider::Mock { .. } => r == Ok::<ProviderKind, ProviderError>(
                ProviderKind::Mock,
            ),
            InferenceProvider::Triton { .. } => r matches Err(ProviderError::Configuration(m)) && m@
                == "Triton provider not yet implemented"@,
        },
{
    match provider {
        InferenceProvider::LMStudio => Ok(ProviderKind::LMStudio),
        InferenceProvider::OpenAI { .. } => Ok(ProviderKind::OpenAI),
        InferenceProvider::Mock { .. } => Ok(ProviderKind::Mock),
        InferenceProvider::Triton { .. } => Err(
            ProviderError::Configuration(String::from_str("Triton provider not yet implemented")),
        ),
    }
}

} // verus!
