//! The adapter for the hosted OpenAI API: the request body, the reading of
//! a response with its error envelopes, and the listing of chat models.

use vstd::prelude::*;
use vstd::string::*;
use crate::codec::{decode_completion, encode_messages, is_completion, reads_completion, writes_messages};
use crate::json::{find, json_document, parse_json, put, put_opt, Json, Member, Number};
use crate::models::CompletionResponse;
use crate::providers::lmstudio::{
    first_choice_response, is_first_choice, is_listing_reading, lemma_body_keys,
    read_model_listing, single, single_json, strings_json, writes_strings,
};
use crate::providers::{InferenceRequest, InferenceResponse, ProviderError};
use crate::text::{concat2, concat3, contains, contains_text, is_prefix, split_whitespace, starts_with, str_eq, views, words};

verus! {

/// A key of the body of a call.
pub open spec fn is_openai_key(q: Seq<char>) -> bool {
    ||| q == "model"@
    ||| q == "messages"@
    ||| q == "max_tokens"@
    ||| q == "temperature"@
    ||| q == "top_p"@
    ||| q == "frequency_penalty"@
    ||| q == "presence_penalty"@
    ||| q == "stop"@
    ||| q == "seed"@
    ||| q == "n"@
    ||| q == "stream"@
}

/// The body of a call: `model` and `messages`, each sampling parameter
/// that is set, one choice, and the stream flag.
pub open spec fn is_openai_body(body: Json, request: InferenceRequest, stream: bool) -> bool {
    body matches Json::Object(ms) && {
        &&& find(ms@, "model"@) == Some(Json::String(request.model))
        &&& find(ms@, "messages"@) matches Some(Json::Array(items)) && writes_messages(
            items@,
            request.messages@,
        )
        &&& match request.max_tokens {
            Some(n) => find(ms@, "max_tokens"@) == Some(Json::Number(Number::PosInt(n as u64))),
            None => find(ms@, "max_tokens"@) is None,
        }
        &&& find(ms@, "temperature"@) == single(request.temperature)
        &&& find(ms@, "top_p"@) == single(request.top_p)
        &&& find(ms@, "frequency_penalty"@) == single(request.frequency_penalty)
        &&& find(ms@, "presence_penalty"@) == single(request.presence_penalty)
        &&& match request.stop_sequences {
            Some(stop) => find(ms@, "stop"@) matches Some(Json::Array(items)) && writes_strings(
                items@,
                stop@,
            ),
            None => find(ms@, "stop"@) is None,
        }
        &&& match request.seed {
            Some(seed) => find(ms@, "seed"@) == Some(Json::Number(Number::PosInt(seed))),
            None => find(ms@, "seed"@) is None,
        }
        &&& find(ms@, "n"@) == Some(Json::Number(Number::PosInt(1)))
        &&& find(ms@, "stream"@) == Some(Json::Bool(stream))
        &&& forall|q: Seq<char>| #[trigger] find(ms@, q) is Some ==> is_openai_key(q)
    }
}

/// Builds the body of a chat-completion call.
pub fn build_request_body(request: InferenceRequest, stream: bool) -> (r: Json)
    ensures
        is_openai_body(r, request, stream),
{
    proof {
        lemma_body_keys();
    }
    let mut ms: Vec<Member> = Vec::new();
    put(&mut ms, "model", Json::String(request.model));
    put(&mut ms, "messages", Json::Array(encode_messages(&request.messages)));
    let max_tokens = match request.max_tokens {
        Some(n) => Some(Json::Number(Number::PosInt(n as u64))),
        None => None,
    };
    put_opt(&mut ms, "max_tokens", max_tokens);
    put_opt(&mut ms, "temperature", single_json(request.temperature));
    put_opt(&mut ms, "top_p", single_json(request.top_p));
    put_opt(&mut ms, "frequency_penalty", single_json(request.frequency_penalty));
    put_opt(&mut ms, "presence_penalty", single_json(request.presence_penalty));
    let stop = match &request.stop_sequences {
        Some(stop) => Some(Json::Array(strings_json(stop))),
        None => None,
    };
    put_opt(&mut ms, "stop", stop);
    let seed = match request.seed {
        Some(seed) => Some(Json::Number(Number::PosInt(seed))),
        None => None,
    };
    put_opt(&mut ms, "seed", seed);
    put(&mut ms, "n", Json::Number(Number::PosInt(1)));
    put(&mut ms, "stream", Json::Bool(stream));
    Json::Object(ms)
}

/// A word that looks like the name of a model.
pub open spec fn is_model_word(w: Seq<char>) -> bool {
    is_prefix("gpt"@, w) || is_prefix("text-"@, w) || is_prefix("davinci"@, w)
}

/// The first of the words that looks like the name of a model.
pub open spec fn first_model_word(ws: Seq<Seq<char>>, from: int) -> Option<Seq<char>>
    decreases ws.len() - from,
{
    if from < 0 || from >= ws.len() {
        None
    } else if is_model_word(ws[from]) {
        Some(ws[from])
    } else {
        first_model_word(ws, from + 1)
    }
}

/// The model that an error message speaks of: its first word that begins
/// with `gpt`, `text-` or `davinci`, and `unknown` where it has none.
pub open spec fn model_in_message(message: Seq<char>) -> Seq<char> {
    match first_model_word(words(message), 0) {
        Some(w) => w,
        None => "unknown"@,
    }
}

/// Finds the model that an error message speaks of.
pub fn extract_model_from_error(error_message: &str) -> (r: String)
    ensures
        r@ == model_in_message(error_message@),
{
    let ws = split_whitespace(error_message);
    let mut i: usize = 0;
    while i < ws.len()
        invariant
            i <= ws.len(),
            views(ws@) == words(error_message@),
            first_model_word(words(error_message@), 0) == first_model_word(
                words(error_message@),
                i as int,
            ),
        decreases ws.len() - i,
    {
        let w = ws[i].as_str();
        assert(views(ws@)[i as int] == ws@[i as int]@);
        if starts_with(w, "gpt") || starts_with(w, "text-") || starts_with(w, "davinci") {
            return ws[i].clone();
        }
        i = i + 1;
    }
    String::from_str("unknown")
}

/// The string under `key` of an error envelope, and `fallback` where
/// there is none.
pub open spec fn envelope_text(error: Json, key: Seq<char>, fallback: Seq<char>) -> Seq<char> {
    match error.spec_get(key) {
        Some(Json::String(s)) => s@,
        _ => fallback,
    }
}

/// The code of an error envelope, and its type where it has no code.
pub open spec fn envelope_code(error: Json) -> Seq<char> {
    match error.spec_get("code"@) {
        Some(Json::String(s)) => s@,
        _ => envelope_text(error, "type"@, "unknown"@),
    }
}

/// `e` is the failure that an error envelope stands for, by its type: a
/// quota or rate limit is a failed request with status 429, an unknown model
/// names the model that the message speaks of, a bad key or organisation is a
/// configuration failure, and any other type a failed request with status 500.
pub open spec fn is_envelope_failure(e: ProviderError, error: Json) -> bool {
    let message = envelope_text(error, "message"@, "Unknown error"@);
    let kind = envelope_text(error, "type"@, "unknown"@);
    if kind == "insufficient_quota"@ || kind == "rate_limit_exceeded"@ {
        e matches ProviderError::RequestFailed { status, message: m } && status == 429 && m@
            == "OpenAI API error: "@ + message
    } else if kind == "model_not_found"@ {
        e matches ProviderError::ModelNotAvailable { requested, available } && requested@
            == model_in_message(message) && available@.len() == 0
    } else if kind == "invalid_api_key"@ || kind == "invalid_organization"@ {
        e matches ProviderError::Configuration(m) && m@ == "Authentication error: "@ + message
    } else {
        e matches ProviderError::RequestFailed { status, message: m } && status == 500 && m@
            == "OpenAI API error ("@ + envelope_code(error) + "): "@ + message
    }
}

fn text_or<'a>(error: &'a Json, key: &str, fallback: &'a str) -> (r: &'a str)
    ensures
        r@ == envelope_text(*error, key@, fallback@),
{
    match error.get(key) {
        Some(Json::String(s)) => s.as_str(),
        _ => fallback,
    }
}

/// The failure that an error envelope stands for.
pub fn envelope_failure(error: &Json) -> (e: ProviderError)
    ensures
        is_envelope_failure(e, *error),
{
    let message = text_or(error, "message", "Unknown error");
    let kind = text_or(error, "type", "unknown");
    if str_eq(kind, "insufficient_quota") || str_eq(kind, "rate_limit_exceeded") {
        ProviderError::RequestFailed { status: 429, message: concat2("OpenAI API error: ", message) }
    } else if str_eq(kind, "model_not_found") {
        ProviderError::ModelNotAvailable {
            requested: extract_model_from_error(message),
            available: Vec::new(),
        }
    } else if str_eq(kind, "invalid_api_key") || str_eq(kind, "invalid_organization") {
        ProviderError::Configuration(concat2("Authentication error: ", message))
    } else {
        let code = match error.get("code") {
            Some(Json::String(s)) => s.as_str(),
            _ => kind,
        };
        let mut m = concat3("OpenAI API error (", code, "): ");
        m.append(message);
        ProviderError::RequestFailed { status: 500, message: m }
    }
}

/// The reading of a response: the neutral form of the first choice where
/// the document describes a chat completion, the failure of its envelope where
/// it has an `error` member, and a failure of its own for anything else.
pub open spec fn is_openai_reading(r: Result<InferenceResponse, ProviderError>, response: Json) -> bool {
    if is_completion(response) {
        exists|c: CompletionResponse| #[trigger]
            reads_completion(response, c) && if c.choices@.len() == 0 {
                r matches Err(ProviderError::InvalidResponse(m)) && m@ == "No choices in response"@
            } else {
                r matches Ok(resp) && is_first_choice(resp, c, None)
            }
    } else {
        match response.spec_get("error"@) {
            Some(error) => r matches Err(e) && is_envelope_failure(e, error),
            None => r matches Err(ProviderError::InvalidResponse(m)) && m@
                == "Unexpected response format from OpenAI"@,
        }
    }
}

/// Reads a response, error envelopes and all.
pub fn parse_response_body(response: &Json) -> (r: Result<InferenceResponse, ProviderError>)
    ensures
        is_openai_reading(r, *response),
{
    match decode_completion(response) {
        Some(c) => first_choice_response(c, None),
        None => match response.get("error") {
            Some(error) => Err(envelope_failure(error)),
            None => Err(
                ProviderError::InvalidResponse(
                    String::from_str("Unexpected response format from OpenAI"),
                ),
            ),
        },
    }
}

/// What a unary call makes of the parsed body, with the time the call
/// took: a failure where the body is no JSON, else the reading of the
/// document with the latency set.
pub open spec fn is_timed_reading(
    r: Result<InferenceResponse, ProviderError>,
    parsed: Result<Json, String>,
    latency_ms: u64,
) -> bool {
    match parsed {
        Err(e) => r matches Err(ProviderError::InvalidResponse(m)) && m@
            == "Invalid JSON response: "@ + e@,
        Ok(j) => match r {
            Ok(resp) => resp.latency_ms == Some(latency_ms) && is_openai_reading(
                Ok(InferenceResponse { latency_ms: None, ..resp }),
                j,
            ),
            Err(e) => is_openai_reading(Err(e), j),
        },
    }
}

/// Reads the parsed body of a unary answer. The status is not looked at:
/// the API answers a failure with an envelope in the body.
pub fn read_response(parsed: Result<Json, String>, latency_ms: u64) -> (r: Result<
    InferenceResponse,
    ProviderError,
>)
    ensures
        is_timed_reading(r, parsed, latency_ms),
{
    match parsed {
        Err(e) => Err(ProviderError::InvalidResponse(concat2("Invalid JSON response: ", e.as_str()))),
        Ok(j) => match parse_response_body(&j) {
            Ok(resp) => {
                let ghost before = resp;
                let mut resp = resp;
                resp.latency_ms = Some(latency_ms);
                assert(InferenceResponse { latency_ms: None, ..resp } == before);
                Ok(resp)
            },
            Err(e) => Err(e),
        },
    }
}

/// What a unary call makes of the body of the answer.
pub fn interpret_response(body: &str, latency_ms: u64) -> (r: Result<InferenceResponse, ProviderError>)
    ensures
        is_timed_reading(r, json_document(body@), latency_ms),
{
    read_response(parse_json(body), latency_ms)
}

/// An id of a chat model: one that holds `gpt`, `turbo` or `davinci`.
pub open spec fn is_chat_model(id: Seq<char>) -> bool {
    contains_text(id, "gpt"@) || contains_text(id, "turbo"@) || contains_text(id, "davinci"@)
}

/// Keeps the ids of chat models, in their order.
pub fn filter_chat_models(ids: Vec<String>) -> (r: Vec<String>)
    ensures
        r@ == ids@.filter(|id: String| is_chat_model(id@)),
{
    let mut out: Vec<String> = Vec::new();
    let mut i: usize = 0;
    let ghost keep = |id: String| is_chat_model(id@);
    proof {
        reveal(Seq::filter);
        assert(ids@.subrange(0, 0).len() == 0);
        assert(ids@.subrange(0, 0).filter(keep) =~= Seq::<String>::empty());
    }
    while i < ids.len()
        invariant
            i <= ids.len(),
            keep == |id: String| is_chat_model(id@),
            out@ == ids@.subrange(0, i as int).filter(keep),
        decreases ids.len() - i,
    {
        let id = ids[i].as_str();
        let ghost head = ids@.subrange(0, i as int);
        proof {
            reveal(Seq::filter);
            let next = ids@.subrange(0, i + 1);
            assert(next.drop_last() =~= head);
            assert(next.last() == ids@[i as int]);
        }
        if contains(id, "gpt") || contains(id, "turbo") || contains(id, "davinci") {
            out.push(ids[i].clone());
        }
        i = i + 1;
    }
    assert(ids@.subrange(0, ids@.len() as int) =~= ids@);
    out
}

/// The path of chat completions under the base URL.
pub fn completions_path() -> (r: &'static str)
    ensures
        r@ == "chat/completions"@,
{
    "chat/completions"
}

/// The path of the listing of models under the base URL.
pub fn models_path() -> (r: &'static str)
    ensures
        r@ == "models"@,
{
    "models"
}

/// Reads the parsed answer to a listing of models and keeps the chat
/// models.
pub fn read_chat_models(status: u16, parsed: Result<Json, String>) -> (r: Result<
    Vec<String>,
    ProviderError,
>)
    ensures
        match r {
            Ok(v) => exists|all: Vec<String>| #[trigger]
                is_listing_reading(Ok(all), status, parsed) && v@ == all@.filter(
                    |id: String| is_chat_model(id@),
                ),
            Err(e) => is_listing_reading(Err(e), status, parsed),
        },
{
    match read_model_listing(status, parsed) {
        Ok(all) => {
            let v = filter_chat_models(all);
            assert(is_listing_reading(Ok(all), status, parsed));
            Ok(v)
        },
        Err(e) => Err(e),
    }
}

/// Reads the answer to a listing of models and keeps the chat models.
pub fn list_models(status: u16, body: &str) -> (r: Result<Vec<String>, ProviderError>)
    ensures
        match r {
            Ok(v) => exists|all: Vec<String>| #[trigger]
                is_listing_reading(Ok(all), status, json_document(body@)) && v@ == all@.filter(
                    |id: String| is_chat_model(id@),
                ),
            Err(e) => is_listing_reading(Err(e), status, json_document(body@)),
        },
{
    read_chat_models(status, parse_json(body))
}

} // verus!
