//! The adapter for a local server that speaks the OpenAI wire: its
//! extension parameters, the request body and the reading of a response.

use vstd::prelude::*;
use vstd::string::*;
use crate::codec::{
    decode_completion, decode_model_ids, encode_messages, is_completion, listed_ids,
    reads_completion, writes_messages,
};
use crate::json::{
    find, json_document, lemma_find_concat, parse_json, put, put_opt, Json, Member, Number,
};
use crate::models::{CompletionResponse, ResponseFormat, ResponseMode};
use crate::number::Float32;
use crate::providers::{
    completion_response_with, fresh_completion_id, is_wire_response, unix_seconds_now, usage_of,
    InferenceRequest, InferenceResponse, ProviderError,
};
use crate::text::{concat2, concat3, join, joined, str_eq, views};

verus! {

/// What a value under an extension key has to be.
#[derive(Clone, Copy, Debug, PartialEq, Eq, Structural)]
pub enum ExtensionRule {
    /// An integer above 0.
    PositiveInteger,
    /// An integer that is not negative.
    NonNegativeInteger,
    /// One of 0, 1 and 2.
    MirostatMode,
    /// A number in 0 ..= 1.
    UnitInterval,
    /// A number that is not below 0.
    NonNegativeNumber,
    /// A number above 0.
    PositiveNumber,
    /// A string.
    Text,
    /// A boolean.
    Flag,
}

/// The extension parameters of the adapter, in the order they are listed.
pub open spec fn extension_names() -> Seq<Seq<char>> {
    seq![
        "top_k"@,
        "min_p"@,
        "repeat_penalty"@,
        "mirostat_mode"@,
        "mirostat_tau"@,
        "mirostat_eta"@,
        "grammar"@,
        "cache_prompt"@,
        "n_probs"@,
        "tfs_z"@,
        "typical_p"@,
        "min_tokens"@,
    ]
}

/// The rule for the value under `key`; none for a key the adapter does not
/// know.
pub open spec fn rule_of(key: Seq<char>) -> Option<ExtensionRule> {
    if key == "top_k"@ {
        Some(ExtensionRule::PositiveInteger)
    } else if key == "min_p"@ {
        Some(ExtensionRule::UnitInterval)
    } else if key == "repeat_penalty"@ {
        Some(ExtensionRule::NonNegativeNumber)
    } else if key == "mirostat_mode"@ {
        Some(ExtensionRule::MirostatMode)
    } else if key == "mirostat_tau"@ {
        Some(ExtensionRule::PositiveNumber)
    } else if key == "mirostat_eta"@ {
        Some(ExtensionRule::UnitInterval)
    } else if key == "typical_p"@ {
        Some(ExtensionRule::UnitInterval)
    } else if key == "tfs_z"@ {
        Some(ExtensionRule::NonNegativeNumber)
    } else if key == "min_tokens"@ {
        Some(ExtensionRule::NonNegativeInteger)
    } else if key == "n_probs"@ {
        Some(ExtensionRule::NonNegativeInteger)
    } else if key == "grammar"@ {
        Some(ExtensionRule::Text)
    } else if key == "cache_prompt"@ {
        Some(ExtensionRule::Flag)
    } else {
        None
    }
}

/// Why `value` breaks `rule`; nothing where it keeps it. An integer rule
/// takes integers that fit an `i64`; a number rule takes every JSON number.
pub open spec fn rule_reason(rule: ExtensionRule, value: Json) -> Option<Seq<char>> {
    match rule {
        ExtensionRule::PositiveInteger => match value.spec_as_i64() {
            Some(v) => if v <= 0 {
                Some("must be > 0"@)
            } else {
                None
            },
            None => Some("must be an integer"@),
        },
        ExtensionRule::NonNegativeInteger => match value.spec_as_i64() {
            Some(v) => if v < 0 {
                Some("must be >= 0"@)
            } else {
                None
            },
            None => Some("must be an integer"@),
        },
        ExtensionRule::MirostatMode => match value.spec_as_i64() {
            Some(v) => if v < 0 || v > 2 {
                Some("must be 0, 1, or 2"@)
            } else {
                None
            },
            None => Some("must be an integer"@),
        },
        ExtensionRule::UnitInterval => match value.spec_as_number() {
            Some(n) => if !n.in_unit_interval() {
                Some("must be between 0.0 and 1.0"@)
            } else {
                None
            },
            None => Some("must be a number"@),
        },
        ExtensionRule::NonNegativeNumber => match value.spec_as_number() {
            Some(n) => if n.is_negative() {
                Some("must be >= 0.0"@)
            } else {
                None
            },
            None => Some("must be a number"@),
        },
        ExtensionRule::PositiveNumber => match value.spec_as_number() {
            Some(n) => if !n.is_positive() {
                Some("must be > 0.0"@)
            } else {
                None
            },
            None => Some("must be a number"@),
        },
        ExtensionRule::Text => if value is String {
            None
        } else {
            Some("must be a string"@)
        },
        ExtensionRule::Flag => if value is Bool {
            None
        } else {
            Some("must be a boolean"@)
        },
    }
}

/// What is said of a key the adapter does not know.
pub open spec fn unknown_reason() -> Seq<char> {
    "unknown parameter (supported: "@ + joined(extension_names(), ", "@) + ")"@
}

/// Why the entry is refused; nothing where it is in order.
pub open spec fn extension_reason(entry: Member) -> Option<Seq<char>> {
    match rule_of(entry.key@) {
        Some(rule) => rule_reason(rule, entry.value),
        None => Some(unknown_reason()),
    }
}

/// The first entry from `from` on that is refused.
pub open spec fn first_refused(entries: Seq<Member>, from: int) -> Option<int>
    decreases entries.len() - from,
{
    if from < 0 || from >= entries.len() {
        None
    } else if extension_reason(entries[from]) is Some {
        Some(from)
    } else {
        first_refused(entries, from + 1)
    }
}

/// No entry is refused exactly where `first_refused` finds none, and what
/// it finds is the first.
pub proof fn lemma_first_refused(entries: Seq<Member>, from: int)
    requires
        0 <= from,
    ensures
        match first_refused(entries, from) {
            Some(i) => from <= i < entries.len() && extension_reason(entries[i]) is Some
                && forall|j: int| from <= j < i ==> extension_reason(#[trigger] entries[j]) is None,
            None => forall|j: int|
                from <= j < entries.len() ==> extension_reason(#[trigger] entries[j]) is None,
        },
    decreases entries.len() - from,
{
    if from < entries.len() && extension_reason(entries[from]) is None {
        lemma_first_refused(entries, from + 1);
    }
}

/// The names of the extension parameters.
pub fn supported_extensions() -> (r: Vec<String>)
    ensures
        views(r@) == extension_names(),
{
    let mut r: Vec<String> = Vec::new();
    r.push(String::from_str("top_k"));
    r.push(String::from_str("min_p"));
    r.push(String::from_str("repeat_penalty"));
    r.push(String::from_str("mirostat_mode"));
    r.push(String::from_str("mirostat_tau"));
    r.push(String::from_str("mirostat_eta"));
    r.push(String::from_str("grammar"));
    r.push(String::from_str("cache_prompt"));
    r.push(String::from_str("n_probs"));
    r.push(String::from_str("tfs_z"));
    r.push(String::from_str("typical_p"));
    r.push(String::from_str("min_tokens"));
    assert(views(r@) =~= extension_names());
    r
}

fn find_rule(key: &str) -> (r: Option<ExtensionRule>)
    ensures
        r == rule_of(key@),
{
    if str_eq(key, "top_k") {
        Some(ExtensionRule::PositiveInteger)
    } else if str_eq(key, "min_p") {
        Some(ExtensionRule::UnitInterval)
    } else if str_eq(key, "repeat_penalty") {
        Some(ExtensionRule::NonNegativeNumber)
    } else if str_eq(key, "mirostat_mode") {
        Some(ExtensionRule::MirostatMode)
    } else if str_eq(key, "mirostat_tau") {
        Some(ExtensionRule::PositiveNumber)
    } else if str_eq(key, "mirostat_eta") {
        Some(ExtensionRule::UnitInterval)
    } else if str_eq(key, "typical_p") {
        Some(ExtensionRule::UnitInterval)
    } else if str_eq(key, "tfs_z") {
        Some(ExtensionRule::NonNegativeNumber)
    } else if str_eq(key, "min_tokens") {
        Some(ExtensionRule::NonNegativeInteger)
    } else if str_eq(key, "n_probs") {
        Some(ExtensionRule::NonNegativeInteger)
    } else if str_eq(key, "grammar") {
        Some(ExtensionRule::Text)
    } else if str_eq(key, "cache_prompt") {
        Some(ExtensionRule::Flag)
    } else {
        None
    }
}

fn check_rule(rule: ExtensionRule, value: &Json) -> (r: Option<&'static str>)
    ensures
        match r {
            Some(reason) => rule_reason(rule, *value) == Some(reason@),
            None => rule_reason(rule, *value) is None,
        },
{
    match rule {
        ExtensionRule::PositiveInteger => match value.as_i64() {
            Some(v) => if v <= 0 {
                Some("must be > 0")
            } else {
                None
            },
            None => Some("must be an integer"),
        },
        ExtensionRule::NonNegativeInteger => match value.as_i64() {
            Some(v) => if v < 0 {
                Some("must be >= 0")
            } else {
                None
            },
            None => Some("must be an integer"),
        },
        ExtensionRule::MirostatMode => match value.as_i64() {
            Some(v) => if v < 0 || v > 2 {
                Some("must be 0, 1, or 2")
            } else {
                None
            },
            None => Some("must be an integer"),
        },
        ExtensionRule::UnitInterval => match value.as_number() {
            Some(n) => if !n.is_in_unit_interval() {
                Some("must be between 0.0 and 1.0")
            } else {
                None
            },
            None => Some("must be a number"),
        },
        ExtensionRule::NonNegativeNumber => match value.as_number() {
            Some(n) => if n.below_zero() {
                Some("must be >= 0.0")
            } else {
                None
            },
            None => Some("must be a number"),
        },
        ExtensionRule::PositiveNumber => match value.as_number() {
            Some(n) => if !n.above_zero() {
                Some("must be > 0.0")
            } else {
                None
            },
            None => Some("must be a number"),
        },
        ExtensionRule::Text => if value.is_string() {
            None
        } else {
            Some("must be a string")
        },
        ExtensionRule::Flag => if value.is_boolean() {
            None
        } else {
            Some("must be a boolean")
        },
    }
}

fn check_extension(entry: &Member) -> (r: Option<String>)
    ensures
        match r {
            Some(reason) => extension_reason(*entry) == Some(reason@),
            None => extension_reason(*entry) is None,
        },
{
    match find_rule(entry.key.as_str()) {
        Some(rule) => match check_rule(rule, &entry.value) {
            Some(reason) => Some(String::from_str(reason)),
            None => None,
        },
        None => {
            let names = supported_extensions();
            let list = join(&names, ", ");
            Some(concat3("unknown parameter (supported: ", list.as_str(), ")"))
        },
    }
}

/// Holds each extension parameter against its rule, in the order of the
/// list, and reports the first that is refused.
pub fn validate_lm_studio_extensions(extensions: &Vec<Member>) -> (r: Result<(), ProviderError>)
    ensures
        match first_refused(extensions@, 0) {
            None => r is Ok,
            Some(i) => r matches Err(ProviderError::InvalidExtension { param, reason }) && param
                == extensions@[i].key && extension_reason(extensions@[i]) == Some(reason@),
        },
{
    let mut i: usize = 0;
    while i < extensions.len()
        invariant
            i <= extensions.len(),
            first_refused(extensions@, 0) == first_refused(extensions@, i as int),
        decreases extensions.len() - i,
    {
        match check_extension(&extensions[i]) {
            Some(reason) => {
                return Err(
                    ProviderError::InvalidExtension { param: extensions[i].key.clone(), reason },
                );
            },
            None => {},
        }
        i = i + 1;
    }
    Ok(())
}

/// The token limit sent where the request sets none.
pub const DEFAULT_MAX_TOKENS: u32 = 100;

/// The temperature sent where the request sets none: the binary32 number
/// nearest to 0.7, by its bits.
pub const DEFAULT_TEMPERATURE: u32 = 0x3F33_3333;

/// A key that the body has from the request itself.
pub open spec fn is_body_key(q: Seq<char>) -> bool {
    ||| q == "model"@
    ||| q == "messages"@
    ||| q == "max_tokens"@
    ||| q == "temperature"@
    ||| q == "top_p"@
    ||| q == "frequency_penalty"@
    ||| q == "presence_penalty"@
    ||| q == "stop"@
    ||| q == "seed"@
    ||| q == "user"@
    ||| q == "n"@
    ||| q == "response_format"@
    ||| q == "logit_bias"@
    ||| q == "logprobs"@
    ||| q == "top_logprobs"@
}

/// The member under `key` is the value, and is missing where there is
/// none.
pub open spec fn writes_opt(ms: Seq<Member>, key: Seq<char>, value: Option<Json>) -> bool {
    find(ms, key) == value
}

/// A binary32 number on its way out.
pub open spec fn single(value: Option<Float32>) -> Option<Json> {
    match value {
        Some(v) => Some(Json::Number(Number::Single(v))),
        None => None,
    }
}

/// The documents are the strings, one for one.
pub open spec fn writes_strings(items: Seq<Json>, strings: Seq<String>) -> bool {
    items.len() == strings.len() && forall|i: int|
        0 <= i < items.len() ==> #[trigger] items[i] == Json::String(strings[i])
}

/// The document is the response format written out: an object with the
/// one member `type`.
pub open spec fn writes_format(j: Json, format: ResponseFormat) -> bool {
    j matches Json::Object(fs) && find(fs@, "type"@) == Some(Json::String(format.format_type))
        && forall|q: Seq<char>| #[trigger] find(fs@, q) is Some ==> q == "type"@
}

/// The members that the body has from the request: `model`, `messages`,
/// `max_tokens` and `temperature` always, the last two with their defaults
/// where the request leaves them open, and every other field that is set.
pub open spec fn is_standard_body(base: Seq<Member>, request: InferenceRequest) -> bool {
    &&& find(base, "model"@) == Some(Json::String(request.model))
    &&& find(base, "messages"@) matches Some(Json::Array(items)) && writes_messages(
        items@,
        request.messages@,
    )
    &&& find(base, "max_tokens"@) == Some(
        Json::Number(
            Number::PosInt(
                match request.max_tokens {
                    Some(n) => n as u64,
                    None => DEFAULT_MAX_TOKENS as u64,
                },
            ),
        ),
    )
    &&& find(base, "temperature"@) == Some(
        Json::Number(
            Number::Single(
                match request.temperature {
                    Some(t) => t,
                    None => Float32 { bits: DEFAULT_TEMPERATURE },
                },
            ),
        ),
    )
    &&& find(base, "top_p"@) == single(request.top_p)
    &&& find(base, "frequency_penalty"@) == single(request.frequency_penalty)
    &&& find(base, "presence_penalty"@) == single(request.presence_penalty)
    &&& match request.stop_sequences {
        Some(stop) => find(base, "stop"@) matches Some(Json::Array(items)) && writes_strings(
            items@,
            stop@,
        ),
        None => find(base, "stop"@) is None,
    }
    &&& match request.seed {
        Some(seed) => find(base, "seed"@) == Some(Json::Number(Number::PosInt(seed))),
        None => find(base, "seed"@) is None,
    }
    &&& match request.user {
        Some(user) => find(base, "user"@) == Some(Json::String(user)),
        None => find(base, "user"@) is None,
    }
    &&& match request.n {
        Some(n) => find(base, "n"@) == Some(Json::Number(Number::PosInt(n as u64))),
        None => find(base, "n"@) is None,
    }
    &&& match request.response_format {
        Some(format) => find(base, "response_format"@) matches Some(f) && writes_format(f, format),
        None => find(base, "response_format"@) is None,
    }
    &&& match request.logit_bias {
        Some(bias) => find(base, "logit_bias"@) == Some(Json::Object(bias)),
        None => find(base, "logit_bias"@) is None,
    }
    &&& match request.logprobs {
        Some(flag) => find(base, "logprobs"@) == Some(Json::Bool(flag)),
        None => find(base, "logprobs"@) is None,
    }
    &&& match request.top_logprobs {
        Some(k) => find(base, "top_logprobs"@) == Some(Json::Number(Number::PosInt(k as u64))),
        None => find(base, "top_logprobs"@) is None,
    }
    &&& forall|q: Seq<char>| #[trigger] find(base, q) is Some ==> is_body_key(q)
}

/// The body is the members of the request with the extension parameters
/// after them, so that an extension counts before a field of the same name.
pub open spec fn is_request_members(
    ms: Seq<Member>,
    request: InferenceRequest,
    extensions: Seq<Member>,
) -> bool {
    extensions.len() <= ms.len() && is_standard_body(
        ms.subrange(0, ms.len() - extensions.len()),
        request,
    ) && ms.subrange(ms.len() - extensions.len(), ms.len() as int) == extensions
}

/// The body is an object of the members of the request with the extension
/// parameters after them.
pub open spec fn is_request_body(body: Json, request: InferenceRequest, extensions: Seq<Member>) -> bool {
    body matches Json::Object(ms) && is_request_members(ms@, request, extensions)
}

/// The keys of a request body differ from one another.
pub proof fn lemma_body_keys()
    ensures
        "model"@.len() == 5,
        "messages"@.len() == 8,
        "max_tokens"@.len() == 10,
        "temperature"@.len() == 11,
        "top_p"@.len() == 5,
        "frequency_penalty"@.len() == 17,
        "presence_penalty"@.len() == 16,
        "stop"@.len() == 4,
        "seed"@.len() == 4,
        "user"@.len() == 4,
        "n"@.len() == 1,
        "response_format"@.len() == 15,
        "logit_bias"@.len() == 10,
        "logprobs"@.len() == 8,
        "top_logprobs"@.len() == 12,
        "stream"@.len() == 6,
        "type"@.len() == 4,
        "model"@[0] == 'm',
        "top_p"@[0] == 't',
        "messages"@[0] == 'm',
        "logprobs"@[0] == 'l',
        "max_tokens"@[0] == 'm',
        "logit_bias"@[0] == 'l',
        "stop"@[1] == 't',
        "seed"@[1] == 'e',
        "user"@[0] == 'u',
        "stop"@[0] == 's',
        "seed"@[0] == 's',
        "type"@[0] == 't',
{
    reveal_strlit("model");
    reveal_strlit("messages");
    reveal_strlit("max_tokens");
    reveal_strlit("temperature");
    reveal_strlit("top_p");
    reveal_strlit("frequency_penalty");
    reveal_strlit("presence_penalty");
    reveal_strlit("stop");
    reveal_strlit("seed");
    reveal_strlit("user");
    reveal_strlit("n");
    reveal_strlit("response_format");
    reveal_strlit("logit_bias");
    reveal_strlit("logprobs");
    reveal_strlit("top_logprobs");
    reveal_strlit("stream");
    reveal_strlit("type");
}

/// A binary32 number as a JSON number on its way out.
pub fn single_json(value: Option<Float32>) -> (r: Option<Json>)
    ensures
        r == single(value),
{
    match value {
        Some(v) => Some(Json::Number(Number::Single(v))),
        None => None,
    }
}

/// Writes a list of strings, one document for each.
pub fn strings_json(strings: &Vec<String>) -> (r: Vec<Json>)
    ensures
        writes_strings(r@, strings@),
{
    let mut out: Vec<Json> = Vec::new();
    let mut i: usize = 0;
    while i < strings.len()
        invariant
            i <= strings.len(),
            out@.len() == i,
            forall|k: int| 0 <= k < i ==> #[trigger] out@[k] == Json::String(strings@[k]),
        decreases strings.len() - i,
    {
        out.push(Json::String(strings[i].clone()));
        i = i + 1;
    }
    out
}

/// Writes a response format as a document.
pub fn format_json(format: &ResponseFormat) -> (r: Json)
    ensures
        writes_format(r, *format),
{
    let mut fs: Vec<Member> = Vec::new();
    put(&mut fs, "type", Json::String(format.format_type.clone()));
    Json::Object(fs)
}

fn standard_members(request: InferenceRequest) -> (base: Vec<Member>)
    ensures
        is_standard_body(base@, request),
{
    proof {
        lemma_body_keys();
    }
    let mut ms: Vec<Member> = Vec::new();
    put(&mut ms, "model", Json::String(request.model));
    put(&mut ms, "messages", Json::Array(encode_messages(&request.messages)));
    let max_tokens: u32 = match request.max_tokens {
        Some(n) => n,
        None => DEFAULT_MAX_TOKENS,
    };
    put(&mut ms, "max_tokens", Json::Number(Number::PosInt(max_tokens as u64)));
    let temperature = match request.temperature {
        Some(t) => t,
        None => Float32 { bits: DEFAULT_TEMPERATURE },
    };
    put(&mut ms, "temperature", Json::Number(Number::Single(temperature)));
    put_opt(&mut ms, "top_p", single_json(request.top_p));
    put_opt(&mut ms, "frequency_penalty", single_json(request.frequency_penalty));
    put_opt(&mut ms, "presence_penalty", single_json(request.presence_penalty));
    let stop = match &request.stop_sequences {
        Some(stop) => Some(Json::Array(strings_json(stop))),
        None => None,
    };
    put_opt(&mut ms, "stop", stop);
    let seed = match request.seed {
        Some(seed) => Some(Json::Number(Number::PosInt(seed))),
        None => None,
    };
    put_opt(&mut ms, "seed", seed);
    let user = match request.user {
        Some(user) => Some(Json::String(user)),
        None => None,
    };
    put_opt(&mut ms, "user", user);
    let n = match request.n {
        Some(n) => Some(Json::Number(Number::PosInt(n as u64))),
        None => None,
    };
    put_opt(&mut ms, "n", n);
    let format = match &request.response_format {
        Some(format) => Some(format_json(format)),
        None => None,
    };
    put_opt(&mut ms, "response_format", format);
    let bias = match request.logit_bias {
        Some(bias) => Some(Json::Object(bias)),
        None => None,
    };
    put_opt(&mut ms, "logit_bias", bias);
    let logprobs = match request.logprobs {
        Some(flag) => Some(Json::Bool(flag)),
        None => None,
    };
    put_opt(&mut ms, "logprobs", logprobs);
    let top_logprobs = match request.top_logprobs {
        Some(k) => Some(Json::Number(Number::PosInt(k as u64))),
        None => None,
    };
    put_opt(&mut ms, "top_logprobs", top_logprobs);
    ms
}

/// Builds the body of a chat-completion call: the request's own members,
/// then the extension parameters.
pub fn build_request_body(request: InferenceRequest, extensions: Option<Vec<Member>>) -> (r: Json)
    ensures
        is_request_body(
            r,
            request,
            match extensions {
                Some(e) => e@,
                None => Seq::<Member>::empty(),
            },
        ),
{
    let mut ms = standard_members(request);
    let ghost base = ms@;
    match extensions {
        Some(e) => {
            let mut e = e;
            let ghost added = e@;
            ms.append(&mut e);
            assert(ms@.subrange(0, ms@.len() - added.len()) =~= base);
            assert(ms@.subrange(ms@.len() - added.len(), ms@.len() as int) =~= added);
        },
        None => {
            assert(ms@.subrange(0, ms@.len() as int) =~= base);
            assert(ms@.subrange(ms@.len() as int, ms@.len() as int) =~= Seq::<Member>::empty());
        },
    }
    Json::Object(ms)
}

/// The body with `stream` set to true at the end, where it counts before
/// every earlier member of that name.
pub fn with_stream_flag(body: Json, flag: bool) -> (r: Json)
    ensures
        match body {
            Json::Object(ms) => r matches Json::Object(out) && out@.len() == ms@.len() + 1
                && out@.subrange(0, ms@.len() as int) == ms@ && out@.last().key@ == "stream"@
                && out@.last().value == Json::Bool(flag),
            _ => r == body,
        },
{
    match body {
        Json::Object(ms) => {
            let mut ms = ms;
            put(&mut ms, "stream", Json::Bool(flag));
            Json::Object(ms)
        },
        other => other,
    }
}

/// An extension parameter counts before a field of the request that has
/// its name: a lookup in the body finds the extension where there is one, and
/// the request's own member where there is none.
pub proof fn lemma_extension_counts_first(
    body: Json,
    request: InferenceRequest,
    extensions: Seq<Member>,
    key: Seq<char>,
)
    requires
        is_request_body(body, request, extensions),
    ensures
        body.spec_get(key) == if find(extensions, key) is Some {
            find(extensions, key)
        } else {
            find(body->Object_0@.subrange(0, body->Object_0@.len() - extensions.len()), key)
        },
{
    let ms = body->Object_0@;
    let base = ms.subrange(0, ms.len() - extensions.len());
    assert(ms =~= base + extensions);
    lemma_find_concat(base, extensions, key);
}

/// A response field of the backend's own, kept for the extended mode.
pub open spec fn is_backend_key(q: Seq<char>) -> bool {
    q == "timings"@ || q == "model_info"@ || q == "truncated"@ || q == "slot_id"@
}

/// `data` holds a copy of each backend field that the response has, and
/// nothing else; there is no data where the response has none of them.
pub open spec fn is_captured(response: Json, data: Option<Vec<Member>>) -> bool {
    match data {
        Some(d) => {
            &&& d@.len() > 0
            &&& forall|q: Seq<char>|
                is_backend_key(q) ==> match #[trigger] response.spec_get(q) {
                    Some(v) => find(d@, q) matches Some(w) && v.same(w),
                    None => find(d@, q) is None,
                }
            &&& forall|q: Seq<char>| #[trigger] find(d@, q) is Some ==> is_backend_key(q)
        },
        None => forall|q: Seq<char>| is_backend_key(q) ==> #[trigger] response.spec_get(q) is None,
    }
}

/// The text of a choice: the content of its message, and the empty text
/// where it has no message or no content.
pub open spec fn choice_text(c: CompletionResponse) -> Seq<char> {
    match c.choices@[0].message {
        Some(m) => match m.content {
            Some(t) => t@,
            None => Seq::<char>::empty(),
        },
        None => Seq::<char>::empty(),
    }
}

/// `r` is the neutral form of the first choice of `c`, with `data` as the
/// backend's own data.
pub open spec fn is_first_choice(
    r: InferenceResponse,
    c: CompletionResponse,
    data: Option<Vec<Member>>,
) -> bool {
    &&& r.text@ == choice_text(c)
    &&& r.model_used == c.model
    &&& r.finish_reason == c.choices@[0].finish_reason
    &&& r.total_tokens == (match c.usage {
        Some(u) => u.total_tokens,
        None => None,
    })
    &&& r.prompt_tokens == (match c.usage {
        Some(u) => u.prompt_tokens,
        None => None,
    })
    &&& r.completion_tokens == (match c.usage {
        Some(u) => u.completion_tokens,
        None => None,
    })
    &&& r.latency_ms is None
    &&& r.provider_request_id == Some(c.id)
    &&& r.system_fingerprint == c.system_fingerprint
    &&& r.tool_calls == (match c.choices@[0].message {
        Some(m) => m.tool_calls,
        None => None,
    })
    &&& r.logprobs == c.choices@[0].logprobs
    &&& r.provider_data == data
}

/// What the single-choice path makes of a completion: a failure where the
/// server answered with another model or with no choice, else the neutral form
/// of the first choice.
pub open spec fn is_single_choice_reading(
    r: Result<InferenceResponse, ProviderError>,
    c: CompletionResponse,
    data: Option<Vec<Member>>,
    requested_model: Seq<char>,
) -> bool {
    if c.model@ != requested_model {
        r matches Err(ProviderError::ModelNotAvailable { requested, available }) && requested@
            == requested_model && available@ == seq![c.model]
    } else if c.choices@.len() == 0 {
        r matches Err(ProviderError::InvalidResponse(m)) && m@ == "No choices in response"@
    } else {
        r matches Ok(resp) && is_first_choice(resp, c, data)
    }
}

/// The neutral form of the first choice of a completion.
pub fn first_choice_response(c: CompletionResponse, data: Option<Vec<Member>>) -> (r: Result<
    InferenceResponse,
    ProviderError,
>)
    ensures
        if c.choices@.len() == 0 {
            r matches Err(ProviderError::InvalidResponse(m)) && m@ == "No choices in response"@
        } else {
            r matches Ok(resp) && is_first_choice(resp, c, data)
        },
{
    let mut choices = c.choices;
    if choices.len() == 0 {
        return Err(ProviderError::InvalidResponse(String::from_str("No choices in response")));
    }
    let choice = choices.remove(0);
    let (text, tool_calls) = match choice.message {
        Some(m) => {
            let text = match m.content {
                Some(t) => t,
                None => String::new(),
            };
            (text, m.tool_calls)
        },
        None => (String::new(), None),
    };
    let (total_tokens, prompt_tokens, completion_tokens) = match c.usage {
        Some(u) => (u.total_tokens, u.prompt_tokens, u.completion_tokens),
        None => (None, None, None),
    };
    Ok(
        InferenceResponse {
            text,
            model_used: c.model,
            finish_reason: choice.finish_reason,
            total_tokens,
            prompt_tokens,
            completion_tokens,
            latency_ms: None,
            provider_request_id: Some(c.id),
            system_fingerprint: c.system_fingerprint,
            tool_calls,
            logprobs: choice.logprobs,
            provider_data: data,
        },
    )
}

/// Holds a completion against the requested model and takes its first
/// choice.
pub fn single_choice_response(
    c: CompletionResponse,
    data: Option<Vec<Member>>,
    requested_model: &str,
) -> (r: Result<InferenceResponse, ProviderError>)
    ensures
        is_single_choice_reading(r, c, data, requested_model@),
{
    if !str_eq(c.model.as_str(), requested_model) {
        let mut available: Vec<String> = Vec::new();
        available.push(c.model);
        assert(available@ =~= seq![c.model]);
        return Err(
            ProviderError::ModelNotAvailable {
                requested: String::from_str(requested_model),
                available,
            },
        );
    }
    first_choice_response(c, data)
}

/// On the single-choice path a completion of the requested model comes
/// back as it went in: the wire response made from its neutral form has its
/// id, its model, the text, the finish reason and the tool calls of its first
/// choice, and its token counts.
pub proof fn lemma_single_choice_round_trip(
    c: CompletionResponse,
    data: Option<Vec<Member>>,
    requested_model: Seq<char>,
    reading: Result<InferenceResponse, ProviderError>,
    wire: CompletionResponse,
    mode: Option<ResponseMode>,
    provider_name: Seq<char>,
)
    requires
        is_single_choice_reading(reading, c, data, requested_model),
        c.model@ == requested_model,
        c.choices@.len() > 0,
        reading is Ok ==> is_wire_response(wire, reading->Ok_0, mode, provider_name) && Some(wire.id)
            == reading->Ok_0.provider_request_id,
    ensures
        reading is Ok,
        wire.id == c.id,
        wire.model == c.model,
        wire.choices@[0].message->0.content->0@ == choice_text(c),
        wire.choices@[0].finish_reason == c.choices@[0].finish_reason,
        wire.choices@[0].message->0.tool_calls == (match c.choices@[0].message {
            Some(m) => m.tool_calls,
            None => None,
        }),
        wire.system_fingerprint == c.system_fingerprint,
        wire.usage == (match c.usage {
            Some(u) => usage_of(u.prompt_tokens, u.completion_tokens, u.total_tokens),
            None => None,
        }),
{
}

/// The keys of the backend's own fields differ from one another.
pub proof fn lemma_backend_keys()
    ensures
        "timings"@.len() == 7,
        "model_info"@.len() == 10,
        "truncated"@.len() == 9,
        "slot_id"@.len() == 7,
        "timings"@[0] == 't',
        "slot_id"@[0] == 's',
{
    reveal_strlit("timings");
    reveal_strlit("model_info");
    reveal_strlit("truncated");
    reveal_strlit("slot_id");
}

fn copy_field(response: &Json, key: &str, data: &mut Vec<Member>)
    ensures
        forall|q: Seq<char>| #[trigger]
            find(final(data)@, q) matches Some(w) ==> if q == key@ && response.spec_get(key@) is Some {
                response.spec_get(key@)->0.same(w)
            } else {
                find(old(data)@, q) == Some(w)
            },
        forall|q: Seq<char>| #[trigger]
            find(final(data)@, q) is None ==> find(old(data)@, q) is None && !(q == key@
                && response.spec_get(key@) is Some),
        final(data)@.len() >= old(data)@.len(),
        response.spec_get(key@) is Some ==> final(data)@.len() > 0,
{
    match response.get(key) {
        Some(v) => {
            put(data, key, v.clone());
        },
        None => {},
    }
}

/// Copies the backend's own fields out of a response.
pub fn capture_provider_data(response: &Json) -> (r: Option<Vec<Member>>)
    ensures
        is_captured(*response, r),
{
    proof {
        lemma_backend_keys();
    }
    let mut data: Vec<Member> = Vec::new();
    copy_field(response, "timings", &mut data);
    copy_field(response, "model_info", &mut data);
    copy_field(response, "truncated", &mut data);
    copy_field(response, "slot_id", &mut data);
    if data.len() == 0 {
        None
    } else {
        Some(data)
    }
}

/// What is said of a document that is no chat completion.
pub open spec fn unreadable_reason() -> Seq<char> {
    "Failed to parse response: not a chat completion"@
}

/// The single-choice reading of a response: a failure where the document
/// is no chat completion, else what `is_single_choice_reading` says of the
/// completion it describes, with the backend's own fields captured.
pub open spec fn is_response_reading(
    r: Result<InferenceResponse, ProviderError>,
    response: Json,
    requested_model: Seq<char>,
) -> bool {
    if is_completion(response) {
        exists|c: CompletionResponse, data: Option<Vec<Member>>|
            #![trigger reads_completion(response, c), is_captured(response, data)]
            reads_completion(response, c) && is_captured(response, data)
                && is_single_choice_reading(r, c, data, requested_model)
    } else {
        r matches Err(ProviderError::InvalidResponse(m)) && m@ == unreadable_reason()
    }
}

/// Reads a response on the single-choice path.
pub fn parse_response_body(response: &Json, requested_model: &str) -> (r: Result<
    InferenceResponse,
    ProviderError,
>)
    ensures
        is_response_reading(r, *response, requested_model@),
{
    let data = capture_provider_data(response);
    match decode_completion(response) {
        Some(c) => single_choice_response(c, data, requested_model),
        None => Err(
            ProviderError::InvalidResponse(
                String::from_str("Failed to parse response: not a chat completion"),
            ),
        ),
    }
}

/// An HTTP status of the 2xx class.
pub open spec fn is_success(status: u16) -> bool {
    200 <= status <= 299
}

/// Whether the status is of the 2xx class.
pub fn status_is_success(status: u16) -> (r: bool)
    ensures
        r == is_success(status),
{
    200 <= status && status <= 299
}

/// What the unary path makes of a parsed body. A document that describes
/// a chat completion is handed on as it reads, with every choice. Any other
/// document goes down the single-choice path, which fails on it.
pub open spec fn is_unary_reading(
    r: Result<CompletionResponse, ProviderError>,
    parsed: Result<Json, String>,
) -> bool {
    match parsed {
        Err(e) => r matches Err(ProviderError::InvalidResponse(m)) && m@
            == "Invalid JSON response: "@ + e@,
        Ok(j) => if is_completion(j) {
            r matches Ok(c) && reads_completion(j, c)
        } else {
            r matches Err(ProviderError::InvalidResponse(m)) && m@ == unreadable_reason()
        },
    }
}

/// Reads the parsed body of a unary answer.
pub fn read_unary_body(
    parsed: Result<Json, String>,
    requested_model: &str,
    mode: Option<ResponseMode>,
) -> (r: Result<CompletionResponse, ProviderError>)
    ensures
        is_unary_reading(r, parsed),
{
    match parsed {
        Err(e) => Err(ProviderError::InvalidResponse(concat2("Invalid JSON response: ", e.as_str()))),
        Ok(j) => match decode_completion(&j) {
            Some(c) => Ok(c),
            None => match parse_response_body(&j, requested_model) {
                Ok(neutral) => Ok(
                    completion_response_with(
                        neutral,
                        mode,
                        "lmstudio",
                        fresh_completion_id(),
                        unix_seconds_now(),
                    ),
                ),
                Err(e) => Err(e),
            },
        },
    }
}

/// What a unary call makes of the server's answer: a failure with the
/// status and the body where the status is no success, else the reading of the
/// body.
pub fn interpret_unary(status: u16, body: &str, requested_model: &str, mode: Option<ResponseMode>) -> (r:
    Result<CompletionResponse, ProviderError>)
    ensures
        if !is_success(status) {
            r matches Err(ProviderError::RequestFailed { status: s, message }) && s == status
                && message@ == "LM Studio error: "@ + body@
        } else {
            is_unary_reading(r, json_document(body@))
        },
{
    if !status_is_success(status) {
        return Err(
            ProviderError::RequestFailed { status, message: concat2("LM Studio error: ", body) },
        );
    }
    read_unary_body(parse_json(body), requested_model, mode)
}

/// The path of chat completions under the base URL.
pub fn completions_path() -> (r: &'static str)
    ensures
        r@ == "v1/chat/completions"@,
{
    "v1/chat/completions"
}

/// The path of the listing of models under the base URL.
pub fn models_path() -> (r: &'static str)
    ensures
        r@ == "v1/models"@,
{
    "v1/models"
}

/// What goes out for a request: nothing but a failure where an extension
/// parameter is refused, else the body with the extension parameters after the
/// request's own members, and with `stream` set to true at the very end where
/// the call is a streaming one.
pub open spec fn is_prepared(
    r: Result<Json, ProviderError>,
    request: InferenceRequest,
    extensions: Seq<Member>,
    stream: bool,
) -> bool {
    match first_refused(extensions, 0) {
        Some(i) => r matches Err(ProviderError::InvalidExtension { param, reason }) && param
            == extensions[i].key && extension_reason(extensions[i]) == Some(reason@),
        None => r matches Ok(Json::Object(ms)) && if stream {
            ms@.len() > 0 && ms@.last().key@ == "stream"@ && ms@.last().value == Json::Bool(true)
                && is_request_members(ms@.drop_last(), request, extensions)
        } else {
            is_request_members(ms@, request, extensions)
        },
    }
}

/// Prepares the call for a request: holds the extension parameters
/// against their rules and builds the body.
pub fn prepare_call(request: InferenceRequest, extensions: Option<Vec<Member>>, stream: bool) -> (r:
    Result<Json, ProviderError>)
    ensures
        is_prepared(
            r,
            request,
            match extensions {
                Some(e) => e@,
                None => Seq::<Member>::empty(),
            },
            stream,
        ),
{
    match &extensions {
        Some(e) => match validate_lm_studio_extensions(e) {
            Err(failure) => {
                return Err(failure);
            },
            Ok(()) => {},
        },
        None => {},
    }
    let body = build_request_body(request, extensions);
    if stream {
        let ghost plain = body->Object_0@;
        let out = with_stream_flag(body, true);
        assert(out->Object_0@.drop_last() =~= plain);
        Ok(out)
    } else {
        Ok(body)
    }
}

/// What the answer to a listing of models gives: a failure with the
/// status where that is no success, a failure where the body is no listing,
/// else the ids in their order.
pub open spec fn is_listing_reading(
    r: Result<Vec<String>, ProviderError>,
    status: u16,
    parsed: Result<Json, String>,
) -> bool {
    if !is_success(status) {
        r matches Err(ProviderError::RequestFailed { status: s, message }) && s == status
            && message@ == "Failed to list models"@
    } else {
        match parsed {
            Err(e) => r matches Err(ProviderError::InvalidResponse(m)) && m@
                == "Invalid models response: "@ + e@,
            Ok(j) => match listed_ids(j) {
                Some(ids) => r matches Ok(v) && v@ == ids,
                None => r matches Err(ProviderError::InvalidResponse(m)) && m@
                    == "Invalid models response: not a listing"@,
            },
        }
    }
}

/// Reads the parsed answer to a listing of models.
pub fn read_model_listing(status: u16, parsed: Result<Json, String>) -> (r: Result<
    Vec<String>,
    ProviderError,
>)
    ensures
        is_listing_reading(r, status, parsed),
{
    if !status_is_success(status) {
        return Err(
            ProviderError::RequestFailed {
                status,
                message: String::from_str("Failed to list models"),
            },
        );
    }
    match parsed {
        Err(e) => Err(
            ProviderError::InvalidResponse(concat2("Invalid models response: ", e.as_str())),
        ),
        Ok(j) => match decode_model_ids(&j) {
            Some(ids) => Ok(ids),
            None => Err(
                ProviderError::InvalidResponse(
                    String::from_str("Invalid models response: not a listing"),
                ),
            ),
        },
    }
}

/// Reads the answer to a listing of models.
pub fn list_models(status: u16, body: &str) -> (r: Result<Vec<String>, ProviderError>)
    ensures
        is_listing_reading(r, status, json_document(body@)),
{
    read_model_listing(status, parse_json(body))
}

} // verus!
