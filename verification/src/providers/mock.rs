//! The mock adapter: fixtures of finished answers, read from YAML, served
//! as they are or as a synthesised stream.

use vstd::prelude::*;
use vstd::string::*;
use crate::codec::{
    decode_function_call_field, decode_logprobs_field, decode_tool_calls_field,
    defaulted_text_field, function_call_field, get_defaulted_text, get_opt_u32, get_opt_u64,
    get_text, is_left_out, is_logprobs, lemma_message_round_trip_keys, opt_text_field,
    opt_u32_field, opt_u64_field, reads_logprobs, text_field, tool_calls_field,
};
use crate::json::{find, find_member, parse_yaml, put, yaml_document, Json, Member};
use crate::models::{FunctionCall, LogProbs, StreamChunk, ToolCall};
use crate::providers::{
    build_usage, fresh_uuid, opt_items, unix_seconds_now, usage_of, InferenceResponse,
    ProviderError,
};
use crate::streaming::{is_synthesis, synthesize_chunks};
use crate::text::{
    chars_of, concat2, concat3, is_prefix, is_sorted, skip_chars, sort_strings, starts_with, str_eq,
};

verus! {

/// How a fixture picks the answer to serve.
#[derive(Clone, Copy, Debug, PartialEq, Eq, Structural)]
pub enum SelectionMode {
    /// Always the first answer.
    First,
    /// Serves the first answer: no position is kept between calls.
    Sequential,
    /// Any answer, by chance.
    Random,
}

/// How a fixture serves its answers.
#[derive(Clone, Copy, Debug, PartialEq, Eq, Structural)]
pub struct MockSettings {
    pub mode: SelectionMode,
    /// The pause before each content chunk of a stream, where the answer
    /// sets none of its own.
    pub chunk_delay_ms: u64,
}

/// One finished answer of a fixture.
#[derive(Clone, Debug)]
pub struct MockResponse {
    pub text: String,
    pub model_used: String,
    pub prompt_tokens: Option<u32>,
    pub completion_tokens: Option<u32>,
    pub total_tokens: Option<u32>,
    pub finish_reason: String,
    /// The latency to simulate.
    pub delay_ms: Option<u64>,
    pub system_fingerprint: Option<String>,
    pub tool_calls: Option<Vec<ToolCall>>,
    pub function_call: Option<FunctionCall>,
    pub logprobs: Option<LogProbs>,
}

/// A fixture: the answers of one scenario and how they are served.
#[derive(Clone, Debug)]
pub struct MockResponseFile {
    pub responses: Vec<MockResponse>,
    pub settings: MockSettings,
}

/// The pause between chunks where a fixture sets none.
pub const DEFAULT_CHUNK_DELAY_MS: u64 = 50;

/// The model of an answer that names none.
pub fn default_model() -> (r: String)
    ensures
        r@ == "mock-model"@,
{
    String::from_str("mock-model")
}

/// The finish reason of an answer that names none.
pub fn default_finish_reason() -> (r: String)
    ensures
        r@ == "stop"@,
{
    String::from_str("stop")
}

/// The mode of a fixture that names none.
pub fn default_mode() -> (r: SelectionMode)
    ensures
        r == SelectionMode::First,
{
    SelectionMode::First
}

impl Default for MockSettings {
    fn default() -> (r: MockSettings)
        ensures
            r == (MockSettings { mode: SelectionMode::First, chunk_delay_ms: DEFAULT_CHUNK_DELAY_MS }),
    {
        MockSettings { mode: default_mode(), chunk_delay_ms: DEFAULT_CHUNK_DELAY_MS }
    }
}

impl SelectionMode {
    /// The name of the mode, as the extended response shows it.
    pub open spec fn spec_name(self) -> Seq<char> {
        match self {
            SelectionMode::First => "First"@,
            SelectionMode::Sequential => "Sequential"@,
            SelectionMode::Random => "Random"@,
        }
    }

    /// The name of the mode.
    pub fn name(&self) -> (r: &'static str)
        ensures
            r@ == self.spec_name(),
    {
        match self {
            SelectionMode::First => "First",
            SelectionMode::Sequential => "Sequential",
            SelectionMode::Random => "Random",
        }
    }
}

impl MockResponseFile {
    /// A fixture has an answer.
    pub open spec fn is_valid(self) -> bool {
        self.responses@.len() > 0
    }
}

/// The scenario of a model: what follows `mock-`.
pub open spec fn scenario_of(model: Seq<char>) -> Option<Seq<char>> {
    if is_prefix("mock-"@, model) {
        Some(model.subrange("mock-"@.len() as int, model.len() as int))
    } else {
        None
    }
}

/// Strips `mock-` from the name of a model.
pub fn extract_scenario(model: &str) -> (r: Result<String, ProviderError>)
    ensures
        match scenario_of(model@) {
            Some(scenario) => r matches Ok(s) && s@ == scenario,
            None => r matches Err(ProviderError::Configuration(m)) && m@
                == "Mock provider requires model names starting with 'mock-', got: "@ + model@,
        },
{
    if !starts_with(model, "mock-") {
        return Err(
            ProviderError::Configuration(
                concat2("Mock provider requires model names starting with 'mock-', got: ", model),
            ),
        );
    }
    proof {
        reveal_strlit("mock-");
    }
    Ok(skip_chars(model, 5))
}

/// The mode that a fixture names: `first`, `sequential` or `random`.
pub open spec fn mode_of_name(name: Seq<char>) -> Option<SelectionMode> {
    if name == "first"@ {
        Some(SelectionMode::First)
    } else if name == "sequential"@ {
        Some(SelectionMode::Sequential)
    } else if name == "random"@ {
        Some(SelectionMode::Random)
    } else {
        None
    }
}

/// The settings under `settings`: the defaults where the key is missing,
/// and where it is an object, its `mode` and `chunk_delay_ms`, each with its
/// default.
pub open spec fn settings_of(ms: Seq<Member>) -> Option<MockSettings> {
    match find(ms, "settings"@) {
        None => Some(MockSettings { mode: SelectionMode::First, chunk_delay_ms: 50 }),
        Some(Json::Object(fields)) => match (
            defaulted_text_field(fields@, "mode"@),
            opt_u64_field(fields@, "chunk_delay_ms"@),
        ) {
            (Some(name), Some(delay)) => match (match name {
                Some(n) => mode_of_name(n@),
                None => Some(SelectionMode::First),
            }) {
                Some(mode) => Some(
                    MockSettings {
                        mode,
                        chunk_delay_ms: match delay {
                            Some(d) => d,
                            None => 50,
                        },
                    },
                ),
                None => None,
            },
            _ => None,
        },
        _ => None,
    }
}

/// The document describes an answer: an object with a string `text` and,
/// each of them optional, the strings `model_used`, `finish_reason` and
/// `system_fingerprint`, the three token counts, `delay_ms`, `tool_calls`,
/// `function_call` and `logprobs`.
pub open spec fn is_mock_response(j: Json) -> bool {
    j matches Json::Object(ms) && {
        &&& text_field(ms@, "text"@) is Some
        &&& defaulted_text_field(ms@, "model_used"@) is Some
        &&& opt_u32_field(ms@, "prompt_tokens"@) is Some
        &&& opt_u32_field(ms@, "completion_tokens"@) is Some
        &&& opt_u32_field(ms@, "total_tokens"@) is Some
        &&& defaulted_text_field(ms@, "finish_reason"@) is Some
        &&& opt_u64_field(ms@, "delay_ms"@) is Some
        &&& opt_text_field(ms@, "system_fingerprint"@) is Some
        &&& tool_calls_field(ms@) is Some
        &&& function_call_field(ms@) is Some
        &&& is_left_out(ms@, "logprobs"@) || is_logprobs(find(ms@, "logprobs"@)->0)
    }
}

/// `r` is the answer that the document describes, with `mock-model` and
/// `stop` where it names no model and no finish reason.
pub open spec fn reads_mock_response(j: Json, r: MockResponse) -> bool {
    j matches Json::Object(ms) && {
        &&& text_field(ms@, "text"@) == Some(r.text)
        &&& match defaulted_text_field(ms@, "model_used"@) {
            Some(Some(s)) => r.model_used == s,
            Some(None) => r.model_used@ == "mock-model"@,
            None => false,
        }
        &&& opt_u32_field(ms@, "prompt_tokens"@) == Some(r.prompt_tokens)
        &&& opt_u32_field(ms@, "completion_tokens"@) == Some(r.completion_tokens)
        &&& opt_u32_field(ms@, "total_tokens"@) == Some(r.total_tokens)
        &&& match defaulted_text_field(ms@, "finish_reason"@) {
            Some(Some(s)) => r.finish_reason == s,
            Some(None) => r.finish_reason@ == "stop"@,
            None => false,
        }
        &&& opt_u64_field(ms@, "delay_ms"@) == Some(r.delay_ms)
        &&& opt_text_field(ms@, "system_fingerprint"@) == Some(r.system_fingerprint)
        &&& tool_calls_field(ms@) == Some(opt_items(r.tool_calls))
        &&& function_call_field(ms@) == Some(r.function_call)
        &&& if is_left_out(ms@, "logprobs"@) {
            r.logprobs is None
        } else {
            r.logprobs matches Some(l) && reads_logprobs(find(ms@, "logprobs"@)->0, l)
        }
    }
}

/// The document describes a fixture: an object with the list `responses`
/// of answers and, optional, `settings`.
pub open spec fn is_fixture(j: Json) -> bool {
    j matches Json::Object(ms) && (find(ms@, "responses"@) matches Some(Json::Array(items))
        && forall|i: int| 0 <= i < items@.len() ==> is_mock_response(#[trigger] items@[i]))
        && settings_of(ms@) is Some
}

/// `f` is the fixture that the document describes.
pub open spec fn reads_fixture(j: Json, f: MockResponseFile) -> bool {
    j matches Json::Object(ms) && (find(ms@, "responses"@) matches Some(Json::Array(items))
        && items@.len() == f.responses@.len() && forall|i: int|
        0 <= i < items@.len() ==> reads_mock_response(#[trigger] items@[i], f.responses@[i]))
        && settings_of(ms@) == Some(f.settings)
}

fn decode_mode(name: &str) -> (r: Option<SelectionMode>)
    ensures
        r == mode_of_name(name@),
{
    if str_eq(name, "first") {
        Some(SelectionMode::First)
    } else if str_eq(name, "sequential") {
        Some(SelectionMode::Sequential)
    } else if str_eq(name, "random") {
        Some(SelectionMode::Random)
    } else {
        None
    }
}

fn decode_settings(ms: &Vec<Member>) -> (r: Option<MockSettings>)
    ensures
        r == settings_of(ms@),
{
    match find_member(ms, "settings") {
        None => Some(MockSettings { mode: SelectionMode::First, chunk_delay_ms: 50 }),
        Some(Json::Object(fields)) => {
            let name = get_defaulted_text(fields, "mode");
            let delay = get_opt_u64(fields, "chunk_delay_ms");
            match (name, delay) {
                (Some(name), Some(delay)) => {
                    let mode = match name {
                        Some(n) => decode_mode(n.as_str()),
                        None => Some(SelectionMode::First),
                    };
                    match mode {
                        Some(mode) => Some(
                            MockSettings {
                                mode,
                                chunk_delay_ms: match delay {
                                    Some(d) => d,
                                    None => 50,
                                },
                            },
                        ),
                        None => None,
                    }
                },
                _ => None,
            }
        },
        _ => None,
    }
}

fn decode_mock_response(j: &Json) -> (r: Option<MockResponse>)
    ensures
        match r {
            Some(m) => reads_mock_response(*j, m),
            None => !is_mock_response(*j),
        },
{
    proof {
        lemma_message_round_trip_keys();
    }
    match j {
        Json::Object(ms) => {
            let text = get_text(ms, "text");
            let model_used = get_defaulted_text(ms, "model_used");
            let prompt_tokens = get_opt_u32(ms, "prompt_tokens");
            let completion_tokens = get_opt_u32(ms, "completion_tokens");
            let total_tokens = get_opt_u32(ms, "total_tokens");
            let finish_reason = get_defaulted_text(ms, "finish_reason");
            let delay_ms = get_opt_u64(ms, "delay_ms");
            let system_fingerprint = crate::codec::get_opt_text(ms, "system_fingerprint");
            let tool_calls = decode_tool_calls_field(ms);
            let function_call = decode_function_call_field(ms);
            let logprobs = decode_logprobs_field(ms);
            match (
                text,
                model_used,
                prompt_tokens,
                completion_tokens,
                total_tokens,
                finish_reason,
                delay_ms,
                system_fingerprint,
                tool_calls,
                function_call,
                logprobs,
            ) {
                (
                    Some(text),
                    Some(model_used),
                    Some(prompt_tokens),
                    Some(completion_tokens),
                    Some(total_tokens),
                    Some(finish_reason),
                    Some(delay_ms),
                    Some(system_fingerprint),
                    Some(tool_calls),
                    Some(function_call),
                    Some(logprobs),
                ) => Some(
                    MockResponse {
                        text,
                        model_used: match model_used {
                            Some(s) => s,
                            None => default_model(),
                        },
                        prompt_tokens,
                        completion_tokens,
                        total_tokens,
                        finish_reason: match finish_reason {
                            Some(s) => s,
                            None => default_finish_reason(),
                        },
                        delay_ms,
                        system_fingerprint,
                        tool_calls,
                        function_call,
                        logprobs,
                    },
                ),
                _ => None,
            }
        },
        _ => None,
    }
}

/// Reads a fixture from a document.
pub fn decode_fixture(j: &Json) -> (r: Option<MockResponseFile>)
    ensures
        match r {
            Some(f) => reads_fixture(*j, f),
            None => !is_fixture(*j),
        },
{
    match j {
        Json::Object(ms) => {
            let settings = decode_settings(ms);
            match (find_member(ms, "responses"), settings) {
                (Some(Json::Array(items)), Some(settings)) => {
                    let mut responses: Vec<MockResponse> = Vec::new();
                    let mut i: usize = 0;
                    while i < items.len()
                        invariant
                            i <= items.len(),
                            responses@.len() == i,
                            *j == Json::Object(*ms),
                            find(ms@, "responses"@) == Some(Json::Array(*items)),
                            forall|k: int|
                                0 <= k < i ==> reads_mock_response(
                                    #[trigger] items@[k],
                                    responses@[k],
                                ),
                        decreases items.len() - i,
                    {
                        match decode_mock_response(&items[i]) {
                            Some(m) => {
                                responses.push(m);
                            },
                            None => {
                                assert(!is_fixture(*j)) by {
                                    if is_fixture(*j) {
                                        let its = find(ms@, "responses"@)->0->Array_0;
                                        assert(is_mock_response(its@[i as int]));
                                    }
                                }
                                return None;
                            },
                        }
                        i = i + 1;
                    }
                    Some(MockResponseFile { responses, settings })
                },
                _ => None,
            }
        },
        _ => None,
    }
}

/// What a fixture file gives: a failure where the text is no YAML, where
/// it describes no fixture and where the fixture has no answer, else the
/// fixture. `shown_path` is the path as a message shows it.
pub open spec fn is_fixture_reading(
    r: Result<MockResponseFile, ProviderError>,
    parsed: Result<Json, String>,
    shown_path: Seq<char>,
) -> bool {
    match parsed {
        Err(e) => r matches Err(ProviderError::Configuration(m)) && m@
            == "Failed to parse YAML from "@ + shown_path + ": "@ + e@,
        Ok(j) => if !is_fixture(j) {
            r matches Err(ProviderError::Configuration(m)) && m@ == "Failed to parse YAML from "@
                + shown_path + ": not a fixture"@
        } else if j.spec_get("responses"@)->0->Array_0@.len() == 0 {
            r matches Err(ProviderError::Configuration(m)) && m@ == "No responses defined in "@
                + shown_path
        } else {
            r matches Ok(f) && reads_fixture(j, f) && f.is_valid()
        },
    }
}

/// Reads the parsed text of a fixture file.
pub fn read_fixture(parsed: Result<Json, String>, shown_path: &str) -> (r: Result<
    MockResponseFile,
    ProviderError,
>)
    ensures
        is_fixture_reading(r, parsed, shown_path@),
{
    match parsed {
        Err(e) => {
            let mut m = concat3("Failed to parse YAML from ", shown_path, ": ");
            m.append(e.as_str());
            Err(ProviderError::Configuration(m))
        },
        Ok(j) => match decode_fixture(&j) {
            None => Err(
                ProviderError::Configuration(
                    concat3("Failed to parse YAML from ", shown_path, ": not a fixture"),
                ),
            ),
            Some(f) => {
                if f.responses.len() == 0 {
                    Err(ProviderError::Configuration(concat2("No responses defined in ", shown_path)))
                } else {
                    Ok(f)
                }
            },
        },
    }
}

/// Reads the text of a fixture file.
pub fn load_fixture(contents: &str, shown_path: &str) -> (r: Result<MockResponseFile, ProviderError>)
    ensures
        is_fixture_reading(r, yaml_document(contents@), shown_path@),
{
    read_fixture(parse_yaml(contents), shown_path)
}

/// Which file holds the answers of a scenario.
#[derive(Clone, Debug)]
pub struct FixtureFile {
    /// The name of the file in the directory of fixtures.
    pub file_name: String,
    /// The name under which the fixture is kept once it is read.
    pub cache_key: String,
}

/// Picks the file for a scenario: its own file where that exists, else
/// `default.yaml` where that exists, else a failure. `shown_path` is the path
/// of the scenario's own file as a message shows it.
pub fn choose_fixture_file(
    scenario: &str,
    scenario_file_exists: bool,
    default_file_exists: bool,
    shown_path: &str,
) -> (r: Result<FixtureFile, ProviderError>)
    ensures
        if scenario_file_exists {
            r matches Ok(f) && f.file_name@ == scenario@ + ".yaml"@ && f.cache_key@ == scenario@
        } else if default_file_exists {
            r matches Ok(f) && f.file_name@ == "default.yaml"@ && f.cache_key@ == "default"@
        } else {
            r matches Err(ProviderError::Configuration(m)) && m@
                == "No mock responses found for scenario: "@ + scenario@ + " (looked for "@
                + shown_path@ + ")"@
        },
{
    if scenario_file_exists {
        Ok(
            FixtureFile {
                file_name: concat2(scenario, ".yaml"),
                cache_key: String::from_str(scenario),
            },
        )
    } else if default_file_exists {
        Ok(
            FixtureFile {
                file_name: String::from_str("default.yaml"),
                cache_key: String::from_str("default"),
            },
        )
    } else {
        let mut m = concat3("No mock responses found for scenario: ", scenario, " (looked for ");
        m.append(shown_path);
        m.append(")");
        Err(ProviderError::Configuration(m))
    }
}

/// Holds the directory of fixtures to what the adapter needs of it.
pub fn check_responses_dir(found: bool, is_dir: bool, shown_path: &str) -> (r: Result<
    (),
    ProviderError,
>)
    ensures
        if !found {
            r matches Err(ProviderError::Configuration(m)) && m@
                == "Mock responses directory does not exist: "@ + shown_path@
        } else if !is_dir {
            r matches Err(ProviderError::Configuration(m)) && m@
                == "Mock responses path is not a directory: "@ + shown_path@
        } else {
            r is Ok
        },
{
    if !found {
        Err(
            ProviderError::Configuration(
                concat2("Mock responses directory does not exist: ", shown_path),
            ),
        )
    } else if !is_dir {
        Err(
            ProviderError::Configuration(
                concat2("Mock responses path is not a directory: ", shown_path),
            ),
        )
    } else {
        Ok(())
    }
}

/// Whether the adapter is in order: its directory of fixtures is still
/// there.
pub fn health_check(dir_found: bool, shown_path: &str) -> (r: Result<(), ProviderError>)
    ensures
        if dir_found {
            r is Ok
        } else {
            r matches Err(ProviderError::Configuration(m)) && m@
                == "Mock responses directory no longer exists: "@ + shown_path@
        },
{
    if dir_found {
        Ok(())
    } else {
        Err(
            ProviderError::Configuration(
                concat2("Mock responses directory no longer exists: ", shown_path),
            ),
        )
    }
}

/// A number below `count`, by `rand::rng().random_range(0..count)`. Which
/// number it is depends on chance. An empty range makes `random_range` panic,
/// so `count` has to be above 0; `rng` itself panics where the system gives
/// it no seed, which no argument could rule out.
#[verifier::external_body]
fn random_index(count: usize) -> (r: usize)
    requires
        count > 0,
    ensures
        r < count,
{
    rand::Rng::random_range(&mut rand::rng(), 0..count)
}

/// The index of the answer to serve: 0 for `First` and for `Sequential`,
/// the pick for `Random`.
pub fn select_index(mode: SelectionMode, count: usize, pick: usize) -> (r: usize)
    requires
        count > 0,
        pick < count,
    ensures
        r < count,
        r == (match mode {
            SelectionMode::Random => pick,
            _ => 0,
        }),
{
    match mode {
        SelectionMode::First => 0,
        SelectionMode::Sequential => 0,
        SelectionMode::Random => pick,
    }
}

/// Picks the answer to serve. With `First` and with `Sequential` that is
/// always the first answer, so the same fixture always serves the same.
pub fn select_response(file: &MockResponseFile) -> (r: &MockResponse)
    requires
        file.is_valid(),
    ensures
        match file.settings.mode {
            SelectionMode::Random => exists|i: int|
                0 <= i < file.responses@.len() && *r == #[trigger] file.responses@[i],
            _ => *r == file.responses@[0],
        },
{
    let count = file.responses.len();
    let pick: usize = match file.settings.mode {
        SelectionMode::Random => random_index(count),
        _ => 0,
    };
    let index = select_index(file.settings.mode, count, pick);
    &file.responses[index]
}

/// The id of a call to the mock: `mock-`, the scenario, a hyphen and a
/// UUID.
pub fn mock_request_id(scenario: &str) -> (r: String)
    ensures
        is_prefix("mock-"@ + scenario@ + "-"@, r@),
        r@.len() == ("mock-"@ + scenario@ + "-"@).len() + 36,
{
    let uuid = fresh_uuid();
    let mut r = concat3("mock-", scenario, "-");
    let ghost head = r@;
    r.append(uuid.as_str());
    assert(r@.subrange(0, head.len() as int) =~= head);
    r
}

/// The backend data of the mock: the scenario and the name of the mode.
pub open spec fn is_mock_data(data: Seq<Member>, scenario: Seq<char>, mode: SelectionMode) -> bool {
    &&& data.len() == 2
    &&& data[0].key@ == "scenario"@
    &&& data[0].value matches Json::String(s) && s@ == scenario
    &&& data[1].key@ == "mode"@
    &&& data[1].value matches Json::String(m) && m@ == mode.spec_name()
}

/// `r` is the neutral form of the answer `response` of `scenario`: its
/// fields as they are, its delay as the latency, `request_id` as the id of the
/// call, and the scenario and the mode as the backend's data.
pub open spec fn is_mock_reading(
    r: InferenceResponse,
    scenario: Seq<char>,
    response: MockResponse,
    mode: SelectionMode,
    request_id: String,
) -> bool {
    &&& r.text == response.text
    &&& r.model_used == response.model_used
    &&& r.finish_reason == Some(response.finish_reason)
    &&& r.total_tokens == response.total_tokens
    &&& r.prompt_tokens == response.prompt_tokens
    &&& r.completion_tokens == response.completion_tokens
    &&& r.latency_ms == response.delay_ms
    &&& r.provider_request_id == Some(request_id)
    &&& r.system_fingerprint == response.system_fingerprint
    &&& r.tool_calls == response.tool_calls
    &&& r.logprobs == response.logprobs
    &&& r.provider_data matches Some(data) && is_mock_data(data@, scenario, mode)
}

/// The neutral form of an answer of the mock.
pub fn response_for(
    scenario: &str,
    response: MockResponse,
    mode: SelectionMode,
    request_id: String,
) -> (r: InferenceResponse)
    ensures
        is_mock_reading(r, scenario@, response, mode, request_id),
{
    let mut data: Vec<Member> = Vec::new();
    put(&mut data, "scenario", Json::String(String::from_str(scenario)));
    put(&mut data, "mode", Json::String(String::from_str(mode.name())));
    InferenceResponse {
        text: response.text,
        model_used: response.model_used,
        finish_reason: Some(response.finish_reason),
        total_tokens: response.total_tokens,
        prompt_tokens: response.prompt_tokens,
        completion_tokens: response.completion_tokens,
        latency_ms: response.delay_ms,
        provider_request_id: Some(request_id),
        system_fingerprint: response.system_fingerprint,
        tool_calls: response.tool_calls,
        logprobs: response.logprobs,
        provider_data: Some(data),
    }
}

/// With a mode other than `Random`, two calls of one scenario are served
/// the same answer: their neutral forms agree in everything but the id of the
/// call.
pub proof fn lemma_first_mode_repeats(
    file: MockResponseFile,
    scenario: Seq<char>,
    a: InferenceResponse,
    id_a: String,
    b: InferenceResponse,
    id_b: String,
)
    requires
        file.is_valid(),
        file.settings.mode != SelectionMode::Random,
        is_mock_reading(a, scenario, file.responses@[0], file.settings.mode, id_a),
        is_mock_reading(b, scenario, file.responses@[0], file.settings.mode, id_b),
    ensures
        a.text == b.text,
        a.model_used == b.model_used,
        a.finish_reason == b.finish_reason,
        a.total_tokens == b.total_tokens,
        a.prompt_tokens == b.prompt_tokens,
        a.completion_tokens == b.completion_tokens,
        a.latency_ms == b.latency_ms,
        a.system_fingerprint == b.system_fingerprint,
        a.tool_calls == b.tool_calls,
        a.logprobs == b.logprobs,
        is_mock_data(a.provider_data->0@, scenario, file.settings.mode),
        is_mock_data(b.provider_data->0@, scenario, file.settings.mode),
{
}

/// Takes the answer to serve out of a fixture.
pub fn take_response(file: MockResponseFile) -> (r: MockResponse)
    requires
        file.is_valid(),
    ensures
        match file.settings.mode {
            SelectionMode::Random => exists|i: int|
                0 <= i < file.responses@.len() && r == #[trigger] file.responses@[i],
            _ => r == file.responses@[0],
        },
{
    let mut responses = file.responses;
    let count = responses.len();
    let pick: usize = match file.settings.mode {
        SelectionMode::Random => random_index(count),
        _ => 0,
    };
    let index = select_index(file.settings.mode, count, pick);
    responses.remove(index)
}

/// Serves a call from a fixture: the answer that the mode picks, in
/// neutral form, under a fresh id that begins with `mock-`, the scenario and
/// a hyphen. The pause to make before the answer is its latency.
pub fn execute(scenario: &str, file: MockResponseFile) -> (r: InferenceResponse)
    requires
        file.is_valid(),
    ensures
        r.provider_request_id matches Some(id) && is_prefix("mock-"@ + scenario@ + "-"@, id@) && (
        match file.settings.mode {
            SelectionMode::Random => exists|i: int|
                0 <= i < file.responses@.len() && is_mock_reading(
                    r,
                    scenario@,
                    #[trigger] file.responses@[i],
                    file.settings.mode,
                    id,
                ),
            _ => is_mock_reading(r, scenario@, file.responses@[0], file.settings.mode, id),
        }),
{
    let mode = file.settings.mode;
    let response = take_response(file);
    let request_id = mock_request_id(scenario);
    response_for(scenario, response, mode, request_id)
}

/// A stream to send: the chunks in their order, and the pause to make
/// before each content chunk.
#[derive(Clone, Debug)]
pub struct StreamPlan {
    /// The id that every chunk bears.
    pub request_id: String,
    pub chunks: Vec<StreamChunk>,
    pub delay_ms: u64,
}

/// `plan` streams the answer `response`: the synthesis of its text under
/// `request_id` and its model, closed by its finish reason and its usage, with
/// the answer's own delay between chunks, or the fixture's where it has none.
pub open spec fn is_plan_for(
    plan: StreamPlan,
    response: MockResponse,
    settings: MockSettings,
    request_id: Seq<char>,
) -> bool {
    &&& plan.request_id@ == request_id
    &&& is_synthesis(
        plan.chunks@,
        request_id,
        response.model_used@,
        response.text@,
        response.finish_reason@,
        usage_of(response.prompt_tokens, response.completion_tokens, response.total_tokens),
    )
    &&& plan.delay_ms == (match response.delay_ms {
        Some(d) => d,
        None => settings.chunk_delay_ms,
    })
}

/// The stream for an answer of the mock, with the id of the call and the
/// time of creation handed in.
pub fn plan_for(response: &MockResponse, settings: MockSettings, request_id: &str, created: u64) -> (r:
    StreamPlan)
    ensures
        is_plan_for(r, *response, settings, request_id@),
        forall|i: int| 0 <= i < r.chunks@.len() ==> (#[trigger] r.chunks@[i]).created == created,
{
    let usage = build_usage(
        response.prompt_tokens,
        response.completion_tokens,
        response.total_tokens,
    );
    let chunks = synthesize_chunks(
        request_id,
        response.model_used.as_str(),
        response.text.as_str(),
        response.finish_reason.as_str(),
        usage,
        created,
    );
    let delay_ms = match response.delay_ms {
        Some(d) => d,
        None => settings.chunk_delay_ms,
    };
    StreamPlan { request_id: String::from_str(request_id), chunks, delay_ms }
}

/// Streams a call from a fixture: the answer that the mode picks, as a
/// synthesised stream under one fresh id.
pub fn stream(scenario: &str, file: &MockResponseFile) -> (r: StreamPlan)
    requires
        file.is_valid(),
    ensures
        is_prefix("mock-"@ + scenario@ + "-"@, r.request_id@),
        match file.settings.mode {
            SelectionMode::Random => exists|i: int|
                0 <= i < file.responses@.len() && is_plan_for(
                    r,
                    #[trigger] file.responses@[i],
                    file.settings,
                    r.request_id@,
                ),
            _ => is_plan_for(r, file.responses@[0], file.settings, r.request_id@),
        },
{
    let response = select_response(file);
    let request_id = mock_request_id(scenario);
    plan_for(response, file.settings, request_id.as_str(), unix_seconds_now())
}

/// The place of the last dot in a name.
pub open spec fn last_dot(name: Seq<char>) -> Option<int>
    decreases name.len(),
{
    if name.len() == 0 {
        None
    } else if name.last() == '.' {
        Some(name.len() - 1)
    } else {
        last_dot(name.drop_last())
    }
}

/// The stem of a file name with the extension `yaml`: what stands before
/// the last dot, where that dot is not the first character and `yaml` is all
/// that follows it.
pub open spec fn yaml_stem(name: Seq<char>) -> Option<Seq<char>> {
    match last_dot(name) {
        Some(p) => if p > 0 && name.subrange(p + 1, name.len() as int) == "yaml"@ {
            Some(name.subrange(0, p))
        } else {
            None
        },
        None => None,
    }
}

/// The model that a file of fixtures serves: `mock-` and its stem.
pub open spec fn model_of_file(name: Seq<char>) -> Option<Seq<char>> {
    match yaml_stem(name) {
        Some(stem) => Some("mock-"@ + stem),
        None => None,
    }
}

proof fn lemma_last_dot(name: Seq<char>)
    ensures
        match last_dot(name) {
            Some(p) => 0 <= p < name.len() && name[p] == '.' && forall|k: int|
                p < k < name.len() ==> name[k] != '.',
            None => forall|k: int| 0 <= k < name.len() ==> name[k] != '.',
        },
    decreases name.len(),
{
    if name.len() > 0 && name.last() != '.' {
        let head = name.drop_last();
        lemma_last_dot(head);
        assert forall|k: int| 0 <= k < head.len() implies head[k] == name[k] by {}
    }
}

/// The model that a file of fixtures serves.
pub fn model_for_file(name: &str) -> (r: Option<String>)
    ensures
        match r {
            Some(m) => model_of_file(name@) == Some(m@),
            None => model_of_file(name@) is None,
        },
{
    let chars = chars_of(name);
    let n: usize = chars.len();
    let mut p: usize = n;
    proof {
        lemma_last_dot(name@);
    }
    while p > 0 && chars[p - 1] != '.'
        invariant
            p <= n,
            n == chars.len(),
            chars@ == name@,
            forall|k: int| p <= k < n ==> chars@[k] != '.',
        decreases p,
    {
        p = p - 1;
    }
    if p == 0 {
        return None;
    }
    let dot: usize = p - 1;
    assert(last_dot(name@) == Some(dot as int));
    if dot == 0 {
        return None;
    }
    let ext = name.substring_char(p, n);
    if !str_eq(ext, "yaml") {
        return None;
    }
    let stem = name.substring_char(0, dot);
    Some(concat2("mock-", stem))
}

/// The models in `models` are those of the files in `names`, file by file
/// in their order.
pub open spec fn is_listing(models: Seq<String>, names: Seq<String>, upto: int) -> bool
    decreases upto,
{
    if upto <= 0 {
        models.len() == 0
    } else {
        match model_of_file(names[upto - 1]@) {
            Some(m) => models.len() > 0 && models.last()@ == m && is_listing(
                models.drop_last(),
                names,
                upto - 1,
            ),
            None => is_listing(models, names, upto - 1),
        }
    }
}

/// The models of the files of a directory, in the order of the files.
pub fn model_names(file_names: &Vec<String>) -> (r: Vec<String>)
    ensures
        is_listing(r@, file_names@, file_names@.len() as int),
{
    let mut out: Vec<String> = Vec::new();
    let mut i: usize = 0;
    while i < file_names.len()
        invariant
            i <= file_names.len(),
            is_listing(out@, file_names@, i as int),
        decreases file_names.len() - i,
    {
        match model_for_file(file_names[i].as_str()) {
            Some(m) => {
                let ghost before = out@;
                out.push(m);
                assert(out@.drop_last() =~= before);
            },
            None => {},
        }
        i = i + 1;
    }
    out
}

/// The models that a directory of fixtures serves, sorted: `mock-` and the
/// stem of each file with the extension `yaml`.
pub fn list_models(file_names: &Vec<String>) -> (r: Vec<String>)
    ensures
        is_sorted(r@),
        exists|listing: Seq<String>| #[trigger]
            is_listing(listing, file_names@, file_names@.len() as int) && r@.to_multiset()
                == listing.to_multiset(),
{
    let listing = model_names(file_names);
    sort_strings(&listing)
}

/// One fixture that was read, under the name it is kept by.
#[derive(Clone, Debug)]
pub struct CacheEntry {
    pub key: String,
    pub file: MockResponseFile,
}

/// The fixtures that were read so far. A fixture stays for good once it
/// is in; where a name is put in again, the later fixture counts.
#[derive(Clone, Debug)]
pub struct FixtureCache {
    pub entries: Vec<CacheEntry>,
}

/// The fixture that the last entry under `key` holds.
pub open spec fn cached(entries: Seq<CacheEntry>, key: Seq<char>) -> Option<MockResponseFile>
    decreases entries.len(),
{
    if entries.len() == 0 {
        None
    } else if entries.last().key@ == key {
        Some(entries.last().file)
    } else {
        cached(entries.drop_last(), key)
    }
}

impl FixtureCache {
    /// Every fixture in the cache has an answer.
    pub open spec fn is_valid(self) -> bool {
        forall|i: int| 0 <= i < self.entries@.len() ==> (#[trigger] self.entries@[i]).file.is_valid()
    }

    /// The fixture kept under `key`.
    pub open spec fn spec_get(self, key: Seq<char>) -> Option<MockResponseFile> {
        cached(self.entries@, key)
    }

    /// A cache with nothing in it.
    pub fn new() -> (r: FixtureCache)
        ensures
            r.is_valid(),
            forall|key: Seq<char>| r.spec_get(key) is None,
    {
        FixtureCache { entries: Vec::new() }
    }

    /// The fixture kept under `key`.
    pub fn get(&self, key: &str) -> (r: Option<&MockResponseFile>)
        requires
            self.is_valid(),
        ensures
            match r {
                Some(f) => self.spec_get(key@) == Some(*f) && f.is_valid(),
                None => self.spec_get(key@) is None,
            },
    {
        let mut i: usize = self.entries.len();
        assert(self.entries@.subrange(0, i as int) =~= self.entries@);
        while i > 0
            invariant
                i <= self.entries.len(),
                self.is_valid(),
                cached(self.entries@, key@) == cached(self.entries@.subrange(0, i as int), key@),
            decreases i,
        {
            let ghost head = self.entries@.subrange(0, i as int);
            assert(head.last() == self.entries@[i - 1]);
            assert(head.drop_last() =~= self.entries@.subrange(0, i - 1));
            if str_eq(self.entries[i - 1].key.as_str(), key) {
                return Some(&self.entries[i - 1].file);
            }
            i = i - 1;
        }
        assert(self.entries@.subrange(0, 0).len() == 0);
        None
    }

    /// Keeps a fixture under `key`. What is kept under other names stays.
    pub fn insert(&mut self, key: &str, file: MockResponseFile)
        requires
            old(self).is_valid(),
            file.is_valid(),
        ensures
            final(self).is_valid(),
            forall|q: Seq<char>| #[trigger]
                final(self).spec_get(q) == if q == key@ {
                    Some(file)
                } else {
                    old(self).spec_get(q)
                },
    {
        let ghost before = self.entries@;
        self.entries.push(CacheEntry { key: String::from_str(key), file });
        assert(self.entries@.drop_last() =~= before);
    }
}

} // verus!
