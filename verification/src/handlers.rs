//! The HTTP surface: the pipeline that a chat-completion request runs
//! through before it reaches an adapter, and the bodies of the other
//! endpoints.

use vstd::prelude::*;
use vstd::string::*;
use crate::config::HttpConfigSchema;
use crate::error::ApiError;
use crate::json::Member;
use crate::models::{CompletionRequest, CompletionResponse, ResponseMode};
use crate::providers::mock::{
    execute, is_mock_reading, MockResponse, MockResponseFile, SelectionMode,
};
use crate::providers::{
    is_wire_response, standard_completion_response, InferenceResponse, ProviderError, ProviderKind,
};
use crate::text::{is_prefix, views};
use crate::validations::{
    determine_model, first_violation, gate_capabilities, is_not_allowed, model_allowed,
    validate_completion_request, validate_model_allowed, ValidationError,
};

verus! {

/// What the pipeline settles for a request: the model to use and whether
/// the answer is a stream.
#[derive(Clone, Debug)]
pub struct CompletionPlan {
    pub model: String,
    pub stream: bool,
}

/// The model that a request resolves to: the one it names, else the
/// default.
pub open spec fn resolved_model(request: CompletionRequest, default_model: Seq<char>) -> Seq<char> {
    match request.model {
        Some(m) => m@,
        None => default_model,
    }
}

/// What the pipeline makes of a request, by the first step that fails:
/// the validator, the allow-list for the resolved model, the capability gate,
/// and the adapter's check of the extension parameters. Where no step fails,
/// the plan names the resolved model and says whether to stream.
pub open spec fn is_pipeline_result(
    r: Result<CompletionPlan, ApiError>,
    request: CompletionRequest,
    default_model: Seq<char>,
    allowed: Option<&Vec<String>>,
    kind: ProviderKind,
) -> bool {
    let model = resolved_model(request, default_model);
    let extensions = match request.extensions {
        Some(e) => e@,
        None => Seq::<Member>::empty(),
    };
    if first_violation(request) is Some {
        r == Err::<CompletionPlan, ApiError>(ApiError::Validation(first_violation(request)->0))
    } else if !model_allowed(model, allowed) {
        r matches Err(ApiError::Validation(e)) && is_not_allowed(e, model, allowed->0@)
    } else if !kind.is_verdict(Ok(()), extensions) {
        r matches Err(ApiError::Provider(e)) && kind.is_verdict(Err(e), extensions)
    } else {
        r matches Ok(plan) && plan.model@ == model && plan.stream == (request.stream == Some(true))
    }
}

/// Runs a request through the pipeline.
pub fn plan_completion(
    request: &CompletionRequest,
    default_model: &str,
    allowed_models: Option<&Vec<String>>,
    kind: ProviderKind,
) -> (r: Result<CompletionPlan, ApiError>)
    ensures
        is_pipeline_result(r, *request, default_model@, allowed_models, kind),
{
    match validate_completion_request(request) {
        Err(e) => {
            return Err(ApiError::Validation(e));
        },
        Ok(()) => {},
    }
    let requested: Option<&str> = match &request.model {
        Some(m) => Some(m.as_str()),
        None => None,
    };
    let model = match determine_model(requested, default_model, allowed_models) {
        Err(e) => {
            return Err(ApiError::Validation(e));
        },
        Ok(m) => m,
    };
    match validate_model_allowed(model, allowed_models) {
        Err(e) => {
            return Err(ApiError::Validation(e));
        },
        Ok(()) => {},
    }
    match gate_capabilities(request, kind.supports_streaming()) {
        Err(e) => {
            return Err(ApiError::Validation(e));
        },
        Ok(()) => {},
    }
    let none: Vec<Member> = Vec::new();
    let extensions: &Vec<Member> = match &request.extensions {
        Some(e) => e,
        None => &none,
    };
    match kind.validate_extensions(extensions) {
        Err(e) => {
            return Err(ApiError::Provider(e));
        },
        Ok(()) => {},
    }
    let stream = match request.stream {
        Some(true) => true,
        _ => false,
    };
    Ok(CompletionPlan { model: String::from_str(model), stream })
}

/// A request passes the allow-list exactly where no list is set or the
/// list holds the model it resolves to: with any other model the pipeline
/// fails, whatever else the request holds.
pub proof fn lemma_allow_list(
    r: Result<CompletionPlan, ApiError>,
    request: CompletionRequest,
    default_model: Seq<char>,
    allowed: Option<&Vec<String>>,
    kind: ProviderKind,
)
    requires
        is_pipeline_result(r, request, default_model, allowed, kind),
    ensures
        model_allowed(resolved_model(request, default_model), allowed) <==> (allowed is None
            || views(allowed->0@).contains(resolved_model(request, default_model))),
        !model_allowed(resolved_model(request, default_model), allowed) ==> r is Err,
        r is Ok ==> first_violation(request) is None && model_allowed(
            resolved_model(request, default_model),
            allowed,
        ),
{
}

/// `r` answers a unary request from the answer `served` of a fixture: it
/// is the wire response for the neutral form of that answer, under the id of
/// the call.
pub open spec fn is_mock_answer(
    r: CompletionResponse,
    scenario: Seq<char>,
    served: MockResponse,
    mode: SelectionMode,
    asked: Option<ResponseMode>,
) -> bool {
    exists|neutral: InferenceResponse| #[trigger]
        is_mock_reading(neutral, scenario, served, mode, r.id) && is_wire_response(
            r,
            neutral,
            asked,
            "mock"@,
        )
}

/// The answer of the mock to a unary request: one completion made from
/// the answer that the mode picks, with the tag of a chat completion, one
/// choice, and an id that begins with `mock-`, the scenario and a hyphen.
pub fn mock_completion(scenario: &str, file: MockResponseFile, request: &CompletionRequest) -> (r:
    CompletionResponse)
    requires
        file.is_valid(),
    ensures
        is_prefix("mock-"@ + scenario@ + "-"@, r.id@),
        r.object@ == "chat.completion"@,
        r.choices@.len() == 1,
        match file.settings.mode {
            SelectionMode::Random => exists|i: int|
                0 <= i < file.responses@.len() && is_mock_answer(
                    r,
                    scenario@,
                    #[trigger] file.responses@[i],
                    file.settings.mode,
                    request.response_mode,
                ),
            _ => is_mock_answer(
                r,
                scenario@,
                file.responses@[0],
                file.settings.mode,
                request.response_mode,
            ),
        },
{
    let ghost fixture = file;
    let neutral = execute(scenario, file);
    let ghost id = neutral.provider_request_id->0;
    let r = standard_completion_response(neutral, request, "mock");
    proof {
        let file = fixture;
        match file.settings.mode {
            SelectionMode::Random => {
                let i = choose|i: int|
                    0 <= i < file.responses@.len() && is_mock_reading(
                        neutral,
                        scenario@,
                        #[trigger] file.responses@[i],
                        file.settings.mode,
                        id,
                    );
                assert(is_mock_reading(
                    neutral,
                    scenario@,
                    file.responses@[i],
                    file.settings.mode,
                    r.id,
                ));
                assert(is_mock_answer(
                    r,
                    scenario@,
                    file.responses@[i],
                    file.settings.mode,
                    request.response_mode,
                ));
            },
            _ => {
                assert(is_mock_reading(
                    neutral,
                    scenario@,
                    file.responses@[0],
                    file.settings.mode,
                    r.id,
                ));
            },
        }
    }
    r
}

/// One model in the listing of models.
#[derive(Clone, Debug)]
pub struct ModelInfo {
    pub id: String,
    pub object: String,
    pub owned_by: String,
}

/// The listing of models.
#[derive(Clone, Debug)]
pub struct ModelsResponse {
    pub object: String,
    pub data: Vec<ModelInfo>,
}

/// Wraps the models of an adapter as a listing: each id as a `model`
/// owned by `local`, in their order.
pub fn models_response(ids: Vec<String>) -> (r: ModelsResponse)
    ensures
        r.object@ == "list"@,
        r.data@.len() == ids@.len(),
        forall|i: int|
            0 <= i < ids@.len() ==> (#[trigger] r.data@[i]).id == ids@[i] && r.data@[i].object@
                == "model"@ && r.data@[i].owned_by@ == "local"@,
{
    let mut data: Vec<ModelInfo> = Vec::new();
    let mut i: usize = 0;
    while i < ids.len()
        invariant
            i <= ids.len(),
            data@.len() == i,
            forall|k: int|
                0 <= k < i ==> (#[trigger] data@[k]).id == ids@[k] && data@[k].object@ == "model"@
                    && data@[k].owned_by@ == "local"@,
        decreases ids.len() - i,
    {
        data.push(
            ModelInfo {
                id: ids[i].clone(),
                object: String::from_str("model"),
                owned_by: String::from_str("local"),
            },
        );
        i = i + 1;
    }
    ModelsResponse { object: String::from_str("list"), data }
}

/// What the health endpoint shows of the HTTP client.
#[derive(Clone, Copy, Debug, PartialEq, Eq, Structural)]
pub struct HttpConfigInfo {
    pub timeout_secs: u64,
    pub connect_timeout_secs: u64,
    pub max_retries: u32,
}

/// The body of the health endpoint.
#[derive(Clone, Debug)]
pub struct HealthResponse {
    pub status: String,
    pub provider: String,
    pub http_config: Option<HttpConfigInfo>,
}

/// The body of the health endpoint for an adapter that is in order.
pub fn health_response(kind: ProviderKind, configured: Option<HttpConfigSchema>) -> (r: HealthResponse)
    ensures
        r.status@ == "healthy"@,
        r.provider@ == kind.spec_name(),
        r.http_config == (match (kind, configured) {
            (ProviderKind::Mock, _) => None,
            (_, Some(c)) => Some(
                HttpConfigInfo {
                    timeout_secs: c.timeout_secs,
                    connect_timeout_secs: c.connect_timeout_secs,
                    max_retries: c.max_retries,
                },
            ),
            (_, None) => None,
        }),
{
    let http_config = match kind.http_config(configured) {
        Some(c) => Some(
            HttpConfigInfo {
                timeout_secs: c.timeout_secs,
                connect_timeout_secs: c.connect_timeout_secs,
                max_retries: c.max_retries,
            },
        ),
        None => None,
    };
    HealthResponse {
        status: String::from_str("healthy"),
        provider: String::from_str(kind.name()),
        http_config,
    }
}

/// The body of the root endpoint.
#[derive(Clone, Debug)]
pub struct RootResponse {
    pub message: String,
}

/// The body of the root endpoint.
pub fn root() -> (r: RootResponse)
    ensures
        r.message@ == "Ok"@,
{
    RootResponse { message: String::from_str("Ok") }
}

/// What a health check of an HTTP adapter makes of the status of the
/// listing of models: a success is health, and any other status a failed
/// request, but that the hosted API's 401 is a bad key.
pub fn health_of_status(kind: ProviderKind, status: u16) -> (r: Result<(), ProviderError>)
    ensures
        if 200 <= status <= 299 {
            r is Ok
        } else if kind == ProviderKind::OpenAI && status == 401 {
            r matches Err(ProviderError::Configuration(m)) && m@ == "Invalid API key"@
        } else {
            r matches Err(ProviderError::RequestFailed { status: s, message }) && s == status
                && message@ == "Health check failed"@
        },
{
    if 200 <= status && status <= 299 {
        Ok(())
    } else if kind == ProviderKind::OpenAI && status == 401 {
        Err(ProviderError::Configuration(String::from_str("Invalid API key")))
    } else {
        Err(
            ProviderError::RequestFailed { status, message: String::from_str("Health check failed") },
        )
    }
}

} // verus!
