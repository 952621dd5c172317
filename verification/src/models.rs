//! The wire models: chat-completion requests, responses, stream chunks and
//! the error body.

use vstd::prelude::*;
use vstd::string::*;
use crate::json::{Json, Member, Number};
use crate::number::Float32;

verus! {

/// Whether a response carries the backend's own data.
#[derive(Clone, Copy, Debug, PartialEq, Eq, Structural)]
pub enum ResponseMode {
    /// The plain OpenAI-compatible response.
    Standard,
    /// The response with the backend's own data beside it.
    Extended,
}

impl Default for ResponseMode {
    fn default() -> (r: ResponseMode)
        ensures
            r == ResponseMode::Standard,
    {
        ResponseMode::Standard
    }
}

/// The backend's own data, as an extended response carries it.
#[derive(Clone, Debug)]
pub struct ProviderExtensions {
    pub provider: String,
    pub data: Vec<Member>,
}

/// A call of a function: its name and its arguments.
#[derive(Clone, Debug)]
pub struct FunctionCall {
    pub name: String,
    /// The arguments as a JSON text.
    pub arguments: String,
}

/// A call of a tool, passed through and never made.
#[derive(Clone, Debug)]
pub struct ToolCall {
    pub id: String,
    pub tool_type: String,
    pub function: FunctionCall,
}

/// A role-tagged utterance.
#[derive(Clone, Debug)]
pub struct Message {
    pub role: String,
    pub content: Option<String>,
    pub name: Option<String>,
    pub tool_calls: Option<Vec<ToolCall>>,
    pub tool_call_id: Option<String>,
    pub function_call: Option<FunctionCall>,
    pub refusal: Option<String>,
}

/// The format that the answer is asked in.
#[derive(Clone, Debug)]
pub struct ResponseFormat {
    pub format_type: String,
}

/// Stop sequences as the wire has them: one string or a list.
#[derive(Clone, Debug)]
pub enum StringOrArray {
    String(String),
    Array(Vec<String>),
}

/// A function that the model may call.
#[derive(Clone, Debug)]
pub struct Function {
    pub name: String,
    pub description: Option<String>,
    /// A JSON Schema.
    pub parameters: Option<Json>,
}

/// A tool that the model may call.
#[derive(Clone, Debug)]
pub struct Tool {
    pub tool_type: String,
    pub function: Function,
}

/// The function that a choice of tool names.
#[derive(Clone, Debug)]
pub struct ToolFunction {
    pub name: String,
}

/// Which tool the model is to call.
#[derive(Clone, Debug)]
pub enum ToolChoice {
    String(String),
    Object { choice_type: String, function: ToolFunction },
}

/// Which function the model is to call.
#[derive(Clone, Debug)]
pub enum FunctionCallOption {
    String(String),
    Object { name: String },
}

/// A chat-completion request.
#[derive(Clone, Debug)]
pub struct CompletionRequest {
    pub messages: Vec<Message>,
    pub model: Option<String>,
    pub response_mode: Option<ResponseMode>,
    /// Parameters of the backend's own, checked by the chosen adapter.
    pub extensions: Option<Vec<Member>>,
    pub frequency_penalty: Option<Float32>,
    /// Token id to bias.
    pub logit_bias: Option<Vec<Member>>,
    pub logprobs: Option<bool>,
    pub top_logprobs: Option<u8>,
    pub max_tokens: Option<u32>,
    pub n: Option<u32>,
    pub presence_penalty: Option<Float32>,
    pub response_format: Option<ResponseFormat>,
    pub seed: Option<u64>,
    pub stop: Option<StringOrArray>,
    pub stream: Option<bool>,
    pub temperature: Option<Float32>,
    pub top_p: Option<Float32>,
    pub tools: Option<Vec<Tool>>,
    pub tool_choice: Option<ToolChoice>,
    pub functions: Option<Vec<Function>>,
    pub function_call: Option<FunctionCallOption>,
    pub user: Option<String>,
}

/// One of the likeliest tokens at a place, with its log probability.
#[derive(Clone, Debug)]
pub struct TopLogProb {
    pub token: String,
    pub logprob: Number,
    pub bytes: Option<Vec<u8>>,
}

/// The log probability of a token, with the likeliest tokens at its place.
#[derive(Clone, Debug)]
pub struct TokenLogProb {
    pub token: String,
    pub logprob: Number,
    pub bytes: Option<Vec<u8>>,
    pub top_logprobs: Vec<TopLogProb>,
}

/// The log probabilities of the tokens of a choice.
#[derive(Clone, Debug)]
pub struct LogProbs {
    pub content: Option<Vec<TokenLogProb>>,
}

/// The token counts of a call.
#[derive(Clone, Copy, Debug, PartialEq, Eq, Structural)]
pub struct Usage {
    pub prompt_tokens: Option<u32>,
    pub completion_tokens: Option<u32>,
    pub total_tokens: Option<u32>,
}

/// One choice of a response.
#[derive(Clone, Debug)]
pub struct Choice {
    pub index: u32,
    pub message: Option<Message>,
    pub delta: Option<Message>,
    pub finish_reason: Option<String>,
    pub logprobs: Option<LogProbs>,
}

/// A chat-completion response.
#[derive(Clone, Debug)]
pub struct CompletionResponse {
    pub id: String,
    pub object: String,
    pub created: u64,
    pub model: String,
    pub choices: Vec<Choice>,
    pub usage: Option<Usage>,
    pub system_fingerprint: Option<String>,
    pub provider_extensions: Option<ProviderExtensions>,
}

/// A piece of a function call in a stream.
#[derive(Clone, Debug)]
pub struct FunctionCallDelta {
    pub name: Option<String>,
    pub arguments: Option<String>,
}

/// A piece of a tool call in a stream.
#[derive(Clone, Debug)]
pub struct ToolCallDelta {
    pub id: Option<String>,
    pub tool_type: Option<String>,
    pub function: Option<FunctionCallDelta>,
}

/// What a chunk adds to the message.
#[derive(Clone, Debug)]
pub struct Delta {
    pub role: Option<String>,
    pub content: Option<String>,
    pub tool_calls: Option<Vec<ToolCallDelta>>,
    pub refusal: Option<String>,
}

/// One choice of a chunk.
#[derive(Clone, Debug)]
pub struct StreamChoice {
    pub index: u32,
    pub delta: Delta,
    pub finish_reason: Option<String>,
    pub logprobs: Option<LogProbs>,
}

/// One chunk of a streamed response.
#[derive(Clone, Debug)]
pub struct StreamChunk {
    pub id: String,
    pub object: String,
    pub created: u64,
    pub model: String,
    pub choices: Vec<StreamChoice>,
    pub system_fingerprint: Option<String>,
    pub usage: Option<Usage>,
}

/// The error of an error body.
#[derive(Clone, Debug)]
pub struct OpenAIError {
    pub message: String,
    pub error_type: String,
    pub param: Option<String>,
    pub code: Option<String>,
}

/// The error body.
#[derive(Clone, Debug)]
pub struct OpenAIErrorResponse {
    pub error: OpenAIError,
}

/// The view of a string that may be absent.
pub open spec fn opt_text(o: Option<String>) -> Option<Seq<char>> {
    match o {
        Some(s) => Some(s@),
        None => None,
    }
}

impl Message {
    /// The message has the role and content given and nothing else.
    pub open spec fn is_text(self, role: Seq<char>, content: Seq<char>) -> bool {
        &&& self.role@ == role
        &&& opt_text(self.content) == Some(content)
        &&& self.name is None
        &&& self.tool_calls is None
        &&& self.tool_call_id is None
        &&& self.function_call is None
        &&& self.refusal is None
    }

    /// A message carries something where it has content, tool calls or the
    /// id of a tool call.
    pub open spec fn carries_something(self) -> bool {
        self.content is Some || self.tool_calls is Some || self.tool_call_id is Some
    }

    /// A plain text message.
    pub fn new(role: &str, content: &str) -> (r: Message)
        ensures
            r.is_text(role@, content@),
    {
        Message {
            role: String::from_str(role),
            content: Some(String::from_str(content)),
            name: None,
            tool_calls: None,
            tool_call_id: None,
            function_call: None,
            refusal: None,
        }
    }

    /// The answer to a tool call.
    pub fn tool_response(tool_call_id: &str, content: &str) -> (r: Message)
        ensures
            r.role@ == "tool"@,
            opt_text(r.content) == Some(content@),
            opt_text(r.tool_call_id) == Some(tool_call_id@),
            r.name is None,
            r.tool_calls is None,
            r.function_call is None,
            r.refusal is None,
    {
        Message {
            role: String::from_str("tool"),
            content: Some(String::from_str(content)),
            name: None,
            tool_calls: None,
            tool_call_id: Some(String::from_str(tool_call_id)),
            function_call: None,
            refusal: None,
        }
    }
}

impl Default for Message {
    /// An assistant message with empty content.
    fn default() -> (r: Message)
        ensures
            r.is_text("assistant"@, Seq::<char>::empty()),
    {
        Message {
            role: String::from_str("assistant"),
            content: Some(String::new()),
            name: None,
            tool_calls: None,
            tool_call_id: None,
            function_call: None,
            refusal: None,
        }
    }
}

impl Choice {
    /// A choice of one assistant message, as a unary response has it.
    pub fn simple(content: &str, finish_reason: &str) -> (r: Choice)
        ensures
            r.index == 0,
            r.message matches Some(m) && m.is_text("assistant"@, content@),
            r.delta is None,
            opt_text(r.finish_reason) == Some(finish_reason@),
            r.logprobs is None,
    {
        Choice {
            index: 0,
            message: Some(Message::new("assistant", content)),
            delta: None,
            finish_reason: Some(String::from_str(finish_reason)),
            logprobs: None,
        }
    }
}

impl Usage {
    /// The usage of a call, with the total as the sum of the two counts.
    pub fn new(prompt: u32, completion: u32) -> (r: Usage)
        requires
            prompt + completion <= u32::MAX,
        ensures
            r.prompt_tokens == Some(prompt),
            r.completion_tokens == Some(completion),
            r.total_tokens == Some((prompt + completion) as u32),
    {
        Usage {
            prompt_tokens: Some(prompt),
            completion_tokens: Some(completion),
            total_tokens: Some(prompt + completion),
        }
    }
}

impl Delta {
    /// The delta adds nothing.
    pub open spec fn is_empty(self) -> bool {
        self.role is None && self.content is None && self.tool_calls is None && self.refusal is None
    }
}

impl Default for Delta {
    fn default() -> (r: Delta)
        ensures
            r.is_empty(),
    {
        Delta { role: None, content: None, tool_calls: None, refusal: None }
    }
}

impl CompletionRequest {
    /// The request has no message and no field set.
    pub open spec fn is_blank(self) -> bool {
        &&& self.messages@.len() == 0
        &&& self.model is None
        &&& self.response_mode is None
        &&& self.extensions is None
        &&& self.frequency_penalty is None
        &&& self.logit_bias is None
        &&& self.logprobs is None
        &&& self.top_logprobs is None
        &&& self.max_tokens is None
        &&& self.n is None
        &&& self.presence_penalty is None
        &&& self.response_format is None
        &&& self.seed is None
        &&& self.stop is None
        &&& self.stream is None
        &&& self.temperature is None
        &&& self.top_p is None
        &&& self.tools is None
        &&& self.tool_choice is None
        &&& self.functions is None
        &&& self.function_call is None
        &&& self.user is None
    }
}

impl Default for CompletionRequest {
    fn default() -> (r: CompletionRequest)
        ensures
            r.is_blank(),
    {
        CompletionRequest {
            messages: Vec::new(),
            model: None,
            response_mode: None,
            extensions: None,
            frequency_penalty: None,
            logit_bias: None,
            logprobs: None,
            top_logprobs: None,
            max_tokens: None,
            n: None,
            presence_penalty: None,
            response_format: None,
            seed: None,
            stop: None,
            stream: None,
            temperature: None,
            top_p: None,
            tools: None,
            tool_choice: None,
            functions: None,
            function_call: None,
            user: None,
        }
    }
}

} // verus!
