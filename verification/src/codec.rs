//! The JSON form of the wire models: how a document is read as a model and
//! how a model is written as a document.

use vstd::prelude::*;
use vstd::string::*;
use crate::json::{find, find_member, put, same_members, Json, Member, Number};
use crate::models::{
    Choice, CompletionResponse, Delta, FunctionCall, FunctionCallDelta, LogProbs, Message,
    ProviderExtensions, StreamChoice, StreamChunk, TokenLogProb, ToolCall, ToolCallDelta,
    TopLogProb, Usage,
};
use crate::providers::opt_items;

verus! {

/// The string under `key`; nothing where the key is missing or holds
/// something else.
pub open spec fn text_field(ms: Seq<Member>, key: Seq<char>) -> Option<String> {
    match find(ms, key) {
        Some(Json::String(s)) => Some(s),
        _ => None,
    }
}

/// The string under `key` that may be left out: a missing key and `null`
/// read as no string, a string as itself, and anything else does not read.
pub open spec fn opt_text_field(ms: Seq<Member>, key: Seq<char>) -> Option<Option<String>> {
    match find(ms, key) {
        None => Some(None),
        Some(Json::Null) => Some(None),
        Some(Json::String(s)) => Some(Some(s)),
        _ => None,
    }
}

/// The number under `key` as a `u64`.
pub open spec fn u64_field(ms: Seq<Member>, key: Seq<char>) -> Option<u64> {
    match find(ms, key) {
        Some(Json::Number(Number::PosInt(n))) => Some(n),
        _ => None,
    }
}

/// The number under `key` as a `u32`.
pub open spec fn u32_field(ms: Seq<Member>, key: Seq<char>) -> Option<u32> {
    match find(ms, key) {
        Some(Json::Number(Number::PosInt(n))) => if n <= u32::MAX {
            Some(n as u32)
        } else {
            None
        },
        _ => None,
    }
}

/// The `u32` under `key` that may be left out.
pub open spec fn opt_u32_field(ms: Seq<Member>, key: Seq<char>) -> Option<Option<u32>> {
    match find(ms, key) {
        None => Some(None),
        Some(Json::Null) => Some(None),
        Some(Json::Number(Number::PosInt(n))) => if n <= u32::MAX {
            Some(Some(n as u32))
        } else {
            None
        },
        _ => None,
    }
}

/// The `u64` under `key` that may be left out.
pub open spec fn opt_u64_field(ms: Seq<Member>, key: Seq<char>) -> Option<Option<u64>> {
    match find(ms, key) {
        None => Some(None),
        Some(Json::Null) => Some(None),
        Some(Json::Number(Number::PosInt(n))) => Some(Some(n)),
        _ => None,
    }
}

/// The string under `key` of a field that has a default: a missing key
/// reads as no string, and `null` does not read.
pub open spec fn defaulted_text_field(ms: Seq<Member>, key: Seq<char>) -> Option<Option<String>> {
    match find(ms, key) {
        None => Some(None),
        Some(Json::String(s)) => Some(Some(s)),
        _ => None,
    }
}

/// The value under `key` is missing or `null`.
pub open spec fn is_left_out(ms: Seq<Member>, key: Seq<char>) -> bool {
    find(ms, key) is None || find(ms, key) == Some(Json::Null)
}

/// Reads the string under `key`.
pub fn get_text(ms: &Vec<Member>, key: &str) -> (r: Option<String>)
    ensures
        r == text_field(ms@, key@),
{
    match find_member(ms, key) {
        Some(Json::String(s)) => Some(s.clone()),
        _ => None,
    }
}

/// Reads the string under `key` that may be left out.
pub fn get_opt_text(ms: &Vec<Member>, key: &str) -> (r: Option<Option<String>>)
    ensures
        r == opt_text_field(ms@, key@),
{
    match find_member(ms, key) {
        None => Some(None),
        Some(Json::Null) => Some(None),
        Some(Json::String(s)) => Some(Some(s.clone())),
        _ => None,
    }
}

/// Reads the `u64` under `key` that may be left out.
pub fn get_opt_u64(ms: &Vec<Member>, key: &str) -> (r: Option<Option<u64>>)
    ensures
        r == opt_u64_field(ms@, key@),
{
    match find_member(ms, key) {
        None => Some(None),
        Some(Json::Null) => Some(None),
        Some(Json::Number(Number::PosInt(n))) => Some(Some(*n)),
        _ => None,
    }
}

/// Reads the string under `key` of a field that has a default.
pub fn get_defaulted_text(ms: &Vec<Member>, key: &str) -> (r: Option<Option<String>>)
    ensures
        r == defaulted_text_field(ms@, key@),
{
    match find_member(ms, key) {
        None => Some(None),
        Some(Json::String(s)) => Some(Some(s.clone())),
        _ => None,
    }
}

/// Reads the number under `key` as a `u64`.
pub fn get_u64(ms: &Vec<Member>, key: &str) -> (r: Option<u64>)
    ensures
        r == u64_field(ms@, key@),
{
    match find_member(ms, key) {
        Some(Json::Number(Number::PosInt(n))) => Some(*n),
        _ => None,
    }
}

/// Reads the number under `key` as a `u32`.
pub fn get_u32(ms: &Vec<Member>, key: &str) -> (r: Option<u32>)
    ensures
        r == u32_field(ms@, key@),
{
    match find_member(ms, key) {
        Some(Json::Number(Number::PosInt(n))) => {
            if *n <= 0xFFFF_FFFF {
                Some(*n as u32)
            } else {
                None
            }
        },
        _ => None,
    }
}

/// Reads the `u32` under `key` that may be left out.
pub fn get_opt_u32(ms: &Vec<Member>, key: &str) -> (r: Option<Option<u32>>)
    ensures
        r == opt_u32_field(ms@, key@),
{
    match find_member(ms, key) {
        None => Some(None),
        Some(Json::Null) => Some(None),
        Some(Json::Number(Number::PosInt(n))) => {
            if *n <= 0xFFFF_FFFF {
                Some(Some(*n as u32))
            } else {
                None
            }
        },
        _ => None,
    }
}

/// The function call that a document describes: an object with the
/// strings `name` and `arguments`.
pub open spec fn function_call_of(j: Json) -> Option<FunctionCall> {
    match j {
        Json::Object(ms) => match (text_field(ms@, "name"@), text_field(ms@, "arguments"@)) {
            (Some(name), Some(arguments)) => Some(FunctionCall { name, arguments }),
            _ => None,
        },
        _ => None,
    }
}

/// The tool call that a document describes: an object with the strings
/// `id` and `type` and a function call under `function`.
pub open spec fn tool_call_of(j: Json) -> Option<ToolCall> {
    match j {
        Json::Object(ms) => match (
            text_field(ms@, "id"@),
            text_field(ms@, "type"@),
            find(ms@, "function"@),
        ) {
            (Some(id), Some(tool_type), Some(f)) => match function_call_of(f) {
                Some(function) => Some(ToolCall { id, tool_type, function }),
                None => None,
            },
            _ => None,
        },
        _ => None,
    }
}

/// The tool calls that a list of documents describes, where each of them
/// describes one.
pub open spec fn tool_calls_of(items: Seq<Json>) -> Option<Seq<ToolCall>> {
    if forall|i: int| 0 <= i < items.len() ==> tool_call_of(#[trigger] items[i]) is Some {
        Some(Seq::new(items.len(), |i: int| tool_call_of(items[i])->0))
    } else {
        None
    }
}

/// The tool calls under `tool_calls`, which may be left out.
pub open spec fn tool_calls_field(ms: Seq<Member>) -> Option<Option<Seq<ToolCall>>> {
    match find(ms, "tool_calls"@) {
        None => Some(None),
        Some(Json::Null) => Some(None),
        Some(Json::Array(items)) => match tool_calls_of(items@) {
            Some(calls) => Some(Some(calls)),
            None => None,
        },
        _ => None,
    }
}

/// The function call under `function_call`, which may be left out.
pub open spec fn function_call_field(ms: Seq<Member>) -> Option<Option<FunctionCall>> {
    match find(ms, "function_call"@) {
        None => Some(None),
        Some(Json::Null) => Some(None),
        Some(f) => match function_call_of(f) {
            Some(call) => Some(Some(call)),
            None => None,
        },
    }
}

/// The document describes a message: an object with a string `role` and,
/// each of them optional, the strings `content`, `name`, `tool_call_id` and
/// `refusal`, the list `tool_calls` and the object `function_call`.
pub open spec fn is_message(j: Json) -> bool {
    j matches Json::Object(ms) && {
        &&& text_field(ms@, "role"@) is Some
        &&& opt_text_field(ms@, "content"@) is Some
        &&& opt_text_field(ms@, "name"@) is Some
        &&& tool_calls_field(ms@) is Some
        &&& opt_text_field(ms@, "tool_call_id"@) is Some
        &&& function_call_field(ms@) is Some
        &&& opt_text_field(ms@, "refusal"@) is Some
    }
}

/// `m` is the message that the document describes.
pub open spec fn reads_message(j: Json, m: Message) -> bool {
    j matches Json::Object(ms) && {
        &&& text_field(ms@, "role"@) == Some(m.role)
        &&& opt_text_field(ms@, "content"@) == Some(m.content)
        &&& opt_text_field(ms@, "name"@) == Some(m.name)
        &&& tool_calls_field(ms@) == Some(opt_items(m.tool_calls))
        &&& opt_text_field(ms@, "tool_call_id"@) == Some(m.tool_call_id)
        &&& function_call_field(ms@) == Some(m.function_call)
        &&& opt_text_field(ms@, "refusal"@) == Some(m.refusal)
    }
}

/// Reads a function call from a document.
pub fn decode_function_call(j: &Json) -> (r: Option<FunctionCall>)
    ensures
        r == function_call_of(*j),
{
    match j {
        Json::Object(ms) => {
            let name = get_text(ms, "name");
            let arguments = get_text(ms, "arguments");
            match (name, arguments) {
                (Some(name), Some(arguments)) => Some(FunctionCall { name, arguments }),
                _ => None,
            }
        },
        _ => None,
    }
}

/// Reads a tool call from a document.
pub fn decode_tool_call(j: &Json) -> (r: Option<ToolCall>)
    ensures
        r == tool_call_of(*j),
{
    match j {
        Json::Object(ms) => {
            let id = get_text(ms, "id");
            let tool_type = get_text(ms, "type");
            let f = find_member(ms, "function");
            match (id, tool_type, f) {
                (Some(id), Some(tool_type), Some(f)) => match decode_function_call(f) {
                    Some(function) => Some(ToolCall { id, tool_type, function }),
                    None => None,
                },
                _ => None,
            }
        },
        _ => None,
    }
}

/// Reads a list of tool calls, all of them or none.
pub fn decode_tool_calls(items: &Vec<Json>) -> (r: Option<Vec<ToolCall>>)
    ensures
        opt_items(r) == tool_calls_of(items@),
{
    let mut out: Vec<ToolCall> = Vec::new();
    let mut i: usize = 0;
    while i < items.len()
        invariant
            i <= items.len(),
            out@.len() == i,
            forall|k: int| 0 <= k < i ==> tool_call_of(#[trigger] items@[k]) == Some(out@[k]),
        decreases items.len() - i,
    {
        match decode_tool_call(&items[i]) {
            Some(call) => {
                out.push(call);
            },
            None => {
                return None;
            },
        }
        i = i + 1;
    }
    assert(out@ =~= tool_calls_of(items@)->0);
    Some(out)
}

/// Reads the tool calls under `tool_calls`.
pub fn decode_tool_calls_field(ms: &Vec<Member>) -> (r: Option<Option<Vec<ToolCall>>>)
    ensures
        match r {
            Some(calls) => tool_calls_field(ms@) == Some(opt_items(calls)),
            None => tool_calls_field(ms@) is None,
        },
{
    match find_member(ms, "tool_calls") {
        None => Some(None),
        Some(Json::Null) => Some(None),
        Some(Json::Array(items)) => match decode_tool_calls(items) {
            Some(calls) => Some(Some(calls)),
            None => None,
        },
        _ => None,
    }
}

/// Reads the function call under `function_call`.
pub fn decode_function_call_field(ms: &Vec<Member>) -> (r: Option<Option<FunctionCall>>)
    ensures
        r == function_call_field(ms@),
{
    match find_member(ms, "function_call") {
        None => Some(None),
        Some(Json::Null) => Some(None),
        Some(f) => match decode_function_call(f) {
            Some(call) => Some(Some(call)),
            None => None,
        },
    }
}

/// Reads a message from a document.
pub fn decode_message(j: &Json) -> (r: Option<Message>)
    ensures
        match r {
            Some(m) => reads_message(*j, m),
            None => !is_message(*j),
        },
{
    match j {
        Json::Object(ms) => {
            let role = get_text(ms, "role");
            let content = get_opt_text(ms, "content");
            let name = get_opt_text(ms, "name");
            let tool_calls = decode_tool_calls_field(ms);
            let tool_call_id = get_opt_text(ms, "tool_call_id");
            let function_call = decode_function_call_field(ms);
            let refusal = get_opt_text(ms, "refusal");
            match (role, content, name, tool_calls, tool_call_id, function_call, refusal) {
                (
                    Some(role),
                    Some(content),
                    Some(name),
                    Some(tool_calls),
                    Some(tool_call_id),
                    Some(function_call),
                    Some(refusal),
                ) => Some(
                    Message {
                        role,
                        content,
                        name,
                        tool_calls,
                        tool_call_id,
                        function_call,
                        refusal,
                    },
                ),
                _ => None,
            }
        },
        _ => None,
    }
}

/// The string, or nothing, that `value` writes under a key that is left
/// out where there is no value.
pub open spec fn writes_opt_text(ms: Seq<Member>, key: Seq<char>, value: Option<String>) -> bool {
    match value {
        Some(s) => find(ms, key) == Some(Json::String(s)),
        None => find(ms, key) is None,
    }
}

/// The document is `f` written out: an object with `name` and `arguments`
/// and no other member.
pub open spec fn writes_function_call(j: Json, f: FunctionCall) -> bool {
    j matches Json::Object(ms) && {
        &&& find(ms@, "name"@) == Some(Json::String(f.name))
        &&& find(ms@, "arguments"@) == Some(Json::String(f.arguments))
        &&& forall|q: Seq<char>| #[trigger]
            find(ms@, q) is Some ==> q == "name"@ || q == "arguments"@
    }
}

/// The document is `c` written out: an object with `id`, `type` and
/// `function` and no other member.
pub open spec fn writes_tool_call(j: Json, c: ToolCall) -> bool {
    j matches Json::Object(ms) && {
        &&& find(ms@, "id"@) == Some(Json::String(c.id))
        &&& find(ms@, "type"@) == Some(Json::String(c.tool_type))
        &&& find(ms@, "function"@) matches Some(f) && writes_function_call(f, c.function)
        &&& forall|q: Seq<char>| #[trigger]
            find(ms@, q) is Some ==> q == "id"@ || q == "type"@ || q == "function"@
    }
}

/// The documents are the tool calls written out, one for one.
pub open spec fn writes_tool_calls(items: Seq<Json>, calls: Seq<ToolCall>) -> bool {
    items.len() == calls.len() && forall|i: int|
        0 <= i < items.len() ==> writes_tool_call(#[trigger] items[i], calls[i])
}

/// A key of a message.
pub open spec fn is_message_key(q: Seq<char>) -> bool {
    q == "role"@ || q == "content"@ || q == "name"@ || q == "tool_calls"@ || q == "tool_call_id"@
        || q == "function_call"@ || q == "refusal"@
}

/// The document is `m` written out: an object with `role`, with each
/// field that is set under its key, and with no other member.
pub open spec fn writes_message(j: Json, m: Message) -> bool {
    j matches Json::Object(ms) && {
        &&& find(ms@, "role"@) == Some(Json::String(m.role))
        &&& writes_opt_text(ms@, "content"@, m.content)
        &&& writes_opt_text(ms@, "name"@, m.name)
        &&& match m.tool_calls {
            Some(calls) => find(ms@, "tool_calls"@) matches Some(Json::Array(items))
                && writes_tool_calls(items@, calls@),
            None => find(ms@, "tool_calls"@) is None,
        }
        &&& writes_opt_text(ms@, "tool_call_id"@, m.tool_call_id)
        &&& match m.function_call {
            Some(call) => find(ms@, "function_call"@) matches Some(f) && writes_function_call(
                f,
                call,
            ),
            None => find(ms@, "function_call"@) is None,
        }
        &&& writes_opt_text(ms@, "refusal"@, m.refusal)
        &&& forall|q: Seq<char>| #[trigger] find(ms@, q) is Some ==> is_message_key(q)
    }
}

/// The documents are the messages written out, one for one.
pub open spec fn writes_messages(items: Seq<Json>, messages: Seq<Message>) -> bool {
    items.len() == messages.len() && forall|i: int|
        0 <= i < items.len() ==> writes_message(#[trigger] items[i], messages[i])
}

/// A message that is written out reads back as the same message.
pub proof fn lemma_message_round_trip(j: Json, m: Message)
    requires
        writes_message(j, m),
    ensures
        is_message(j),
        reads_message(j, m),
{
    let ms = j->Object_0;
    match m.tool_calls {
        Some(calls) => {
            let items = find(ms@, "tool_calls"@)->0->Array_0;
            assert forall|i: int| 0 <= i < items@.len() implies tool_call_of(#[trigger] items@[i])
                == Some(calls@[i]) by {
                assert(writes_tool_call(items@[i], calls@[i]));
            }
            assert(tool_calls_of(items@)->0 =~= calls@);
        },
        None => {},
    }
}

/// The keys of a function call and of a tool call differ from one another.
pub proof fn lemma_call_keys()
    ensures
        "name"@.len() == 4,
        "arguments"@.len() == 9,
        "id"@.len() == 2,
        "type"@.len() == 4,
        "function"@.len() == 8,
        "name"@[0] == 'n',
        "type"@[0] == 't',
{
    reveal_strlit("name");
    reveal_strlit("arguments");
    reveal_strlit("id");
    reveal_strlit("type");
    reveal_strlit("function");
}

/// The keys of a message differ from one another.
pub proof fn lemma_message_keys()
    ensures
        "role"@.len() == 4,
        "content"@.len() == 7,
        "name"@.len() == 4,
        "tool_calls"@.len() == 10,
        "tool_call_id"@.len() == 12,
        "function_call"@.len() == 13,
        "refusal"@.len() == 7,
        "role"@[0] == 'r',
        "name"@[0] == 'n',
        "content"@[0] == 'c',
        "refusal"@[0] == 'r',
{
    reveal_strlit("role");
    reveal_strlit("content");
    reveal_strlit("name");
    reveal_strlit("tool_calls");
    reveal_strlit("tool_call_id");
    reveal_strlit("function_call");
    reveal_strlit("refusal");
}

/// Writes a function call as a document.
pub fn encode_function_call(f: &FunctionCall) -> (r: Json)
    ensures
        writes_function_call(r, *f),
{
    proof {
        lemma_call_keys();
    }
    let mut ms: Vec<Member> = Vec::new();
    put(&mut ms, "name", Json::String(f.name.clone()));
    put(&mut ms, "arguments", Json::String(f.arguments.clone()));
    Json::Object(ms)
}

/// Writes a tool call as a document.
pub fn encode_tool_call(c: &ToolCall) -> (r: Json)
    ensures
        writes_tool_call(r, *c),
{
    proof {
        lemma_call_keys();
    }
    let mut ms: Vec<Member> = Vec::new();
    put(&mut ms, "id", Json::String(c.id.clone()));
    put(&mut ms, "type", Json::String(c.tool_type.clone()));
    put(&mut ms, "function", encode_function_call(&c.function));
    Json::Object(ms)
}

/// Writes a list of tool calls, one document for each.
pub fn encode_tool_calls(calls: &Vec<ToolCall>) -> (r: Vec<Json>)
    ensures
        writes_tool_calls(r@, calls@),
{
    let mut out: Vec<Json> = Vec::new();
    let mut i: usize = 0;
    while i < calls.len()
        invariant
            i <= calls.len(),
            out@.len() == i,
            forall|k: int| 0 <= k < i ==> writes_tool_call(#[trigger] out@[k], calls@[k]),
        decreases calls.len() - i,
    {
        out.push(encode_tool_call(&calls[i]));
        i = i + 1;
    }
    out
}

/// Writes a message as a document.
pub fn encode_message(m: &Message) -> (r: Json)
    ensures
        writes_message(r, *m),
{
    proof {
        lemma_message_keys();
    }
    let mut ms: Vec<Member> = Vec::new();
    put(&mut ms, "role", Json::String(m.role.clone()));
    if let Some(content) = &m.content {
        put(&mut ms, "content", Json::String(content.clone()));
    }
    if let Some(name) = &m.name {
        put(&mut ms, "name", Json::String(name.clone()));
    }
    if let Some(calls) = &m.tool_calls {
        put(&mut ms, "tool_calls", Json::Array(encode_tool_calls(calls)));
    }
    if let Some(id) = &m.tool_call_id {
        put(&mut ms, "tool_call_id", Json::String(id.clone()));
    }
    if let Some(call) = &m.function_call {
        put(&mut ms, "function_call", encode_function_call(call));
    }
    if let Some(refusal) = &m.refusal {
        put(&mut ms, "refusal", Json::String(refusal.clone()));
    }
    Json::Object(ms)
}

/// Writes a list of messages, one document for each.
pub fn encode_messages(messages: &Vec<Message>) -> (r: Vec<Json>)
    ensures
        writes_messages(r@, messages@),
{
    let mut out: Vec<Json> = Vec::new();
    let mut i: usize = 0;
    while i < messages.len()
        invariant
            i <= messages.len(),
            out@.len() == i,
            forall|k: int| 0 <= k < i ==> writes_message(#[trigger] out@[k], messages@[k]),
        decreases messages.len() - i,
    {
        out.push(encode_message(&messages[i]));
        i = i + 1;
    }
    out
}

/// The usage that a document describes: an object whose three counts may
/// each be left out.
pub open spec fn usage_of_json(j: Json) -> Option<Usage> {
    match j {
        Json::Object(ms) => match (
            opt_u32_field(ms@, "prompt_tokens"@),
            opt_u32_field(ms@, "completion_tokens"@),
            opt_u32_field(ms@, "total_tokens"@),
        ) {
            (Some(prompt_tokens), Some(completion_tokens), Some(total_tokens)) => Some(
                Usage { prompt_tokens, completion_tokens, total_tokens },
            ),
            _ => None,
        },
        _ => None,
    }
}

/// The usage under `usage`, which may be left out.
pub open spec fn usage_field(ms: Seq<Member>) -> Option<Option<Usage>> {
    match find(ms, "usage"@) {
        None => Some(None),
        Some(Json::Null) => Some(None),
        Some(u) => match usage_of_json(u) {
            Some(usage) => Some(Some(usage)),
            None => None,
        },
    }
}

/// Reads a usage from a document.
pub fn decode_usage(j: &Json) -> (r: Option<Usage>)
    ensures
        r == usage_of_json(*j),
{
    match j {
        Json::Object(ms) => {
            let prompt_tokens = get_opt_u32(ms, "prompt_tokens");
            let completion_tokens = get_opt_u32(ms, "completion_tokens");
            let total_tokens = get_opt_u32(ms, "total_tokens");
            match (prompt_tokens, completion_tokens, total_tokens) {
                (Some(prompt_tokens), Some(completion_tokens), Some(total_tokens)) => Some(
                    Usage { prompt_tokens, completion_tokens, total_tokens },
                ),
                _ => None,
            }
        },
        _ => None,
    }
}

/// Reads the usage under `usage`.
pub fn decode_usage_field(ms: &Vec<Member>) -> (r: Option<Option<Usage>>)
    ensures
        r == usage_field(ms@),
{
    match find_member(ms, "usage") {
        None => Some(None),
        Some(Json::Null) => Some(None),
        Some(u) => match decode_usage(u) {
            Some(usage) => Some(Some(usage)),
            None => None,
        },
    }
}

/// The bytes that a list of documents describes, where each is an integer
/// up to 255.
pub open spec fn bytes_of(items: Seq<Json>) -> Option<Seq<u8>> {
    if forall|i: int|
        0 <= i < items.len() ==> (#[trigger] items[i] matches Json::Number(Number::PosInt(n)) && n
            <= 255) {
        Some(Seq::new(items.len(), |i: int| items[i]->Number_0->PosInt_0 as u8))
    } else {
        None
    }
}

/// The bytes under `bytes`, which may be left out.
pub open spec fn bytes_field(ms: Seq<Member>) -> Option<Option<Seq<u8>>> {
    match find(ms, "bytes"@) {
        None => Some(None),
        Some(Json::Null) => Some(None),
        Some(Json::Array(items)) => match bytes_of(items@) {
            Some(bytes) => Some(Some(bytes)),
            None => None,
        },
        _ => None,
    }
}

/// The number under `key`.
pub open spec fn number_field(ms: Seq<Member>, key: Seq<char>) -> Option<Number> {
    match find(ms, key) {
        Some(Json::Number(n)) => Some(n),
        _ => None,
    }
}

/// Reads the number under `key`.
pub fn get_number(ms: &Vec<Member>, key: &str) -> (r: Option<Number>)
    ensures
        r == number_field(ms@, key@),
{
    match find_member(ms, key) {
        Some(Json::Number(n)) => Some(*n),
        _ => None,
    }
}

fn decode_bytes(items: &Vec<Json>) -> (r: Option<Vec<u8>>)
    ensures
        opt_items(r) == bytes_of(items@),
{
    let mut out: Vec<u8> = Vec::new();
    let mut i: usize = 0;
    while i < items.len()
        invariant
            i <= items.len(),
            out@.len() == i,
            forall|k: int|
                0 <= k < i ==> (#[trigger] items@[k] matches Json::Number(Number::PosInt(n)) && n
                    <= 255 && out@[k] == n),
        decreases items.len() - i,
    {
        match &items[i] {
            Json::Number(Number::PosInt(n)) => {
                if *n <= 255 {
                    out.push(*n as u8);
                } else {
                    return None;
                }
            },
            _ => {
                return None;
            },
        }
        i = i + 1;
    }
    assert(out@ =~= bytes_of(items@)->0);
    Some(out)
}

fn decode_bytes_field(ms: &Vec<Member>) -> (r: Option<Option<Vec<u8>>>)
    ensures
        match r {
            Some(bytes) => bytes_field(ms@) == Some(opt_items(bytes)),
            None => bytes_field(ms@) is None,
        },
{
    match find_member(ms, "bytes") {
        None => Some(None),
        Some(Json::Null) => Some(None),
        Some(Json::Array(items)) => match decode_bytes(items) {
            Some(bytes) => Some(Some(bytes)),
            None => None,
        },
        _ => None,
    }
}

/// The document describes an alternative token: an object with a string
/// `token`, a number `logprob` and, optional, the list `bytes`.
pub open spec fn is_top_logprob(j: Json) -> bool {
    j matches Json::Object(ms) && text_field(ms@, "token"@) is Some && number_field(
        ms@,
        "logprob"@,
    ) is Some && bytes_field(ms@) is Some
}

/// `t` is the alternative token that the document describes.
pub open spec fn reads_top_logprob(j: Json, t: TopLogProb) -> bool {
    j matches Json::Object(ms) && text_field(ms@, "token"@) == Some(t.token) && number_field(
        ms@,
        "logprob"@,
    ) == Some(t.logprob) && bytes_field(ms@) == Some(opt_items(t.bytes))
}

/// The list under `top_logprobs` is read item for item.
pub open spec fn reads_top_logprobs(items: Seq<Json>, v: Seq<TopLogProb>) -> bool {
    items.len() == v.len() && forall|i: int|
        0 <= i < items.len() ==> reads_top_logprob(#[trigger] items[i], v[i])
}

/// The document describes the log probability of a token: an alternative
/// token with the list `top_logprobs` of alternatives.
pub open spec fn is_token_logprob(j: Json) -> bool {
    is_top_logprob(j) && (find(j->Object_0@, "top_logprobs"@) matches Some(Json::Array(items))
        && forall|i: int| 0 <= i < items@.len() ==> is_top_logprob(#[trigger] items@[i]))
}

/// `t` is the log probability that the document describes.
pub open spec fn reads_token_logprob(j: Json, t: TokenLogProb) -> bool {
    j matches Json::Object(ms) && {
        &&& text_field(ms@, "token"@) == Some(t.token)
        &&& number_field(ms@, "logprob"@) == Some(t.logprob)
        &&& bytes_field(ms@) == Some(opt_items(t.bytes))
        &&& find(ms@, "top_logprobs"@) matches Some(Json::Array(items)) && reads_top_logprobs(
            items@,
            t.top_logprobs@,
        )
    }
}

/// The document describes log probabilities: an object whose list
/// `content` may be left out.
pub open spec fn is_logprobs(j: Json) -> bool {
    j matches Json::Object(ms) && (is_left_out(ms@, "content"@) || (find(ms@, "content"@) matches Some(
        Json::Array(items),
    ) && forall|i: int| 0 <= i < items@.len() ==> is_token_logprob(#[trigger] items@[i])))
}

/// `l` is what the document describes.
pub open spec fn reads_logprobs(j: Json, l: LogProbs) -> bool {
    j matches Json::Object(ms) && (if is_left_out(ms@, "content"@) {
        l.content is None
    } else {
        find(ms@, "content"@) matches Some(Json::Array(items)) && (l.content matches Some(v)
            && items@.len() == v@.len() && forall|i: int|
            0 <= i < items@.len() ==> reads_token_logprob(#[trigger] items@[i], v@[i]))
    })
}

fn decode_top_logprob(j: &Json) -> (r: Option<TopLogProb>)
    ensures
        match r {
            Some(t) => reads_top_logprob(*j, t),
            None => !is_top_logprob(*j),
        },
{
    match j {
        Json::Object(ms) => {
            let token = get_text(ms, "token");
            let logprob = get_number(ms, "logprob");
            let bytes = decode_bytes_field(ms);
            match (token, logprob, bytes) {
                (Some(token), Some(logprob), Some(bytes)) => Some(
                    TopLogProb { token, logprob, bytes },
                ),
                _ => None,
            }
        },
        _ => None,
    }
}

fn decode_top_logprobs(items: &Vec<Json>) -> (r: Option<Vec<TopLogProb>>)
    ensures
        match r {
            Some(v) => reads_top_logprobs(items@, v@),
            None => exists|i: int| 0 <= i < items@.len() && !is_top_logprob(#[trigger] items@[i]),
        },
{
    let mut out: Vec<TopLogProb> = Vec::new();
    let mut i: usize = 0;
    while i < items.len()
        invariant
            i <= items.len(),
            out@.len() == i,
            forall|k: int| 0 <= k < i ==> reads_top_logprob(#[trigger] items@[k], out@[k]),
        decreases items.len() - i,
    {
        match decode_top_logprob(&items[i]) {
            Some(t) => {
                out.push(t);
            },
            None => {
                return None;
            },
        }
        i = i + 1;
    }
    Some(out)
}

fn decode_token_logprob(j: &Json) -> (r: Option<TokenLogProb>)
    ensures
        match r {
            Some(t) => reads_token_logprob(*j, t),
            None => !is_token_logprob(*j),
        },
{
    match j {
        Json::Object(ms) => {
            let token = get_text(ms, "token");
            let logprob = get_number(ms, "logprob");
            let bytes = decode_bytes_field(ms);
            let top = match find_member(ms, "top_logprobs") {
                Some(Json::Array(items)) => decode_top_logprobs(items),
                _ => None,
            };
            match (token, logprob, bytes, top) {
                (Some(token), Some(logprob), Some(bytes), Some(top_logprobs)) => Some(
                    TokenLogProb { token, logprob, bytes, top_logprobs },
                ),
                _ => None,
            }
        },
        _ => None,
    }
}

/// Reads log probabilities from a document.
pub fn decode_logprobs(j: &Json) -> (r: Option<LogProbs>)
    ensures
        match r {
            Some(l) => reads_logprobs(*j, l),
            None => !is_logprobs(*j),
        },
{
    match j {
        Json::Object(ms) => match find_member(ms, "content") {
            None => Some(LogProbs { content: None }),
            Some(Json::Null) => Some(LogProbs { content: None }),
            Some(Json::Array(items)) => {
                let mut out: Vec<TokenLogProb> = Vec::new();
                let mut i: usize = 0;
                while i < items.len()
                    invariant
                        i <= items.len(),
                        out@.len() == i,
                        *j == Json::Object(*ms),
                        find(ms@, "content"@) == Some(Json::Array(*items)),
                        forall|k: int|
                            0 <= k < i ==> reads_token_logprob(#[trigger] items@[k], out@[k]),
                    decreases items.len() - i,
                {
                    match decode_token_logprob(&items[i]) {
                        Some(t) => {
                            out.push(t);
                        },
                        None => {
                            assert(!is_logprobs(*j)) by {
                                if is_logprobs(*j) {
                                    let its = find(ms@, "content"@)->0->Array_0;
                                    assert(is_token_logprob(its@[i as int]));
                                }
                            }
                            return None;
                        },
                    }
                    i = i + 1;
                }
                Some(LogProbs { content: Some(out) })
            },
            _ => None,
        },
        _ => None,
    }
}

/// The document describes a choice: an object with the number `index`
/// and, each of them optional, the messages `message` and `delta`, the string
/// `finish_reason` and the object `logprobs`.
pub open spec fn is_choice(j: Json) -> bool {
    j matches Json::Object(ms) && {
        &&& u32_field(ms@, "index"@) is Some
        &&& is_left_out(ms@, "message"@) || is_message(find(ms@, "message"@)->0)
        &&& is_left_out(ms@, "delta"@) || is_message(find(ms@, "delta"@)->0)
        &&& opt_text_field(ms@, "finish_reason"@) is Some
        &&& is_left_out(ms@, "logprobs"@) || is_logprobs(find(ms@, "logprobs"@)->0)
    }
}

/// `c` is the choice that the document describes.
pub open spec fn reads_choice(j: Json, c: Choice) -> bool {
    j matches Json::Object(ms) && {
        &&& u32_field(ms@, "index"@) == Some(c.index)
        &&& if is_left_out(ms@, "message"@) {
            c.message is None
        } else {
            c.message matches Some(m) && reads_message(find(ms@, "message"@)->0, m)
        }
        &&& if is_left_out(ms@, "delta"@) {
            c.delta is None
        } else {
            c.delta matches Some(m) && reads_message(find(ms@, "delta"@)->0, m)
        }
        &&& opt_text_field(ms@, "finish_reason"@) == Some(c.finish_reason)
        &&& if is_left_out(ms@, "logprobs"@) {
            c.logprobs is None
        } else {
            c.logprobs matches Some(l) && reads_logprobs(find(ms@, "logprobs"@)->0, l)
        }
    }
}

fn decode_message_field(ms: &Vec<Member>, key: &str) -> (r: Option<Option<Message>>)
    ensures
        match r {
            Some(None) => is_left_out(ms@, key@),
            Some(Some(m)) => !is_left_out(ms@, key@) && reads_message(find(ms@, key@)->0, m),
            None => !is_left_out(ms@, key@) && !is_message(find(ms@, key@)->0),
        },
{
    match find_member(ms, key) {
        None => Some(None),
        Some(Json::Null) => Some(None),
        Some(j) => match decode_message(j) {
            Some(m) => Some(Some(m)),
            None => None,
        },
    }
}

/// Reads the log probabilities under `logprobs`.
pub fn decode_logprobs_field(ms: &Vec<Member>) -> (r: Option<Option<LogProbs>>)
    ensures
        match r {
            Some(None) => is_left_out(ms@, "logprobs"@),
            Some(Some(l)) => !is_left_out(ms@, "logprobs"@) && reads_logprobs(
                find(ms@, "logprobs"@)->0,
                l,
            ),
            None => !is_left_out(ms@, "logprobs"@) && !is_logprobs(find(ms@, "logprobs"@)->0),
        },
{
    match find_member(ms, "logprobs") {
        None => Some(None),
        Some(Json::Null) => Some(None),
        Some(j) => match decode_logprobs(j) {
            Some(l) => Some(Some(l)),
            None => None,
        },
    }
}

/// Reads a choice from a document.
pub fn decode_choice(j: &Json) -> (r: Option<Choice>)
    ensures
        match r {
            Some(c) => reads_choice(*j, c),
            None => !is_choice(*j),
        },
{
    proof {
        lemma_message_round_trip_keys();
    }
    match j {
        Json::Object(ms) => {
            let index = get_u32(ms, "index");
            let message = decode_message_field(ms, "message");
            let delta = decode_message_field(ms, "delta");
            let finish_reason = get_opt_text(ms, "finish_reason");
            let logprobs = decode_logprobs_field(ms);
            match (index, message, delta, finish_reason, logprobs) {
                (Some(index), Some(message), Some(delta), Some(finish_reason), Some(logprobs)) => {
                    Some(Choice { index, message, delta, finish_reason, logprobs })
                },
                _ => None,
            }
        },
        _ => None,
    }
}

/// What is read implies that it could be read.
pub proof fn lemma_message_round_trip_keys()
    ensures
        forall|j: Json, m: Message| #[trigger] reads_message(j, m) ==> is_message(j),
        forall|j: Json, l: LogProbs| #[trigger] reads_logprobs(j, l) ==> is_logprobs(j),
{
    assert forall|j: Json, l: LogProbs| #[trigger] reads_logprobs(j, l) implies is_logprobs(j) by {
        let ms = j->Object_0;
        if !is_left_out(ms@, "content"@) {
            let items = find(ms@, "content"@)->0->Array_0;
            let v = l.content->0;
            assert forall|i: int| 0 <= i < items@.len() implies is_token_logprob(
                #[trigger] items@[i],
            ) by {
                assert(reads_token_logprob(items@[i], v@[i]));
                let tms = items@[i]->Object_0;
                let tops = find(tms@, "top_logprobs"@)->0->Array_0;
                assert forall|k: int| 0 <= k < tops@.len() implies is_top_logprob(
                    #[trigger] tops@[k],
                ) by {
                    assert(reads_top_logprob(tops@[k], v@[i].top_logprobs@[k]));
                }
            }
        }
    }
}

/// The members under `data` of the object under `provider_extensions`,
/// with the string `provider` beside them.
pub open spec fn is_extensions(j: Json) -> bool {
    j matches Json::Object(ms) && text_field(ms@, "provider"@) is Some && find(ms@, "data"@) matches Some(
        Json::Object(_),
    )
}

/// `e` is the backend data that the document describes.
pub open spec fn reads_extensions(j: Json, e: ProviderExtensions) -> bool {
    j matches Json::Object(ms) && text_field(ms@, "provider"@) == Some(e.provider) && (find(
        ms@,
        "data"@,
    ) matches Some(Json::Object(data)) && same_members(data@, e.data@))
}

/// The document describes a chat completion: an object with the strings
/// `id`, `object` and `model`, the number `created`, the list `choices` of
/// choices and, each of them optional, `usage`, the string
/// `system_fingerprint` and `provider_extensions`. Members under other keys
/// are passed over.
pub open spec fn is_completion(j: Json) -> bool {
    j matches Json::Object(ms) && {
        &&& text_field(ms@, "id"@) is Some
        &&& text_field(ms@, "object"@) is Some
        &&& u64_field(ms@, "created"@) is Some
        &&& text_field(ms@, "model"@) is Some
        &&& find(ms@, "choices"@) matches Some(Json::Array(items)) && forall|i: int|
            0 <= i < items@.len() ==> is_choice(#[trigger] items@[i])
        &&& usage_field(ms@) is Some
        &&& opt_text_field(ms@, "system_fingerprint"@) is Some
        &&& is_left_out(ms@, "provider_extensions"@) || is_extensions(
            find(ms@, "provider_extensions"@)->0,
        )
    }
}

/// `c` is the chat completion that the document describes.
pub open spec fn reads_completion(j: Json, c: CompletionResponse) -> bool {
    j matches Json::Object(ms) && {
        &&& text_field(ms@, "id"@) == Some(c.id)
        &&& text_field(ms@, "object"@) == Some(c.object)
        &&& u64_field(ms@, "created"@) == Some(c.created)
        &&& text_field(ms@, "model"@) == Some(c.model)
        &&& find(ms@, "choices"@) matches Some(Json::Array(items)) && items@.len()
            == c.choices@.len() && forall|i: int|
            0 <= i < items@.len() ==> reads_choice(#[trigger] items@[i], c.choices@[i])
        &&& usage_field(ms@) == Some(c.usage)
        &&& opt_text_field(ms@, "system_fingerprint"@) == Some(c.system_fingerprint)
        &&& if is_left_out(ms@, "provider_extensions"@) {
            c.provider_extensions is None
        } else {
            c.provider_extensions matches Some(e) && reads_extensions(
                find(ms@, "provider_extensions"@)->0,
                e,
            )
        }
    }
}

fn decode_choices(items: &Vec<Json>) -> (r: Option<Vec<Choice>>)
    ensures
        match r {
            Some(v) => items@.len() == v@.len() && forall|i: int|
                0 <= i < items@.len() ==> reads_choice(#[trigger] items@[i], v@[i]),
            None => exists|i: int| 0 <= i < items@.len() && !is_choice(#[trigger] items@[i]),
        },
{
    let mut out: Vec<Choice> = Vec::new();
    let mut i: usize = 0;
    while i < items.len()
        invariant
            i <= items.len(),
            out@.len() == i,
            forall|k: int| 0 <= k < i ==> reads_choice(#[trigger] items@[k], out@[k]),
        decreases items.len() - i,
    {
        match decode_choice(&items[i]) {
            Some(c) => {
                out.push(c);
            },
            None => {
                return None;
            },
        }
        i = i + 1;
    }
    Some(out)
}

fn decode_extensions_field(ms: &Vec<Member>) -> (r: Option<Option<ProviderExtensions>>)
    ensures
        match r {
            Some(None) => is_left_out(ms@, "provider_extensions"@),
            Some(Some(e)) => !is_left_out(ms@, "provider_extensions"@) && reads_extensions(
                find(ms@, "provider_extensions"@)->0,
                e,
            ),
            None => !is_left_out(ms@, "provider_extensions"@) && !is_extensions(
                find(ms@, "provider_extensions"@)->0,
            ),
        },
{
    match find_member(ms, "provider_extensions") {
        None => Some(None),
        Some(Json::Null) => Some(None),
        Some(Json::Object(fields)) => {
            let provider = get_text(fields, "provider");
            match (provider, find_member(fields, "data")) {
                (Some(provider), Some(Json::Object(data))) => {
                    let mut copy: Vec<Member> = Vec::new();
                    let mut i: usize = 0;
                    while i < data.len()
                        invariant
                            i <= data.len(),
                            copy@.len() == i,
                            forall|k: int|
                                0 <= k < i ==> (#[trigger] data@[k]).key == copy@[k].key
                                    && data@[k].value.same(copy@[k].value),
                        decreases data.len() - i,
                    {
                        copy.push(data[i].clone());
                        i = i + 1;
                    }
                    Some(Some(ProviderExtensions { provider, data: copy }))
                },
                _ => None,
            }
        },
        _ => None,
    }
}

/// Reads a chat completion from a document.
pub fn decode_completion(j: &Json) -> (r: Option<CompletionResponse>)
    ensures
        match r {
            Some(c) => reads_completion(*j, c),
            None => !is_completion(*j),
        },
{
    match j {
        Json::Object(ms) => {
            let id = get_text(ms, "id");
            let object = get_text(ms, "object");
            let created = get_u64(ms, "created");
            let model = get_text(ms, "model");
            let choices = match find_member(ms, "choices") {
                Some(Json::Array(items)) => decode_choices(items),
                _ => None,
            };
            let usage = decode_usage_field(ms);
            let system_fingerprint = get_opt_text(ms, "system_fingerprint");
            let provider_extensions = decode_extensions_field(ms);
            match (
                id,
                object,
                created,
                model,
                choices,
                usage,
                system_fingerprint,
                provider_extensions,
            ) {
                (
                    Some(id),
                    Some(object),
                    Some(created),
                    Some(model),
                    Some(choices),
                    Some(usage),
                    Some(system_fingerprint),
                    Some(provider_extensions),
                ) => Some(
                    CompletionResponse {
                        id,
                        object,
                        created,
                        model,
                        choices,
                        usage,
                        system_fingerprint,
                        provider_extensions,
                    },
                ),
                _ => None,
            }
        },
        _ => None,
    }
}

/// The piece of a function call that a document describes: an object
/// whose strings `name` and `arguments` may each be left out.
pub open spec fn function_delta_of(j: Json) -> Option<FunctionCallDelta> {
    match j {
        Json::Object(ms) => match (
            opt_text_field(ms@, "name"@),
            opt_text_field(ms@, "arguments"@),
        ) {
            (Some(name), Some(arguments)) => Some(FunctionCallDelta { name, arguments }),
            _ => None,
        },
        _ => None,
    }
}

/// The piece under `function`, which may be left out.
pub open spec fn function_delta_field(ms: Seq<Member>) -> Option<Option<FunctionCallDelta>> {
    match find(ms, "function"@) {
        None => Some(None),
        Some(Json::Null) => Some(None),
        Some(f) => match function_delta_of(f) {
            Some(piece) => Some(Some(piece)),
            None => None,
        },
    }
}

/// The piece of a tool call that a document describes: an object whose
/// strings `id` and `type` and whose object `function` may each be left out.
pub open spec fn tool_delta_of(j: Json) -> Option<ToolCallDelta> {
    match j {
        Json::Object(ms) => match (
            opt_text_field(ms@, "id"@),
            opt_text_field(ms@, "type"@),
            function_delta_field(ms@),
        ) {
            (Some(id), Some(tool_type), Some(function)) => Some(
                ToolCallDelta { id, tool_type, function },
            ),
            _ => None,
        },
        _ => None,
    }
}

/// The pieces that a list of documents describes, where each describes
/// one.
pub open spec fn tool_deltas_of(items: Seq<Json>) -> Option<Seq<ToolCallDelta>> {
    if forall|i: int| 0 <= i < items.len() ==> tool_delta_of(#[trigger] items[i]) is Some {
        Some(Seq::new(items.len(), |i: int| tool_delta_of(items[i])->0))
    } else {
        None
    }
}

/// The pieces under `tool_calls`, which may be left out.
pub open spec fn tool_deltas_field(ms: Seq<Member>) -> Option<Option<Seq<ToolCallDelta>>> {
    match find(ms, "tool_calls"@) {
        None => Some(None),
        Some(Json::Null) => Some(None),
        Some(Json::Array(items)) => match tool_deltas_of(items@) {
            Some(pieces) => Some(Some(pieces)),
            None => None,
        },
        _ => None,
    }
}

/// The document describes a delta: an object whose strings `role`,
/// `content` and `refusal` and whose list `tool_calls` may each be left out.
pub open spec fn is_delta(j: Json) -> bool {
    j matches Json::Object(ms) && {
        &&& opt_text_field(ms@, "role"@) is Some
        &&& opt_text_field(ms@, "content"@) is Some
        &&& tool_deltas_field(ms@) is Some
        &&& opt_text_field(ms@, "refusal"@) is Some
    }
}

/// `d` is the delta that the document describes.
pub open spec fn reads_delta(j: Json, d: Delta) -> bool {
    j matches Json::Object(ms) && {
        &&& opt_text_field(ms@, "role"@) == Some(d.role)
        &&& opt_text_field(ms@, "content"@) == Some(d.content)
        &&& tool_deltas_field(ms@) == Some(opt_items(d.tool_calls))
        &&& opt_text_field(ms@, "refusal"@) == Some(d.refusal)
    }
}

/// The document describes a choice of a chunk: an object with the number
/// `index` and the delta `delta` and, each of them optional, the string
/// `finish_reason` and the object `logprobs`.
pub open spec fn is_stream_choice(j: Json) -> bool {
    j matches Json::Object(ms) && {
        &&& u32_field(ms@, "index"@) is Some
        &&& find(ms@, "delta"@) matches Some(d) && is_delta(d)
        &&& opt_text_field(ms@, "finish_reason"@) is Some
        &&& is_left_out(ms@, "logprobs"@) || is_logprobs(find(ms@, "logprobs"@)->0)
    }
}

/// `c` is the choice that the document describes.
pub open spec fn reads_stream_choice(j: Json, c: StreamChoice) -> bool {
    j matches Json::Object(ms) && {
        &&& u32_field(ms@, "index"@) == Some(c.index)
        &&& find(ms@, "delta"@) matches Some(d) && reads_delta(d, c.delta)
        &&& opt_text_field(ms@, "finish_reason"@) == Some(c.finish_reason)
        &&& if is_left_out(ms@, "logprobs"@) {
            c.logprobs is None
        } else {
            c.logprobs matches Some(l) && reads_logprobs(find(ms@, "logprobs"@)->0, l)
        }
    }
}

/// The document describes a chunk of a stream: an object with the strings
/// `id`, `object` and `model`, the number `created`, the list `choices` and,
/// each of them optional, the string `system_fingerprint` and `usage`.
pub open spec fn is_chunk(j: Json) -> bool {
    j matches Json::Object(ms) && {
        &&& text_field(ms@, "id"@) is Some
        &&& text_field(ms@, "object"@) is Some
        &&& u64_field(ms@, "created"@) is Some
        &&& text_field(ms@, "model"@) is Some
        &&& find(ms@, "choices"@) matches Some(Json::Array(items)) && forall|i: int|
            0 <= i < items@.len() ==> is_stream_choice(#[trigger] items@[i])
        &&& opt_text_field(ms@, "system_fingerprint"@) is Some
        &&& usage_field(ms@) is Some
    }
}

/// `c` is the chunk that the document describes.
pub open spec fn reads_chunk(j: Json, c: StreamChunk) -> bool {
    j matches Json::Object(ms) && {
        &&& text_field(ms@, "id"@) == Some(c.id)
        &&& text_field(ms@, "object"@) == Some(c.object)
        &&& u64_field(ms@, "created"@) == Some(c.created)
        &&& text_field(ms@, "model"@) == Some(c.model)
        &&& find(ms@, "choices"@) matches Some(Json::Array(items)) && items@.len()
            == c.choices@.len() && forall|i: int|
            0 <= i < items@.len() ==> reads_stream_choice(#[trigger] items@[i], c.choices@[i])
        &&& opt_text_field(ms@, "system_fingerprint"@) == Some(c.system_fingerprint)
        &&& usage_field(ms@) == Some(c.usage)
    }
}

fn decode_function_delta(j: &Json) -> (r: Option<FunctionCallDelta>)
    ensures
        r == function_delta_of(*j),
{
    match j {
        Json::Object(ms) => {
            let name = get_opt_text(ms, "name");
            let arguments = get_opt_text(ms, "arguments");
            match (name, arguments) {
                (Some(name), Some(arguments)) => Some(FunctionCallDelta { name, arguments }),
                _ => None,
            }
        },
        _ => None,
    }
}

fn decode_tool_delta(j: &Json) -> (r: Option<ToolCallDelta>)
    ensures
        r == tool_delta_of(*j),
{
    match j {
        Json::Object(ms) => {
            let id = get_opt_text(ms, "id");
            let tool_type = get_opt_text(ms, "type");
            let function = match find_member(ms, "function") {
                None => Some(None),
                Some(Json::Null) => Some(None),
                Some(f) => match decode_function_delta(f) {
                    Some(piece) => Some(Some(piece)),
                    None => None,
                },
            };
            match (id, tool_type, function) {
                (Some(id), Some(tool_type), Some(function)) => Some(
                    ToolCallDelta { id, tool_type, function },
                ),
                _ => None,
            }
        },
        _ => None,
    }
}

fn decode_tool_deltas_field(ms: &Vec<Member>) -> (r: Option<Option<Vec<ToolCallDelta>>>)
    ensures
        match r {
            Some(pieces) => tool_deltas_field(ms@) == Some(opt_items(pieces)),
            None => tool_deltas_field(ms@) is None,
        },
{
    match find_member(ms, "tool_calls") {
        None => Some(None),
        Some(Json::Null) => Some(None),
        Some(Json::Array(items)) => {
            let mut out: Vec<ToolCallDelta> = Vec::new();
            let mut i: usize = 0;
            while i < items.len()
                invariant
                    i <= items.len(),
                    out@.len() == i,
                    find(ms@, "tool_calls"@) == Some(Json::Array(*items)),
                    forall|k: int|
                        0 <= k < i ==> tool_delta_of(#[trigger] items@[k]) == Some(out@[k]),
                decreases items.len() - i,
            {
                match decode_tool_delta(&items[i]) {
                    Some(piece) => {
                        out.push(piece);
                    },
                    None => {
                        return None;
                    },
                }
                i = i + 1;
            }
            assert(out@ =~= tool_deltas_of(items@)->0);
            Some(Some(out))
        },
        _ => None,
    }
}

/// Reads a delta from a document.
pub fn decode_delta(j: &Json) -> (r: Option<Delta>)
    ensures
        match r {
            Some(d) => reads_delta(*j, d),
            None => !is_delta(*j),
        },
{
    match j {
        Json::Object(ms) => {
            let role = get_opt_text(ms, "role");
            let content = get_opt_text(ms, "content");
            let tool_calls = decode_tool_deltas_field(ms);
            let refusal = get_opt_text(ms, "refusal");
            match (role, content, tool_calls, refusal) {
                (Some(role), Some(content), Some(tool_calls), Some(refusal)) => Some(
                    Delta { role, content, tool_calls, refusal },
                ),
                _ => None,
            }
        },
        _ => None,
    }
}

fn decode_stream_choice(j: &Json) -> (r: Option<StreamChoice>)
    ensures
        match r {
            Some(c) => reads_stream_choice(*j, c),
            None => !is_stream_choice(*j),
        },
{
    proof {
        lemma_message_round_trip_keys();
    }
    match j {
        Json::Object(ms) => {
            let index = get_u32(ms, "index");
            let delta = match find_member(ms, "delta") {
                Some(d) => decode_delta(d),
                None => None,
            };
            let finish_reason = get_opt_text(ms, "finish_reason");
            let logprobs = decode_logprobs_field(ms);
            match (index, delta, finish_reason, logprobs) {
                (Some(index), Some(delta), Some(finish_reason), Some(logprobs)) => Some(
                    StreamChoice { index, delta, finish_reason, logprobs },
                ),
                _ => None,
            }
        },
        _ => None,
    }
}

fn decode_stream_choices(items: &Vec<Json>) -> (r: Option<Vec<StreamChoice>>)
    ensures
        match r {
            Some(v) => items@.len() == v@.len() && forall|i: int|
                0 <= i < items@.len() ==> reads_stream_choice(#[trigger] items@[i], v@[i]),
            None => exists|i: int| 0 <= i < items@.len() && !is_stream_choice(#[trigger] items@[i]),
        },
{
    let mut out: Vec<StreamChoice> = Vec::new();
    let mut i: usize = 0;
    while i < items.len()
        invariant
            i <= items.len(),
            out@.len() == i,
            forall|k: int| 0 <= k < i ==> reads_stream_choice(#[trigger] items@[k], out@[k]),
        decreases items.len() - i,
    {
        match decode_stream_choice(&items[i]) {
            Some(c) => {
                out.push(c);
            },
            None => {
                return None;
            },
        }
        i = i + 1;
    }
    Some(out)
}

/// Reads a chunk of a stream from a document.
pub fn decode_chunk(j: &Json) -> (r: Option<StreamChunk>)
    ensures
        match r {
            Some(c) => reads_chunk(*j, c),
            None => !is_chunk(*j),
        },
{
    match j {
        Json::Object(ms) => {
            let id = get_text(ms, "id");
            let object = get_text(ms, "object");
            let created = get_u64(ms, "created");
            let model = get_text(ms, "model");
            let choices = match find_member(ms, "choices") {
                Some(Json::Array(items)) => decode_stream_choices(items),
                _ => None,
            };
            let system_fingerprint = get_opt_text(ms, "system_fingerprint");
            let usage = decode_usage_field(ms);
            match (id, object, created, model, choices, system_fingerprint, usage) {
                (
                    Some(id),
                    Some(object),
                    Some(created),
                    Some(model),
                    Some(choices),
                    Some(system_fingerprint),
                    Some(usage),
                ) => Some(
                    StreamChunk { id, object, created, model, choices, system_fingerprint, usage },
                ),
                _ => None,
            }
        },
        _ => None,
    }
}

/// The ids that a listing of models holds: the string `id` of each object
/// in the list `data`.
pub open spec fn listed_ids(j: Json) -> Option<Seq<String>> {
    match j.spec_get("data"@) {
        Some(Json::Array(items)) => if forall|i: int|
            0 <= i < items@.len() ==> (#[trigger] items@[i]).spec_get("id"@) is Some
                && items@[i].spec_get("id"@)->0 is String {
            Some(Seq::new(items@.len(), |i: int| items@[i].spec_get("id"@)->0->String_0))
        } else {
            None
        },
        _ => None,
    }
}

/// Reads the ids out of a listing of models.
pub fn decode_model_ids(j: &Json) -> (r: Option<Vec<String>>)
    ensures
        opt_items(r) == listed_ids(*j),
{
    match j.get("data") {
        Some(Json::Array(items)) => {
            let mut out: Vec<String> = Vec::new();
            let mut i: usize = 0;
            while i < items.len()
                invariant
                    i <= items.len(),
                    out@.len() == i,
                    j.spec_get("data"@) == Some(Json::Array(*items)),
                    forall|k: int|
                        0 <= k < i ==> (#[trigger] items@[k]).spec_get("id"@) == Some(
                            Json::String(out@[k]),
                        ),
                decreases items.len() - i,
            {
                match items[i].get("id") {
                    Some(Json::String(id)) => {
                        out.push(id.clone());
                    },
                    _ => {
                        return None;
                    },
                }
                i = i + 1;
            }
            assert(out@ =~= listed_ids(*j)->0);
            Some(out)
        },
        _ => None,
    }
}

} // verus!
