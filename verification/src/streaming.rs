//! The streaming engine: reading the events of an upstream stream,
//! synthesising a stream from a finished text, and turning what an adapter
//! produces into the events sent to the caller.

use vstd::prelude::*;
use vstd::string::*;
use crate::codec::{decode_chunk, is_chunk, reads_chunk};
use crate::json::{json_document, parse_json, Json};
use crate::models::{opt_text, OpenAIError, StreamChunk, Usage};
use crate::providers::{
    content_chunk_at, final_chunk_at, first_chunk_at, is_content_chunk, is_final_chunk,
    is_first_chunk, stream_tokens, tokenize_for_streaming, ProviderError,
};
use crate::text::{concat2, str_eq, views};

verus! {

/// Whether an upstream stream still delivers chunks.
#[derive(Clone, Copy, Debug, PartialEq, Eq, Structural)]
pub enum StreamState {
    Open,
    /// The end marker was seen: nothing after it is a chunk.
    Closed,
}

/// The payload that ends a stream.
pub open spec fn done_marker() -> Seq<char> {
    "[DONE]"@
}

/// What the parsed payload of an event becomes: the chunk it describes,
/// or a failure in the stream.
pub open spec fn is_chunk_reading(r: Result<StreamChunk, ProviderError>, parsed: Result<Json, String>) -> bool {
    match parsed {
        Err(e) => r matches Err(ProviderError::StreamError(m)) && m@ == "Invalid stream chunk: "@
            + e@,
        Ok(j) => if is_chunk(j) {
            r matches Ok(c) && reads_chunk(j, c)
        } else {
            r matches Err(ProviderError::StreamError(m)) && m@
                == "Invalid stream chunk: not a chunk"@
        },
    }
}

/// Reads the parsed payload of an event as a chunk.
pub fn chunk_of_document(parsed: Result<Json, String>) -> (r: Result<StreamChunk, ProviderError>)
    ensures
        is_chunk_reading(r, parsed),
{
    match parsed {
        Err(e) => Err(ProviderError::StreamError(concat2("Invalid stream chunk: ", e.as_str()))),
        Ok(j) => match decode_chunk(&j) {
            Some(c) => Ok(c),
            None => Err(
                ProviderError::StreamError(String::from_str("Invalid stream chunk: not a chunk")),
            ),
        },
    }
}

/// What one event of an upstream stream does: nothing on a closed stream;
/// the end marker closes the stream and gives no chunk; any other payload is
/// read as a chunk and leaves the stream open, also where it cannot be read.
pub open spec fn is_step(
    state: StreamState,
    data: Seq<char>,
    next: StreamState,
    out: Option<Result<StreamChunk, ProviderError>>,
) -> bool {
    if state == StreamState::Closed {
        next == StreamState::Closed && out is None
    } else if data == done_marker() {
        next == StreamState::Closed && out is None
    } else {
        next == StreamState::Open && (out matches Some(r) && is_chunk_reading(
            r,
            json_document(data),
        ))
    }
}

/// Takes one event of an upstream stream.
pub fn on_event(state: StreamState, data: &str) -> (r: (
    StreamState,
    Option<Result<StreamChunk, ProviderError>>,
))
    ensures
        is_step(state, data@, r.0, r.1),
{
    match state {
        StreamState::Closed => (StreamState::Closed, None),
        StreamState::Open => {
            if str_eq(data, "[DONE]") {
                (StreamState::Closed, None)
            } else {
                (StreamState::Open, Some(chunk_of_document(parse_json(data))))
            }
        },
    }
}

/// Takes a failure of the event framing itself: a failure in the stream
/// while it is open, nothing once it is closed.
pub fn on_framing_failure(state: StreamState, reason: &str) -> (r: (
    StreamState,
    Option<Result<StreamChunk, ProviderError>>,
))
    ensures
        r.0 == state,
        match state {
            StreamState::Closed => r.1 is None,
            StreamState::Open => r.1 matches Some(Err(ProviderError::StreamError(m))) && m@
                == "SSE error: "@ + reason@,
        },
{
    match state {
        StreamState::Closed => (StreamState::Closed, None),
        StreamState::Open => (
            StreamState::Open,
            Some(Err(ProviderError::StreamError(concat2("SSE error: ", reason)))),
        ),
    }
}

/// The state after the first `count` payloads.
pub open spec fn state_after(payloads: Seq<Seq<char>>, count: int) -> StreamState
    decreases count,
{
    if count <= 0 {
        StreamState::Open
    } else if state_after(payloads, count - 1) == StreamState::Closed || payloads[count - 1]
        == done_marker() {
        StreamState::Closed
    } else {
        StreamState::Open
    }
}

/// A stream is closed after `count` payloads exactly where the end marker
/// is among them, and no event after the marker gives a chunk.
pub proof fn lemma_nothing_after_done(payloads: Seq<Seq<char>>, count: int)
    requires
        0 <= count <= payloads.len(),
    ensures
        state_after(payloads, count) == StreamState::Closed <==> exists|i: int|
            0 <= i < count && #[trigger] payloads[i] == done_marker(),
        forall|next: StreamState, out: Option<Result<StreamChunk, ProviderError>>, data: Seq<char>|
            state_after(payloads, count) == StreamState::Closed && #[trigger] is_step(
                state_after(payloads, count),
                data,
                next,
                out,
            ) ==> out is None && next == StreamState::Closed,
    decreases count,
{
    if count > 0 {
        lemma_nothing_after_done(payloads, count - 1);
        if state_after(payloads, count) == StreamState::Closed {
            if payloads[count - 1] == done_marker() {
                assert(payloads[count - 1] == done_marker());
            } else {
                let i = choose|i: int| 0 <= i < count - 1 && #[trigger] payloads[i] == done_marker();
                assert(payloads[i] == done_marker());
            }
        }
    }
}

/// One event that the gateway sends to the caller.
#[derive(Clone, Debug)]
pub enum SseEvent {
    /// A chunk, sent as its JSON form.
    Chunk(StreamChunk),
    /// A failure inside the stream, sent under `error`.
    Error(OpenAIError),
    /// The end marker, sent as `[DONE]`.
    Done,
}

/// `e` is the error that a failure inside a stream is sent as: its one
/// line as the message, and the type `stream_error`.
pub open spec fn is_stream_error(e: OpenAIError, failure: ProviderError) -> bool {
    &&& e.message@ == failure.spec_text()
    &&& e.error_type@ == "stream_error"@
    &&& e.param is None
    &&& e.code is None
}

/// `event` is what the item of an adapter's stream is sent as.
pub open spec fn is_event_of(event: SseEvent, item: Result<StreamChunk, ProviderError>) -> bool {
    match item {
        Ok(chunk) => event == SseEvent::Chunk(chunk),
        Err(failure) => event matches SseEvent::Error(e) && is_stream_error(e, failure),
    }
}

/// The event for one item of an adapter's stream. A failure does not end
/// the stream.
pub fn event_of(item: Result<StreamChunk, ProviderError>) -> (r: SseEvent)
    ensures
        is_event_of(r, item),
{
    match item {
        Ok(chunk) => SseEvent::Chunk(chunk),
        Err(failure) => SseEvent::Error(
            OpenAIError {
                message: failure.to_text(),
                error_type: String::from_str("stream_error"),
                param: None,
                code: None,
            },
        ),
    }
}

/// `events` is what the items of an adapter's stream are sent as: one
/// event for each item, in their order, and the end marker after the last.
pub open spec fn is_transcoding(events: Seq<SseEvent>, items: Seq<Result<StreamChunk, ProviderError>>) -> bool {
    &&& events.len() == items.len() + 1
    &&& events.last() == SseEvent::Done
    &&& forall|i: int| 0 <= i < items.len() ==> is_event_of(#[trigger] events[i], items[i])
}

/// The events for a whole stream.
pub fn transcode(items: Vec<Result<StreamChunk, ProviderError>>) -> (r: Vec<SseEvent>)
    ensures
        is_transcoding(r@, items@),
{
    let mut items = items;
    let ghost all = items@;
    let mut back: Vec<SseEvent> = Vec::new();
    back.push(SseEvent::Done);
    // Items leave from the end, so the events are gathered back to front.
    while items.len() > 0
        invariant
            items@.len() <= all.len(),
            items@ == all.subrange(0, items@.len() as int),
            back@.len() == all.len() - items@.len() + 1,
            back@[0] == SseEvent::Done,
            forall|k: int|
                1 <= k < back@.len() ==> is_event_of(#[trigger] back@[k], all[all.len() - k]),
        decreases items.len(),
    {
        let ghost before = items@;
        match items.pop() {
            Some(item) => {
                assert(item == all[all.len() - back@.len()]);
                back.push(event_of(item));
                assert(items@ =~= all.subrange(0, items@.len() as int));
            },
            None => {},
        }
    }
    let mut out: Vec<SseEvent> = Vec::new();
    while back.len() > 0
        invariant
            back@.len() <= all.len() + 1,
            out@.len() == all.len() + 1 - back@.len(),
            back@.len() > 0 ==> back@[0] == SseEvent::Done,
            back@.len() == 0 ==> out@.len() > 0 && out@.last() == SseEvent::Done,
            forall|k: int|
                1 <= k < back@.len() ==> is_event_of(#[trigger] back@[k], all[all.len() - k]),
            forall|i: int|
                0 <= i < out@.len() && i < all.len() ==> is_event_of(#[trigger] out@[i], all[i]),
        decreases back.len(),
    {
        let ghost k = back@.len() - 1;
        match back.pop() {
            Some(event) => {
                out.push(event);
            },
            None => {},
        }
    }
    out
}

/// The chunks of a stream made from a finished text: the opening chunk
/// with the assistant's role, one content chunk for each token, and the
/// closing chunk with the finish reason and the usage.
pub open spec fn is_synthesis(
    chunks: Seq<StreamChunk>,
    id: Seq<char>,
    model: Seq<char>,
    text: Seq<char>,
    finish_reason: Seq<char>,
    usage: Option<Usage>,
) -> bool {
    let tokens = stream_tokens(text);
    &&& chunks.len() == tokens.len() + 2
    &&& is_first_chunk(chunks[0], id, model, "assistant"@)
    &&& forall|i: int|
        0 <= i < tokens.len() ==> is_content_chunk(#[trigger] chunks[i + 1], id, model, tokens[i])
    &&& is_final_chunk(chunks.last(), id, model, finish_reason, usage)
}

/// Makes the chunks of a stream from a finished text.
pub fn synthesize_chunks(
    id: &str,
    model: &str,
    text: &str,
    finish_reason: &str,
    usage: Option<Usage>,
    created: u64,
) -> (r: Vec<StreamChunk>)
    ensures
        is_synthesis(r@, id@, model@, text@, finish_reason@, usage),
        forall|i: int| 0 <= i < r@.len() ==> (#[trigger] r@[i]).created == created,
{
    let tokens = tokenize_for_streaming(text);
    let mut out: Vec<StreamChunk> = Vec::new();
    out.push(first_chunk_at(id, model, "assistant", created));
    let mut i: usize = 0;
    while i < tokens.len()
        invariant
            i <= tokens.len(),
            views(tokens@) == stream_tokens(text@),
            out@.len() == i + 1,
            is_first_chunk(out@[0], id@, model@, "assistant"@),
            forall|k: int|
                0 <= k < i ==> is_content_chunk(
                    #[trigger] out@[k + 1],
                    id@,
                    model@,
                    stream_tokens(text@)[k],
                ),
            forall|k: int| 0 <= k < out@.len() ==> (#[trigger] out@[k]).created == created,
        decreases tokens.len() - i,
    {
        assert(views(tokens@)[i as int] == tokens@[i as int]@);
        out.push(content_chunk_at(id, model, tokens[i].as_str(), created));
        i = i + 1;
    }
    out.push(final_chunk_at(id, model, finish_reason, usage, created));
    out
}

/// A chunk bears a finish reason where its first choice has one.
pub open spec fn bears_finish_reason(c: StreamChunk) -> bool {
    c.choices@.len() > 0 && c.choices@[0].finish_reason is Some
}

/// A synthesised stream, sent to the caller, has two events or more
/// before the end marker. Its first event is a chunk with the assistant's role
/// and no content, exactly one event bears a finish reason, and that is the
/// last before the end marker.
pub proof fn lemma_synthesised_stream_shape(
    chunks: Seq<StreamChunk>,
    events: Seq<SseEvent>,
    id: Seq<char>,
    model: Seq<char>,
    text: Seq<char>,
    finish_reason: Seq<char>,
    usage: Option<Usage>,
)
    requires
        is_synthesis(chunks, id, model, text, finish_reason, usage),
        is_transcoding(events, chunks.map_values(|c: StreamChunk| Ok::<StreamChunk, ProviderError>(c))),
    ensures
        events.len() >= 3,
        events.last() == SseEvent::Done,
        events[0] matches SseEvent::Chunk(first) && opt_text(first.choices@[0].delta.role) == Some(
            "assistant"@,
        ) && first.choices@[0].delta.content is None,
        forall|i: int|
            0 <= i < events.len() ==> ((#[trigger] events[i] matches SseEvent::Chunk(c)
                && bears_finish_reason(c)) <==> i == events.len() - 2),
{
    let items = chunks.map_values(|c: StreamChunk| Ok::<StreamChunk, ProviderError>(c));
    let tokens = stream_tokens(text);
    assert forall|i: int| 0 <= i < chunks.len() implies events[i] == SseEvent::Chunk(chunks[i]) by {
        assert(is_event_of(events[i], items[i]));
    }
    assert forall|i: int| 0 <= i < events.len() implies ((#[trigger] events[i] matches SseEvent::Chunk(
        c,
    ) && bears_finish_reason(c)) <==> i == events.len() - 2) by {
        if i == 0 {
        } else if i < chunks.len() - 1 {
            assert(is_content_chunk(chunks[(i - 1) + 1], id, model, tokens[i - 1]));
        } else if i == chunks.len() - 1 {
        } else {
        }
    }
}

} // verus!
