use inference_server::models::{StreamChunk, Usage};
use inference_server::providers::{
    create_content_chunk, create_final_chunk, create_first_chunk, tokenize_for_streaming,
    ProviderError,
};
use inference_server::streaming::{
    chunk_of_document, event_of, on_event, on_framing_failure, synthesize_chunks, transcode,
    SseEvent, StreamState,
};

#[test]
fn tokens_are_words_with_a_space() {
    assert_eq!(tokenize_for_streaming("hello world"), vec!["hello ", "world "]);
    assert_eq!(tokenize_for_streaming("  a\n\tb  "), vec!["a ", "b "]);
    assert_eq!(tokenize_for_streaming(""), Vec::<String>::new());
    assert_eq!(tokenize_for_streaming("one"), vec!["one "]);
    let text = "The quick  brown\nfox";
    let expected: Vec<String> = text.split_whitespace().map(|w| format!("{w} ")).collect();
    assert_eq!(tokenize_for_streaming(text), expected);
}

#[test]
fn the_three_kinds_of_chunk() {
    let before = std::time::SystemTime::now()
        .duration_since(std::time::UNIX_EPOCH)
        .unwrap()
        .as_secs();
    let first = create_first_chunk("id-1", "m", "assistant");
    let content = create_content_chunk("id-1", "m", "tok ");
    let usage = Usage::new(2, 1);
    let last = create_final_chunk("id-1", "m", "length", Some(usage));
    let after = std::time::SystemTime::now()
        .duration_since(std::time::UNIX_EPOCH)
        .unwrap()
        .as_secs();
    for chunk in [&first, &content, &last] {
        assert_eq!(chunk.id, "id-1");
        assert_eq!(chunk.model, "m");
        assert_eq!(chunk.object, "chat.completion.chunk");
        assert_eq!(chunk.choices.len(), 1);
        assert_eq!(chunk.choices[0].index, 0);
        assert!(chunk.system_fingerprint.is_none());
        assert!(chunk.choices[0].logprobs.is_none());
        assert!(chunk.choices[0].delta.tool_calls.is_none());
        assert!(chunk.choices[0].delta.refusal.is_none());
        assert!(before <= chunk.created && chunk.created <= after);
    }
    assert!(before > 1_600_000_000);
    assert_eq!(first.choices[0].delta.role.as_deref(), Some("assistant"));
    assert!(first.choices[0].delta.content.is_none());
    assert!(first.choices[0].finish_reason.is_none());
    assert!(first.usage.is_none());
    assert!(content.choices[0].delta.role.is_none());
    assert_eq!(content.choices[0].delta.content.as_deref(), Some("tok "));
    assert!(content.choices[0].finish_reason.is_none());
    assert!(content.usage.is_none());
    assert!(last.choices[0].delta.role.is_none());
    assert!(last.choices[0].delta.content.is_none());
    assert_eq!(last.choices[0].finish_reason.as_deref(), Some("length"));
    assert_eq!(last.usage, Some(usage));
    assert_eq!(usage.total_tokens, Some(3));
}

const CHUNK: &str = r#"{"id":"c1","object":"chat.completion.chunk","created":9,"model":"m",
    "choices":[{"index":0,"delta":{"content":"hi"},"finish_reason":null}]}"#;

#[test]
fn the_end_marker_closes_an_upstream_stream() {
    let (state, out) = on_event(StreamState::Open, CHUNK);
    assert_eq!(state, StreamState::Open);
    let chunk = out.unwrap().unwrap();
    assert_eq!(chunk.id, "c1");
    assert_eq!(chunk.created, 9);
    assert_eq!(chunk.choices[0].delta.content.as_deref(), Some("hi"));
    assert!(chunk.choices[0].finish_reason.is_none());

    let (state, out) = on_event(state, "[DONE]");
    assert_eq!(state, StreamState::Closed);
    assert!(out.is_none());

    let (state, out) = on_event(state, CHUNK);
    assert_eq!(state, StreamState::Closed);
    assert!(out.is_none());
    let (state, out) = on_event(state, "[DONE]");
    assert_eq!(state, StreamState::Closed);
    assert!(out.is_none());
    let (state, out) = on_framing_failure(state, "late");
    assert_eq!(state, StreamState::Closed);
    assert!(out.is_none());
}

#[test]
fn a_chunk_that_does_not_read_leaves_the_stream_open() {
    let (state, out) = on_event(StreamState::Open, "{oops");
    assert_eq!(state, StreamState::Open);
    match out {
        Some(Err(ProviderError::StreamError(m))) => {
            assert!(m.starts_with("Invalid stream chunk: "), "{m}");
            assert_ne!(m, "Invalid stream chunk: not a chunk");
        }
        other => panic!("{other:?}"),
    }
    for data in ["{}", "[DONE] ", "[done]", r#"{"id":"x","object":"o","created":1,"model":"m","choices":[{"index":0}]}"#] {
        let (state, out) = on_event(StreamState::Open, data);
        assert_eq!(state, StreamState::Open);
        match out {
            Some(Err(ProviderError::StreamError(m))) => {
                assert!(m.starts_with("Invalid stream chunk: "), "{data}: {m}")
            }
            other => panic!("{data}: {other:?}"),
        }
    }
    let (state, out) = on_framing_failure(StreamState::Open, "bad utf-8");
    assert_eq!(state, StreamState::Open);
    assert!(matches!(out, Some(Err(ProviderError::StreamError(m))) if m == "SSE error: bad utf-8"));
    assert!(matches!(
        chunk_of_document(Err("eof".to_string())),
        Err(ProviderError::StreamError(m)) if m == "Invalid stream chunk: eof"
    ));
}

#[test]
fn a_chunk_with_tool_call_pieces() {
    let data = r#"{"id":"c","object":"chat.completion.chunk","created":1,"model":"m",
        "system_fingerprint":"fp","usage":{"total_tokens":4},
        "choices":[{"index":1,"delta":{"role":"assistant","tool_calls":[
            {"id":"t1","type":"function","function":{"name":"f"}},
            {"function":{"arguments":"{\"a\""}}, {}]},"finish_reason":"tool_calls"}]}"#;
    let (_, out) = on_event(StreamState::Open, data);
    let chunk = out.unwrap().unwrap();
    assert_eq!(chunk.system_fingerprint.as_deref(), Some("fp"));
    assert_eq!(chunk.usage.unwrap().total_tokens, Some(4));
    assert_eq!(chunk.usage.unwrap().prompt_tokens, None);
    let choice = &chunk.choices[0];
    assert_eq!(choice.index, 1);
    assert_eq!(choice.finish_reason.as_deref(), Some("tool_calls"));
    let pieces = choice.delta.tool_calls.as_ref().unwrap();
    assert_eq!(pieces.len(), 3);
    assert_eq!(pieces[0].id.as_deref(), Some("t1"));
    assert_eq!(pieces[0].function.as_ref().unwrap().name.as_deref(), Some("f"));
    assert!(pieces[0].function.as_ref().unwrap().arguments.is_none());
    assert_eq!(pieces[1].function.as_ref().unwrap().arguments.as_deref(), Some("{\"a\""));
    assert!(pieces[2].id.is_none() && pieces[2].function.is_none());
}

fn chunk(text: &str) -> StreamChunk {
    create_content_chunk("id", "m", text)
}

#[test]
fn every_item_becomes_one_event_and_the_end_marker_comes_last() {
    let events = transcode(Vec::new());
    assert_eq!(events.len(), 1);
    assert!(matches!(events[0], SseEvent::Done));

    let items = vec![
        Ok(chunk("a")),
        Err(ProviderError::StreamError("broken".to_string())),
        Ok(chunk("b")),
        Err(ProviderError::Timeout),
    ];
    let events = transcode(items);
    assert_eq!(events.len(), 5);
    assert!(matches!(&events[0], SseEvent::Chunk(c) if c.choices[0].delta.content.as_deref() == Some("a")));
    match &events[1] {
        SseEvent::Error(e) => {
            assert_eq!(e.message, "Streaming error: broken");
            assert_eq!(e.error_type, "stream_error");
            assert!(e.param.is_none() && e.code.is_none());
        }
        other => panic!("{other:?}"),
    }
    assert!(matches!(&events[2], SseEvent::Chunk(c) if c.choices[0].delta.content.as_deref() == Some("b")));
    assert!(matches!(&events[3], SseEvent::Error(e) if e.message == "Request timed out"));
    assert!(matches!(events[4], SseEvent::Done));
    assert_eq!(events.iter().filter(|e| matches!(e, SseEvent::Done)).count(), 1);
    assert!(matches!(event_of(Ok(chunk("z"))), SseEvent::Chunk(_)));
}

#[test]
fn a_synthesised_stream_has_its_shape() {
    for text in ["", "one", "hello world", "a b c d e f g"] {
        let words = text.split_whitespace().count();
        let chunks = synthesize_chunks("id", "m", text, "stop", None, 5);
        assert_eq!(chunks.len(), words + 2);
        let events = transcode(chunks.into_iter().map(Ok).collect());
        assert!(events.len() >= 3);
        assert!(matches!(events.last(), Some(SseEvent::Done)));
        match &events[0] {
            SseEvent::Chunk(c) => {
                assert_eq!(c.choices[0].delta.role.as_deref(), Some("assistant"));
                assert!(c.choices[0].delta.content.is_none());
            }
            other => panic!("{other:?}"),
        }
        let finishing: Vec<usize> = events
            .iter()
            .enumerate()
            .filter(|(_, e)| matches!(e, SseEvent::Chunk(c) if c.choices[0].finish_reason.is_some()))
            .map(|(i, _)| i)
            .collect();
        assert_eq!(finishing, vec![events.len() - 2]);
    }
}
