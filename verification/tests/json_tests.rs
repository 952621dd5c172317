use inference_server::codec::{
    decode_chunk, decode_completion, decode_message, decode_model_ids, encode_message,
    encode_messages,
};
use inference_server::json::{find_member, put, put_opt, Json, Member, Number};
use inference_server::models::{FunctionCall, Message, ToolCall};

fn parse_json(text: &str) -> Result<Json, String> {
    match inference_server::http_client::json_of_body(text) {
        Ok(json) => Ok(json),
        Err(inference_server::providers::ProviderError::InvalidResponse(m)) => Err(m),
        Err(other) => panic!("{other:?}"),
    }
}

#[test]
fn a_document_is_read_as_a_tree() {
    let doc = parse_json(
        r#"{"n": null, "t": true, "f": false, "u": 18446744073709551615, "i": -9223372036854775808,
            "z": 0, "x": 1.5, "e": 1e2, "m": -0.0, "s": "a\"bé", "a": [1, [2], {}], "o": {"k": "v"}}"#,
    )
    .unwrap();
    assert!(matches!(doc.get("n"), Some(Json::Null)));
    assert!(matches!(doc.get("t"), Some(Json::Bool(true))));
    assert!(matches!(doc.get("f"), Some(Json::Bool(false))));
    assert!(matches!(doc.get("u"), Some(Json::Number(Number::PosInt(u64::MAX)))));
    assert!(matches!(doc.get("i"), Some(Json::Number(Number::NegInt(i64::MIN)))));
    assert!(matches!(doc.get("z"), Some(Json::Number(Number::PosInt(0)))));
    assert!(matches!(doc.get("x"), Some(Json::Number(Number::Float(v))) if v.to_bits() == 1.5f64.to_bits()));
    assert!(matches!(doc.get("e"), Some(Json::Number(Number::Float(v))) if v.to_bits() == 100.0f64.to_bits()));
    assert!(matches!(doc.get("m"), Some(Json::Number(Number::Float(v))) if v.to_bits() == (-0.0f64).to_bits()));
    assert!(matches!(doc.get("s"), Some(Json::String(s)) if s == "a\"bé"));
    match doc.get("a") {
        Some(Json::Array(items)) => {
            assert_eq!(items.len(), 3);
            assert!(matches!(&items[1], Json::Array(inner) if inner.len() == 1));
            assert!(matches!(&items[2], Json::Object(ms) if ms.is_empty()));
        }
        other => panic!("{other:?}"),
    }
    assert!(matches!(doc.get("o").and_then(|o| o.get("k")), Some(Json::String(s)) if s == "v"));
    assert!(doc.get("missing").is_none());
    assert!(doc.get("o").unwrap().get("n").is_none());
    assert!(Json::Null.get("n").is_none());
    assert_eq!(doc.get("s").unwrap().as_str(), Some("a\"bé"));
    assert_eq!(doc.get("z").unwrap().as_i64(), Some(0));
    assert_eq!(doc.get("u").unwrap().as_i64(), None);
    assert_eq!(doc.get("u").unwrap().as_u64(), Some(u64::MAX));
    assert_eq!(doc.get("i").unwrap().as_u64(), None);
    assert_eq!(doc.get("x").unwrap().as_i64(), None);
    assert_eq!(doc.get("t").unwrap().as_i64(), None);
    assert!(doc.get("x").unwrap().as_number().is_some());
    assert!(doc.get("s").unwrap().as_number().is_none());
    assert!(doc.get("s").unwrap().is_string());
    assert!(doc.get("t").unwrap().is_boolean());
    assert!(doc.get("n").unwrap().is_null());
}

#[test]
fn a_text_that_is_no_document() {
    for text in ["", "{", "{\"a\":}", "[1,]", "nul", "{\"a\":1} x", "'a'"] {
        let error = parse_json(text).unwrap_err();
        assert!(error.starts_with("Invalid JSON response: "), "{text:?}");
        assert!(error.len() > "Invalid JSON response: ".len());
        assert!(!error.ends_with(text) || text.is_empty());
    }
    let a = parse_json("{").unwrap_err();
    let b = parse_json("{").unwrap_err();
    assert_eq!(a, b);
}

#[test]
fn the_last_member_of_a_key_counts() {
    let mut ms: Vec<Member> = Vec::new();
    put(&mut ms, "a", Json::Bool(false));
    put(&mut ms, "b", Json::Null);
    put(&mut ms, "a", Json::Bool(true));
    put_opt(&mut ms, "c", None);
    put_opt(&mut ms, "b", Some(Json::String("x".to_string())));
    assert_eq!(ms.len(), 4);
    assert!(matches!(find_member(&ms, "a"), Some(Json::Bool(true))));
    assert!(matches!(find_member(&ms, "b"), Some(Json::String(_))));
    assert!(find_member(&ms, "c").is_none());
    let copy = Json::Object(ms).clone();
    assert!(matches!(copy.get("a"), Some(Json::Bool(true))));
}

fn message() -> Message {
    Message {
        role: "assistant".to_string(),
        content: Some("text".to_string()),
        name: Some("n".to_string()),
        tool_calls: Some(vec![ToolCall {
            id: "c1".to_string(),
            tool_type: "function".to_string(),
            function: FunctionCall { name: "f".to_string(), arguments: "{}".to_string() },
        }]),
        tool_call_id: Some("t".to_string()),
        function_call: Some(FunctionCall { name: "g".to_string(), arguments: "[]".to_string() }),
        refusal: Some("no".to_string()),
    }
}

#[test]
fn a_message_that_is_written_reads_back() {
    for original in [message(), Message::new("user", "hi"), Message::default(), Message::tool_response("c9", "done")] {
        let json = encode_message(&original);
        let back = decode_message(&json).unwrap();
        assert_eq!(back.role, original.role);
        assert_eq!(back.content, original.content);
        assert_eq!(back.name, original.name);
        assert_eq!(back.tool_call_id, original.tool_call_id);
        assert_eq!(back.refusal, original.refusal);
        assert_eq!(back.tool_calls.is_some(), original.tool_calls.is_some());
        assert_eq!(back.function_call.is_some(), original.function_call.is_some());
        if let (Some(a), Some(b)) = (&back.tool_calls, &original.tool_calls) {
            assert_eq!(a.len(), b.len());
            assert_eq!(a[0].id, b[0].id);
            assert_eq!(a[0].tool_type, b[0].tool_type);
            assert_eq!(a[0].function.name, b[0].function.name);
            assert_eq!(a[0].function.arguments, b[0].function.arguments);
        }
    }
    let plain = encode_message(&Message::new("user", "hi"));
    match &plain {
        Json::Object(ms) => assert_eq!(ms.len(), 2),
        other => panic!("{other:?}"),
    }
    assert_eq!(encode_messages(&vec![message(), message()]).len(), 2);
    let tool = Message::tool_response("c9", "done");
    assert_eq!(tool.role, "tool");
    assert_eq!(tool.tool_call_id.as_deref(), Some("c9"));
    assert_eq!(tool.content.as_deref(), Some("done"));
}

#[test]
fn messages_that_do_not_read() {
    for text in [
        "{}",
        r#"{"role": 1}"#,
        r#"{"role": null}"#,
        r#"{"role": "a", "content": 3}"#,
        r#"{"role": "a", "tool_calls": {}}"#,
        r#"{"role": "a", "tool_calls": [{"id": "x"}]}"#,
        r#"{"role": "a", "function_call": {"name": "f"}}"#,
        r#"["a"]"#,
    ] {
        assert!(decode_message(&parse_json(text).unwrap()).is_none(), "{text}");
    }
    let lenient = parse_json(r#"{"role": "a", "content": null, "extra": [1], "tool_calls": null}"#).unwrap();
    let m = decode_message(&lenient).unwrap();
    assert!(m.content.is_none() && m.tool_calls.is_none());
}

#[test]
fn completions_and_chunks_that_do_not_read() {
    let base = r#"{"id":"x","object":"o","created":1,"model":"m","choices":[]}"#;
    assert!(decode_completion(&parse_json(base).unwrap()).is_some());
    assert!(decode_chunk(&parse_json(base).unwrap()).is_some());
    for broken in [
        base.replace("\"created\":1", "\"created\":-1"),
        base.replace("\"created\":1", "\"created\":1.0"),
        base.replace("\"created\":1", "\"created\":\"1\""),
        base.replace("\"choices\":[]", "\"choices\":{}"),
        base.replace("\"choices\":[]", "\"choices\":[{}]"),
        base.replace("\"choices\":[]", "\"choices\":[{\"index\":4294967296}]"),
        base.replace("\"choices\":[]", "\"choices\":[],\"usage\":3"),
        base.replace("\"choices\":[]", "\"choices\":[],\"usage\":{\"total_tokens\":-1}"),
        base.replace("\"choices\":[]", "\"choices\":[],\"system_fingerprint\":7"),
        base.replace("\"id\":\"x\",", ""),
        base.replace("\"model\":\"m\",", ""),
    ] {
        let json = parse_json(&broken).unwrap();
        assert!(decode_completion(&json).is_none(), "{broken}");
        assert!(decode_chunk(&json).is_none(), "{broken}");
    }
    let with_choice = base.replace("\"choices\":[]", "\"choices\":[{\"index\":0}]");
    assert!(decode_completion(&parse_json(&with_choice).unwrap()).is_some());
    assert!(decode_chunk(&parse_json(&with_choice).unwrap()).is_none());
    let extended = base.replace(
        "\"choices\":[]",
        "\"choices\":[],\"provider_extensions\":{\"provider\":\"p\",\"data\":{\"k\":[1,2]}}",
    );
    let c = decode_completion(&parse_json(&extended).unwrap()).unwrap();
    let e = c.provider_extensions.unwrap();
    assert_eq!(e.provider, "p");
    assert!(matches!(find_member(&e.data, "k"), Some(Json::Array(items)) if items.len() == 2));
    assert!(decode_model_ids(&parse_json("[]").unwrap()).is_none());
}
