use inference_server::config::HttpConfigSchema;
use inference_server::http_client::{
    after_attempt, after_stream_attempt, compute_backoff, failure_of, join_url, json_of_body,
    Attempt, Decision,
};
use inference_server::json::{Json, Number};
use inference_server::providers::ProviderError;

fn config(max_retries: u32, backoff: u64) -> HttpConfigSchema {
    HttpConfigSchema { max_retries, retry_backoff_ms: backoff, ..HttpConfigSchema::default() }
}

fn answer(status: u16) -> Attempt {
    Attempt::Answer { status, body: format!("body-{status}") }
}

/// Runs a call against a server that gives the outcomes in their order.
fn run(config: &HttpConfigSchema, mut outcomes: Vec<Attempt>) -> (Result<String, ProviderError>, u32, Vec<u64>) {
    outcomes.reverse();
    let mut attempt = 0u32;
    let mut waits = Vec::new();
    loop {
        attempt += 1;
        let outcome = outcomes.pop().expect("the call went on past the last outcome");
        match after_attempt(config, attempt, outcome) {
            Decision::Finish(result) => return (result, attempt, waits),
            Decision::Retry { delay_ms } => waits.push(delay_ms),
        }
    }
}

#[test]
fn a_call_succeeds_where_the_failures_are_no_more_than_the_retries() {
    for max_retries in 0u32..5 {
        for failures in 0usize..8 {
            let mut outcomes: Vec<Attempt> = (0..failures).map(|_| answer(503)).collect();
            outcomes.push(answer(200));
            let (result, attempts, waits) = run(&config(max_retries, 250), outcomes);
            if failures as u32 <= max_retries {
                assert_eq!(result.unwrap(), "body-200");
                assert_eq!(attempts as usize, failures + 1);
                assert_eq!(waits.len(), failures);
            } else {
                match result {
                    Err(ProviderError::RequestFailed { status, message }) => {
                        assert_eq!(status, 503);
                        assert_eq!(message, "body-503");
                    }
                    other => panic!("{other:?}"),
                }
                assert_eq!(attempts, max_retries + 1);
                assert_eq!(waits.len(), max_retries as usize);
            }
        }
    }
}

#[test]
fn the_backoff_doubles() {
    let (_, _, waits) =
        run(&config(3, 250), vec![answer(503), answer(500), answer(599), answer(503)]);
    assert_eq!(waits, vec![250, 500, 1000]);
    assert_eq!(compute_backoff(250, 1), 250);
    assert_eq!(compute_backoff(250, 2), 500);
    assert_eq!(compute_backoff(250, 5), 4000);
    assert_eq!(compute_backoff(0, 9), 0);
    assert_eq!(compute_backoff(1, 64), 1u64 << 63);
    assert_eq!(compute_backoff(1, 65), u64::MAX);
    assert_eq!(compute_backoff(3, 63), 3u64 << 62);
    assert_eq!(compute_backoff(3, 64), u64::MAX);
    assert_eq!(compute_backoff(u64::MAX, 1), u64::MAX);
    assert_eq!(compute_backoff(u64::MAX, 2), u64::MAX);
    assert_eq!(compute_backoff(7, 1000), u64::MAX);
}

#[test]
fn a_client_error_is_never_tried_again() {
    for status in [400u16, 401, 404, 429, 499] {
        let (result, attempts, waits) = run(&config(5, 10), vec![answer(status), answer(200)]);
        assert_eq!(attempts, 1);
        assert!(waits.is_empty());
        assert!(matches!(result, Err(ProviderError::RequestFailed { status: s, .. }) if s == status));
    }
    for status in [100u16, 301, 600, 0] {
        let (result, attempts, _) = run(&config(5, 10), vec![answer(status), answer(200)]);
        assert_eq!(attempts, 1);
        assert!(result.is_err());
    }
}

#[test]
fn failures_of_the_transport() {
    let (result, attempts, waits) = run(
        &config(2, 100),
        vec![Attempt::TimedOut, Attempt::ConnectFailed("refused".to_string()), answer(204)],
    );
    assert_eq!(result.unwrap(), "body-204");
    assert_eq!(attempts, 3);
    assert_eq!(waits, vec![100, 200]);

    let (result, attempts, _) = run(&config(1, 100), vec![Attempt::TimedOut, Attempt::TimedOut]);
    assert!(matches!(result, Err(ProviderError::Timeout)));
    assert_eq!(attempts, 2);

    let (result, attempts, _) = run(
        &config(0, 100),
        vec![Attempt::ConnectFailed("refused".to_string())],
    );
    assert!(matches!(result, Err(ProviderError::ConnectionFailed(m)) if m == "refused"));
    assert_eq!(attempts, 1);

    let (result, attempts, _) =
        run(&config(5, 100), vec![Attempt::Failed("tls".to_string()), answer(200)]);
    assert!(matches!(
        result,
        Err(ProviderError::RequestFailed { status: 0, message }) if message == "tls"
    ));
    assert_eq!(attempts, 1);
    assert!(matches!(failure_of(Attempt::TimedOut), ProviderError::Timeout));
}

#[test]
fn a_stream_is_never_tried_again() {
    assert_eq!(after_stream_attempt(answer(200)).unwrap(), "body-200");
    match after_stream_attempt(answer(503)) {
        Err(ProviderError::RequestFailed { status, message }) => {
            assert_eq!(status, 503);
            assert_eq!(message, "body-503");
        }
        other => panic!("{other:?}"),
    }
    assert!(matches!(after_stream_attempt(Attempt::TimedOut), Err(ProviderError::Timeout)));
}

#[test]
fn joining_a_url() {
    for (base, path, url) in [
        ("http://h:1", "v1/models", "http://h:1/v1/models"),
        ("http://h:1/", "v1/models", "http://h:1/v1/models"),
        ("http://h:1", "/v1/models", "http://h:1/v1/models"),
        ("http://h:1/", "/v1/models", "http://h:1/v1/models"),
        ("http://h:1///", "///v1/models/", "http://h:1/v1/models/"),
        ("https://api.openai.com/v1", "chat/completions", "https://api.openai.com/v1/chat/completions"),
        ("", "", "/"),
        ("/", "/", "/"),
        ("a", "", "a/"),
        ("", "b", "/b"),
        ("http://h/é/", "/ü", "http://h/é/ü"),
    ] {
        assert_eq!(join_url(base, path), url, "{base:?} {path:?}");
        assert_eq!(
            join_url(base, path),
            format!("{}/{}", base.trim_end_matches('/'), path.trim_start_matches('/'))
        );
    }
}

#[test]
fn the_body_of_an_answer() {
    assert!(matches!(json_of_body(" 3 "), Ok(Json::Number(Number::PosInt(3)))));
    match json_of_body("") {
        Err(ProviderError::InvalidResponse(m)) => {
            assert!(m.starts_with("Invalid JSON response: "));
            assert!(m.len() > "Invalid JSON response: ".len());
        }
        other => panic!("{other:?}"),
    }
}
