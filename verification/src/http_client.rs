//! The rules of the HTTP client that the adapters share: how a URL is put
//! together, which headers every call bears, what a failed attempt becomes and
//! when a call is tried again.

use vstd::prelude::*;
use vstd::string::*;
use crate::config::HttpConfigSchema;
use crate::json::{json_document, parse_json, Json};
use crate::providers::lmstudio::{is_success, status_is_success};
use crate::providers::ProviderError;
use crate::text::{chars_of, concat2, concat3};

verus! {

/// What one attempt of a call gave.
#[derive(Clone, Debug)]
pub enum Attempt {
    /// An answer, with its status and its body.
    Answer { status: u16, body: String },
    /// The transport ran out of time.
    TimedOut,
    /// No connection could be made.
    ConnectFailed(String),
    /// The transport failed in another way.
    Failed(String),
}

/// What to do after an attempt.
#[derive(Debug)]
pub enum Decision {
    /// The call is over: the body of the answer, or the failure.
    Finish(Result<String, ProviderError>),
    /// Wait, and try once more.
    Retry { delay_ms: u64 },
}

/// An attempt is worth another try where the transport timed out or could
/// not connect, and where the status is of the 5xx class.
pub open spec fn is_retryable(attempt: Attempt) -> bool {
    match attempt {
        Attempt::Answer { status, .. } => 500 <= status <= 599,
        Attempt::TimedOut => true,
        Attempt::ConnectFailed(_) => true,
        Attempt::Failed(_) => false,
    }
}

/// `base` doubled `times` times.
pub open spec fn doubled(base: nat, times: nat) -> nat
    decreases times,
{
    if times == 0 {
        base
    } else {
        2 * doubled(base, (times - 1) as nat)
    }
}

/// The pause before the next try, after the attempt of number `attempt`
/// (counted from 1): the backoff doubled for each attempt before that one, and
/// the largest `u64` where that is out of range.
pub open spec fn backoff_delay(backoff_ms: u64, attempt: u32) -> u64 {
    let exact = doubled(backoff_ms as nat, (attempt - 1) as nat);
    if exact > u64::MAX {
        u64::MAX
    } else {
        exact as u64
    }
}

proof fn lemma_doubled_grows(base: nat, times: nat)
    ensures
        doubled(base, times) >= base,
        doubled(base, times + 1) == 2 * doubled(base, times),
    decreases times,
{
    if times > 0 {
        lemma_doubled_grows(base, (times - 1) as nat);
    }
}

/// Computes the pause before the next try.
pub fn compute_backoff(backoff_ms: u64, attempt: u32) -> (r: u64)
    requires
        attempt >= 1,
    ensures
        r == backoff_delay(backoff_ms, attempt),
{
    let mut delay: u64 = backoff_ms;
    let mut done: u32 = 1;
    while done < attempt
        invariant
            1 <= done <= attempt,
            delay == (if doubled(backoff_ms as nat, (done - 1) as nat) > u64::MAX {
                u64::MAX
            } else {
                doubled(backoff_ms as nat, (done - 1) as nat) as u64
            }),
        decreases attempt - done,
    {
        proof {
            lemma_doubled_grows(backoff_ms as nat, (done - 1) as nat);
        }
        delay = if delay > u64::MAX / 2 {
            u64::MAX
        } else {
            delay * 2
        };
        done = done + 1;
    }
    delay
}

/// The failure that an attempt stands for, where it is no success: a
/// timeout, a failed connection, a failed request with status 0 for any other
/// failure of the transport, and a failed request with the status and the body
/// of an answer.
pub open spec fn is_failure_of(e: ProviderError, attempt: Attempt) -> bool {
    match attempt {
        Attempt::Answer { status, body } => e == (ProviderError::RequestFailed {
            status,
            message: body,
        }),
        Attempt::TimedOut => e == ProviderError::Timeout,
        Attempt::ConnectFailed(reason) => e == ProviderError::ConnectionFailed(reason),
        Attempt::Failed(reason) => e == (ProviderError::RequestFailed { status: 0, message: reason }),
    }
}

/// An attempt that is an answer with a status of the 2xx class.
pub open spec fn is_answered(attempt: Attempt) -> bool {
    attempt matches Attempt::Answer { status, .. } && is_success(status)
}

/// Maps an attempt that is no success to its failure.
pub fn failure_of(attempt: Attempt) -> (e: ProviderError)
    ensures
        is_failure_of(e, attempt),
{
    match attempt {
        Attempt::Answer { status, body } => ProviderError::RequestFailed { status, message: body },
        Attempt::TimedOut => ProviderError::Timeout,
        Attempt::ConnectFailed(reason) => ProviderError::ConnectionFailed(reason),
        Attempt::Failed(reason) => ProviderError::RequestFailed { status: 0, message: reason },
    }
}

/// Whether the attempt of number `attempt` is followed by another: it is
/// worth another try, and fewer than `max_retries` tries were made after the
/// first.
pub open spec fn tries_again(max_retries: u32, attempt: u32, outcome: Attempt) -> bool {
    is_retryable(outcome) && attempt <= max_retries
}

/// `d` is what follows the attempt of number `attempt` of a call that may
/// be tried again: the body where the answer is a success, a pause and a new
/// try where `tries_again` holds, and the failure of the attempt else.
pub open spec fn is_decision(d: Decision, config: HttpConfigSchema, attempt: u32, outcome: Attempt) -> bool {
    if is_answered(outcome) {
        d == Decision::Finish(Ok(outcome->body))
    } else if tries_again(config.max_retries, attempt, outcome) {
        d == (Decision::Retry { delay_ms: backoff_delay(config.retry_backoff_ms, attempt) })
    } else {
        d matches Decision::Finish(Err(e)) && is_failure_of(e, outcome)
    }
}

fn retryable(outcome: &Attempt) -> (r: bool)
    ensures
        r == is_retryable(*outcome),
{
    match outcome {
        Attempt::Answer { status, .. } => 500 <= *status && *status <= 599,
        Attempt::TimedOut => true,
        Attempt::ConnectFailed(_) => true,
        Attempt::Failed(_) => false,
    }
}

/// Decides what follows an attempt of a call that may be tried again.
pub fn after_attempt(config: &HttpConfigSchema, attempt: u32, outcome: Attempt) -> (d: Decision)
    requires
        attempt >= 1,
    ensures
        is_decision(d, *config, attempt, outcome),
{
    let answered = match &outcome {
        Attempt::Answer { status, .. } => status_is_success(*status),
        _ => false,
    };
    if answered {
        match outcome {
            Attempt::Answer { status, body } => Decision::Finish(Ok(body)),
            other => Decision::Finish(Err(failure_of(other))),
        }
    } else if retryable(&outcome) && attempt <= config.max_retries {
        Decision::Retry { delay_ms: compute_backoff(config.retry_backoff_ms, attempt) }
    } else {
        Decision::Finish(Err(failure_of(outcome)))
    }
}

/// Decides what a streaming call makes of its one attempt: it is never
/// tried again.
pub fn after_stream_attempt(outcome: Attempt) -> (r: Result<String, ProviderError>)
    ensures
        if is_answered(outcome) {
            r == Ok::<String, ProviderError>(outcome->body)
        } else {
            r matches Err(e) && is_failure_of(e, outcome)
        },
{
    let answered = match &outcome {
        Attempt::Answer { status, .. } => status_is_success(*status),
        _ => false,
    };
    if answered {
        match outcome {
            Attempt::Answer { status, body } => Ok(body),
            other => Err(failure_of(other)),
        }
    } else {
        Err(failure_of(outcome))
    }
}

/// The number of the attempt that ends a call, where the attempt of
/// number `k` gives `outcomes[k - 1]`, counted on from the attempt `attempt`.
pub open spec fn last_attempt(max_retries: u32, outcomes: Seq<Attempt>, attempt: nat) -> nat
    decreases outcomes.len() - attempt,
{
    if attempt < 1 || attempt >= outcomes.len() || attempt > u32::MAX || !tries_again(
        max_retries,
        attempt as u32,
        outcomes[attempt - 1],
    ) {
        attempt
    } else {
        last_attempt(max_retries, outcomes, attempt + 1)
    }
}

/// A server that answers `failures` times with 503 and with 200 after
/// that.
pub open spec fn flaky_server(failures: nat, body: String) -> Seq<Attempt> {
    Seq::new(
        failures + 1,
        |k: int|
            if k < failures {
                Attempt::Answer { status: 503, body }
            } else {
                Attempt::Answer { status: 200, body }
            },
    )
}

proof fn lemma_flaky_run(max_retries: u32, failures: nat, body: String, attempt: nat)
    requires
        1 <= attempt <= failures + 1,
        attempt <= max_retries + 1,
    ensures
        last_attempt(max_retries, flaky_server(failures, body), attempt) == (if failures
            <= max_retries {
            failures + 1
        } else {
            (max_retries + 1) as nat
        }),
    decreases failures + 1 - attempt,
{
    let outcomes = flaky_server(failures, body);
    if attempt < outcomes.len() && attempt <= max_retries {
        assert(tries_again(max_retries, attempt as u32, outcomes[attempt - 1]));
        lemma_flaky_run(max_retries, failures, body, attempt + 1);
    }
}

/// Against a server that answers `failures` times with 503 and with 200
/// after that, a call ends with the success exactly where `failures` is at
/// most `max_retries`; else it ends with a 503 after `max_retries + 1`
/// attempts. An answer of the 4xx class is never followed by another try.
pub proof fn lemma_retry_policy(max_retries: u32, failures: nat, body: String, attempt: u32, status: u16)
    ensures
        is_answered(
            flaky_server(failures, body)[last_attempt(
                max_retries,
                flaky_server(failures, body),
                1,
            ) - 1],
        ) <==> failures <= max_retries,
        failures > max_retries ==> last_attempt(max_retries, flaky_server(failures, body), 1)
            == max_retries + 1,
        400 <= status <= 499 ==> !tries_again(
            max_retries,
            attempt,
            Attempt::Answer { status, body },
        ),
{
    lemma_flaky_run(max_retries, failures, body, 1);
}

/// The text without the slashes at its end.
pub open spec fn trim_end_slashes(s: Seq<char>) -> Seq<char>
    decreases s.len(),
{
    if s.len() > 0 && s.last() == '/' {
        trim_end_slashes(s.drop_last())
    } else {
        s
    }
}

/// The text without the slashes at its start.
pub open spec fn trim_start_slashes(s: Seq<char>) -> Seq<char>
    decreases s.len(),
{
    if s.len() > 0 && s[0] == '/' {
        trim_start_slashes(s.drop_first())
    } else {
        s
    }
}

/// The URL of a path under a base: the base without slashes at its end,
/// one slash, and the path without slashes at its start.
pub open spec fn joined_url(base: Seq<char>, path: Seq<char>) -> Seq<char> {
    trim_end_slashes(base) + "/"@ + trim_start_slashes(path)
}

/// What is trimmed off a base is slashes at its end and nothing else, and
/// what is left does not end with a slash.
pub proof fn lemma_trim_end(s: Seq<char>)
    ensures
        trim_end_slashes(s).len() <= s.len(),
        trim_end_slashes(s) == s.subrange(0, trim_end_slashes(s).len() as int),
        forall|i: int| trim_end_slashes(s).len() <= i < s.len() ==> s[i] == '/',
        trim_end_slashes(s).len() > 0 ==> trim_end_slashes(s).last() != '/',
    decreases s.len(),
{
    if s.len() > 0 && s.last() == '/' {
        let head = s.drop_last();
        lemma_trim_end(head);
        let kept = trim_end_slashes(head);
        assert(s.subrange(0, kept.len() as int) =~= head.subrange(0, kept.len() as int));
        assert forall|i: int| kept.len() <= i < s.len() implies s[i] == '/' by {
            if i < head.len() {
                assert(head[i] == s[i]);
            }
        }
    } else {
        assert(s.subrange(0, s.len() as int) =~= s);
    }
}

/// What is trimmed off a path is slashes at its start and nothing else,
/// and what is left does not start with a slash.
pub proof fn lemma_trim_start(s: Seq<char>)
    ensures
        trim_start_slashes(s).len() <= s.len(),
        trim_start_slashes(s) == s.subrange(
            s.len() - trim_start_slashes(s).len(),
            s.len() as int,
        ),
        forall|i: int| 0 <= i < s.len() - trim_start_slashes(s).len() ==> s[i] == '/',
        trim_start_slashes(s).len() > 0 ==> trim_start_slashes(s)[0] != '/',
    decreases s.len(),
{
    if s.len() > 0 && s[0] == '/' {
        let tail = s.drop_first();
        lemma_trim_start(tail);
        let kept = trim_start_slashes(tail);
        assert(s.subrange(s.len() - kept.len(), s.len() as int) =~= tail.subrange(
            tail.len() - kept.len(),
            tail.len() as int,
        ));
        assert forall|i: int| 0 <= i < s.len() - kept.len() implies s[i] == '/' by {
            if i > 0 {
                assert(tail[i - 1] == s[i]);
            }
        }
    } else {
        assert(s.subrange(0, s.len() as int) =~= s);
    }
}

/// Puts the URL of a path under a base together.
pub fn join_url(base: &str, path: &str) -> (r: String)
    ensures
        r@ == joined_url(base@, path@),
{
    let b = chars_of(base);
    let mut end: usize = b.len();
    assert(base@.subrange(0, end as int) =~= base@);
    while end > 0 && b[end - 1] == '/'
        invariant
            end <= b.len(),
            b@ == base@,
            trim_end_slashes(base@) == trim_end_slashes(base@.subrange(0, end as int)),
        decreases end,
    {
        assert(base@.subrange(0, end as int).drop_last() =~= base@.subrange(0, end - 1));
        end = end - 1;
    }
    let p = chars_of(path);
    let n: usize = p.len();
    let mut start: usize = 0;
    assert(path@.subrange(0, n as int) =~= path@);
    while start < n && p[start] == '/'
        invariant
            start <= n,
            n == p.len(),
            p@ == path@,
            trim_start_slashes(path@) == trim_start_slashes(path@.subrange(start as int, n as int)),
        decreases n - start,
    {
        assert(path@.subrange(start as int, n as int).drop_first() =~= path@.subrange(
            start + 1,
            n as int,
        ));
        start = start + 1;
    }
    concat3(base.substring_char(0, end), "/", path.substring_char(start, n))
}

/// What the body of a successful answer is read as: the document, or a
/// failure where it is no JSON.
pub open spec fn is_body_reading(r: Result<Json, ProviderError>, parsed: Result<Json, String>) -> bool {
    match parsed {
        Ok(j) => r == Ok::<Json, ProviderError>(j),
        Err(e) => r matches Err(ProviderError::InvalidResponse(m)) && m@ == "Invalid JSON response: "@
            + e@,
    }
}

/// Maps the parsed body of an answer.
pub fn read_body(parsed: Result<Json, String>) -> (r: Result<Json, ProviderError>)
    ensures
        is_body_reading(r, parsed),
{
    match parsed {
        Ok(j) => Ok(j),
        Err(e) => Err(ProviderError::InvalidResponse(concat2("Invalid JSON response: ", e.as_str()))),
    }
}

/// Reads the body of a successful answer as JSON.
pub fn json_of_body(body: &str) -> (r: Result<Json, ProviderError>)
    ensures
        is_body_reading(r, json_document(body@)),
{
    read_body(parse_json(body))
}

/// A header that every call of a client bears.
#[derive(Clone, Debug)]
pub struct Header {
    pub name: String,
    pub value: String,
}

/// The headers of the hosted API: the key as a bearer token, the
/// organisation where one is set, and the content type.
pub fn default_headers(api_key: &str, organization_id: Option<&str>) -> (r: Vec<Header>)
    ensures
        r@.len() == (if organization_id is Some {
            3int
        } else {
            2int
        }),
        r@[0].name@ == "Authorization"@,
        r@[0].value@ == "Bearer "@ + api_key@,
        organization_id matches Some(org) ==> r@[1].name@ == "OpenAI-Organization"@ && r@[1].value@
            == org@,
        r@.last().name@ == "Content-Type"@,
        r@.last().value@ == "application/json"@,
{
    let mut r: Vec<Header> = Vec::new();
    r.push(
        Header { name: String::from_str("Authorization"), value: concat2("Bearer ", api_key) },
    );
    match organization_id {
        Some(org) => {
            r.push(
                Header {
                    name: String::from_str("OpenAI-Organization"),
                    value: String::from_str(org),
                },
            );
        },
        None => {},
    }
    r.push(
        Header {
            name: String::from_str("Content-Type"),
            value: String::from_str("application/json"),
        },
    );
    r
}

} // verus!
