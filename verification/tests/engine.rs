use aqara::client::engine::{
    decide, is_retryable_api_code, retry_delay_for_error, retry_delay_for_status,
    should_retry_error, should_retry_status, step, AttemptOutcome, RetryState, Step,
};
use aqara::status::StatusCode;
use aqara::transport::{TransportError, TransportErrorKind, TransportResponse};
use aqara::types::{AqaraValueResponse, BodySnippetConfig, RetryConfig};
use aqara::util::time::{ClockReading, Duration};
use aqara::Error;
use http::{HeaderMap, HeaderValue};

fn response(status: u16, retry_after: Option<&'static str>, body: &[u8]) -> TransportResponse {
    let mut headers = HeaderMap::new();
    if let Some(value) = retry_after {
        headers.insert("retry-after", HeaderValue::from_static(value));
    }
    TransportResponse { status: StatusCode::from_u16(status).unwrap(), headers, body: body.to_vec() }
}

fn failure(kind: TransportErrorKind) -> TransportError {
    TransportError { kind, message: "it failed".to_string() }
}

fn snippets() -> BodySnippetConfig {
    BodySnippetConfig::new(true, 2048)
}

fn now() -> ClockReading {
    ClockReading::Since(Duration::from_secs(1_000))
}

fn no_delay(max_retries: u32) -> RetryConfig {
    RetryConfig::new(max_retries, Duration::from_millis(0), Duration::from_millis(0))
}

/// Runs a call against a script of outcomes and counts the attempts.
fn run(
    retry: RetryConfig,
    idempotent: bool,
    mut script: Vec<AttemptOutcome>,
) -> (Result<AqaraValueResponse, Error>, usize, Vec<Duration>) {
    script.reverse();
    let mut state = RetryState::start(retry, idempotent);
    let mut attempts = 0;
    let mut delays = Vec::new();
    loop {
        let outcome = script.pop().expect("the script has an outcome for every attempt");
        attempts += 1;
        assert_eq!(state.attempt as usize, attempts);
        match step(state, outcome, retry, snippets()) {
            Step::Retry { delay, next } => {
                delays.push(delay);
                state = next;
            }
            Step::Done(result) => return (result, attempts, delays),
        }
    }
}

#[test]
fn does_not_retry_non_idempotent_on_500() {
    let script = vec![
        AttemptOutcome::Response(response(500, None, b"boom")),
        AttemptOutcome::Response(response(200, None, b"never reached")),
    ];
    let (result, attempts, delays) = run(no_delay(5), false, script);
    let err = result.unwrap_err();
    assert!(matches!(err, Error::Http { status, .. } if status.as_u16() == 500));
    assert_eq!(attempts, 1);
    assert!(delays.is_empty());
}

#[test]
fn retries_idempotent_on_429_retry_after() {
    let script = vec![
        AttemptOutcome::Response(response(429, Some("0"), b"rate limited")),
        AttemptOutcome::Response(response(
            200,
            None,
            br#"{"code":0,"requestId":"req-1","message":"Success"}"#,
        )),
    ];
    let (result, attempts, delays) = run(no_delay(1), true, script);
    let resp = result.unwrap();
    assert!(resp.status.is_success());
    assert_eq!(resp.request_id(), "req-1");
    assert_eq!(attempts, 2);
    assert_eq!(delays, vec![Duration::from_secs(0)]);
}

#[test]
fn idempotent_call_gives_up_when_attempts_are_used() {
    let script = vec![
        AttemptOutcome::Response(response(503, None, b"down")),
        AttemptOutcome::Failed(failure(TransportErrorKind::Timeout)),
        AttemptOutcome::Response(response(502, None, b"still down")),
    ];
    let (result, attempts, delays) = run(no_delay(2), true, script);
    let err = result.unwrap_err();
    assert!(matches!(err, Error::Http { status, .. } if status.as_u16() == 502));
    assert_eq!(attempts, 3);
    assert_eq!(delays.len(), 2);
}

#[test]
fn last_rate_limit_is_surfaced_when_attempts_are_used() {
    let script = vec![
        AttemptOutcome::Response(response(429, Some("0"), b"rate limited")),
        AttemptOutcome::Response(response(429, Some("3"), b"rate limited again")),
    ];
    let (result, attempts, _) = run(no_delay(1), true, script);
    match result.unwrap_err() {
        Error::RateLimited { retry_after, body_snippet, .. } => {
            assert_eq!(retry_after, Some(Duration::from_secs(3)));
            assert_eq!(body_snippet.as_deref(), Some("rate limited again"));
        }
        other => panic!("unexpected error: {other:?}"),
    }
    assert_eq!(attempts, 2);
}

#[test]
fn transport_failures_retry_only_timeouts_and_connects() {
    let state = RetryState::start(no_delay(3), true);
    let backoff = Duration::from_millis(40);
    for kind in [TransportErrorKind::Timeout, TransportErrorKind::Connect] {
        assert!(failure(kind).retryable());
        match decide(state, AttemptOutcome::Failed(failure(kind)), snippets(), now(), backoff) {
            Step::Retry { delay, next } => {
                assert_eq!(delay, backoff);
                assert_eq!(next.attempt, 2);
                assert_eq!(next.max_attempts, 4);
            }
            Step::Done(_) => panic!("expected a retry"),
        }
    }
    assert!(!failure(TransportErrorKind::Other).retryable());
    let other = AttemptOutcome::Failed(failure(TransportErrorKind::Other));
    match decide(state, other, snippets(), now(), backoff) {
        Step::Done(Err(Error::Transport { message })) => assert_eq!(message, "it failed"),
        _ => panic!("expected a transport error"),
    }
}

#[test]
fn non_idempotent_call_surfaces_transport_failure_at_once() {
    let script = vec![AttemptOutcome::Failed(failure(TransportErrorKind::Timeout))];
    let (result, attempts, _) = run(no_delay(5), false, script);
    assert!(matches!(result, Err(Error::Transport { .. })));
    assert_eq!(attempts, 1);
}

#[test]
fn retryable_business_codes_are_retried() {
    let state = RetryState::start(no_delay(3), true);
    let backoff = Duration::from_millis(40);
    for code in [100, 104, 500, 501] {
        let body = format!(r#"{{"code":{code},"requestId":"r","message":"m"}}"#);
        let outcome = AttemptOutcome::Response(response(200, None, body.as_bytes()));
        match decide(state, outcome, snippets(), now(), backoff) {
            Step::Retry { delay, .. } => assert_eq!(delay, backoff),
            Step::Done(_) => panic!("expected a retry for code {code}"),
        }
    }
    let body = br#"{"code":429,"requestId":"r","message":"m"}"#;
    let outcome = AttemptOutcome::Response(response(200, Some("2"), body));
    match decide(state, outcome, snippets(), now(), backoff) {
        Step::Retry { delay, .. } => assert_eq!(delay, Duration::from_secs(2)),
        Step::Done(_) => panic!("expected a retry"),
    }
    let body = br#"{"code":108,"requestId":"r","message":"m"}"#;
    let outcome = AttemptOutcome::Response(response(200, None, body));
    assert!(matches!(
        decide(state, outcome, snippets(), now(), backoff),
        Step::Done(Err(Error::Api { .. }))
    ));
}

#[test]
fn retry_after_takes_precedence_over_backoff() {
    let backoff = Duration::from_millis(40);
    let asked = response(503, Some("9"), b"");
    assert_eq!(retry_delay_for_status(&asked, now(), backoff), Duration::from_secs(9));
    let silent = response(503, None, b"");
    assert_eq!(retry_delay_for_status(&silent, now(), backoff), backoff);
    let garbled = response(503, Some("soon"), b"");
    assert_eq!(retry_delay_for_status(&garbled, now(), backoff), backoff);
    let limited = Error::RateLimited {
        retry_after: Some(Duration::from_secs(4)),
        request_id: None,
        body_snippet: None,
    };
    assert_eq!(retry_delay_for_error(&limited, backoff), Duration::from_secs(4));
    let unlimited = Error::RateLimited { retry_after: None, request_id: None, body_snippet: None };
    assert_eq!(retry_delay_for_error(&unlimited, backoff), backoff);
    let other = Error::Transport { message: String::new() };
    assert_eq!(retry_delay_for_error(&other, backoff), backoff);
}

#[test]
fn retry_predicates() {
    for code in [100, 104, 429, 500, 501] {
        assert!(is_retryable_api_code(code));
    }
    for code in [0, 1, 101, 106, 403, 502, -100] {
        assert!(!is_retryable_api_code(code));
    }
    assert!(should_retry_status(429, true, 1, 2));
    assert!(should_retry_status(500, true, 1, 2));
    assert!(should_retry_status(599, true, 1, 2));
    assert!(!should_retry_status(499, true, 1, 2));
    assert!(!should_retry_status(600, true, 1, 2));
    assert!(!should_retry_status(200, true, 1, 2));
    assert!(!should_retry_status(500, false, 1, 2));
    assert!(!should_retry_status(500, true, 2, 2));
    let limited = Error::RateLimited { retry_after: None, request_id: None, body_snippet: None };
    assert!(should_retry_error(&limited));
    assert!(!should_retry_error(&Error::InvalidConfig { message: String::new() }));
    assert!(!should_retry_error(&Error::Transport { message: String::new() }));
}

#[test]
fn attempts_are_one_more_than_the_retries() {
    let retry = RetryConfig::new(3, Duration::from_millis(1), Duration::from_millis(1));
    let state = RetryState::start(retry, true);
    assert_eq!((state.attempt, state.max_attempts, state.idempotent), (1, 4, true));
    let state = RetryState::start(retry, false);
    assert_eq!((state.attempt, state.max_attempts, state.idempotent), (1, 1, false));
    let endless = RetryConfig::new(u32::MAX, Duration::from_millis(1), Duration::from_millis(1));
    assert_eq!(RetryState::start(endless, true).max_attempts, u32::MAX);
}

#[test]
fn drawn_delays_stay_within_the_maximal_delay() {
    let retry = RetryConfig::new(10, Duration::from_millis(100), Duration::from_millis(150));
    let mut state = RetryState::start(retry, true);
    for _ in 0..10 {
        let outcome = AttemptOutcome::Failed(failure(TransportErrorKind::Connect));
        match step(state, outcome, retry, snippets()) {
            Step::Retry { delay, next } => {
                assert!(delay <= retry.max_delay);
                state = next;
            }
            Step::Done(_) => panic!("expected a retry"),
        }
    }
    let outcome = AttemptOutcome::Failed(failure(TransportErrorKind::Connect));
    assert!(matches!(step(state, outcome, retry, snippets()), Step::Done(Err(_))));
}
