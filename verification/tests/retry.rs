use aqara::types::RetryConfig;
use aqara::util::retry::{
    backoff_cap_millis, compute_backoff_with_jitter, parse_retry_after, retry_after_at,
    retry_after_value,
};
use aqara::util::time::{ClockReading, Duration};
use http::HeaderMap;

#[test]
fn retry_after_seconds_parses() {
    let mut headers = HeaderMap::new();
    headers.insert(http::header::RETRY_AFTER, http::HeaderValue::from_static("5"));
    assert_eq!(parse_retry_after(&headers), Some(Duration::from_secs(5)));
}

#[test]
fn backoff_respects_max_delay() {
    let cfg = RetryConfig::new(3, Duration::from_millis(100), Duration::from_millis(150));
    let delay = compute_backoff_with_jitter(10, cfg);
    assert!(delay <= cfg.max_delay);
}

#[test]
fn backoff_never_exceeds_max_delay_for_any_attempt() {
    let cfg = RetryConfig::new(3, Duration::from_millis(100), Duration::from_millis(150));
    for attempt in [0u32, 1, 2, 3, 4, 5, 31, 32, 1000, u32::MAX] {
        for _ in 0..50 {
            let delay = compute_backoff_with_jitter(attempt, cfg);
            assert!(delay <= cfg.max_delay);
            assert!(delay.as_millis() <= u128::from(backoff_cap_millis(attempt, cfg)));
        }
    }
}

#[test]
fn backoff_cap_doubles_and_is_capped() {
    let cfg = RetryConfig::new(5, Duration::from_millis(100), Duration::from_secs(2));
    assert_eq!(backoff_cap_millis(0, cfg), 100);
    assert_eq!(backoff_cap_millis(1, cfg), 100);
    assert_eq!(backoff_cap_millis(2, cfg), 200);
    assert_eq!(backoff_cap_millis(3, cfg), 400);
    assert_eq!(backoff_cap_millis(4, cfg), 800);
    assert_eq!(backoff_cap_millis(5, cfg), 1600);
    assert_eq!(backoff_cap_millis(6, cfg), 2000);
    assert_eq!(backoff_cap_millis(u32::MAX, cfg), 2000);
}

#[test]
fn backoff_exponent_stops_at_thirty() {
    let cfg = RetryConfig::new(5, Duration::from_millis(3), Duration::from_secs(u64::MAX / 1000));
    assert_eq!(backoff_cap_millis(31, cfg), 3 << 30);
    assert_eq!(backoff_cap_millis(32, cfg), 3 << 30);
    assert_eq!(backoff_cap_millis(1000, cfg), 3 << 30);
}

#[test]
fn backoff_saturates_instead_of_overflowing() {
    let huge = Duration::from_millis(u64::MAX);
    let cfg = RetryConfig::new(5, huge, huge);
    assert_eq!(backoff_cap_millis(2, cfg), u64::MAX);
}

#[test]
fn backoff_is_zero_for_zero_delays() {
    let zero = RetryConfig::new(1, Duration::from_millis(0), Duration::from_millis(0));
    assert!(compute_backoff_with_jitter(1, zero).is_zero());
    let no_room = RetryConfig::new(1, Duration::from_millis(10), Duration::from_millis(0));
    assert!(compute_backoff_with_jitter(3, no_room).is_zero());
}

#[test]
fn retry_after_value_reads_seconds() {
    let now = ClockReading::Since(Duration::from_secs(1_000));
    assert_eq!(retry_after_value("0", now), Some(Duration::from_secs(0)));
    assert_eq!(retry_after_value(" 120 ", now), Some(Duration::from_secs(120)));
    assert_eq!(retry_after_value("+7", now), Some(Duration::from_secs(7)));
    assert_eq!(retry_after_value("-7", now), None);
    assert_eq!(retry_after_value("1.5", now), None);
    assert_eq!(retry_after_value("soon", now), None);
    assert_eq!(retry_after_value("", now), None);
    assert_eq!(retry_after_value("99999999999999999999", now), None);
}

#[test]
fn retry_after_value_reads_http_dates() {
    let date = "Sun, 06 Nov 1994 08:49:37 GMT";
    let at: u64 = 784_111_777;
    let before = ClockReading::Since(Duration::from_secs(at - 30));
    assert_eq!(retry_after_value(date, before), Some(Duration::from_secs(30)));
    let half = ClockReading::Since(Duration::new(at - 30, 500_000_000).unwrap());
    assert_eq!(retry_after_value(date, half), Some(Duration::new(29, 500_000_000).unwrap()));
    let after = ClockReading::Since(Duration::from_secs(at + 30));
    assert_eq!(retry_after_value(date, after), Some(Duration::from_secs(0)));
    let early_clock = ClockReading::Before(Duration::from_secs(10));
    assert_eq!(retry_after_value(date, early_clock), Some(Duration::from_secs(at + 10)));
}

#[test]
fn retry_after_is_read_from_the_first_value_of_the_header() {
    let now = ClockReading::Since(Duration::from_secs(0));
    let mut headers = HeaderMap::new();
    assert_eq!(retry_after_at(&headers, now), None);
    headers.insert(http::header::RETRY_AFTER, http::HeaderValue::from_static("3"));
    headers.append(http::header::RETRY_AFTER, http::HeaderValue::from_static("9"));
    assert_eq!(retry_after_at(&headers, now), Some(Duration::from_secs(3)));
}

#[test]
fn retry_after_that_is_not_text_is_ignored() {
    let now = ClockReading::Since(Duration::from_secs(0));
    let mut headers = HeaderMap::new();
    headers.insert(
        http::header::RETRY_AFTER,
        http::HeaderValue::from_bytes(&[0x35, 0xff]).unwrap(),
    );
    assert_eq!(retry_after_at(&headers, now), None);
}
