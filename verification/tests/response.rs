use aqara::client::response::{
    classify, classify_parsed, decode_envelope, extract_request_id, parse_response,
    request_id_from, snippet_if_enabled, snippet_json_if_enabled, typed_response,
};
use aqara::status::StatusCode;
use aqara::transport::TransportResponse;
use aqara::types::BodySnippetConfig;
use aqara::util::json::Json;
use aqara::util::time::{ClockReading, Duration};
use aqara::{Error, ErrorKind};
use http::{HeaderMap, HeaderValue};

fn response(status: u16, headers: HeaderMap, body: &[u8]) -> TransportResponse {
    TransportResponse { status: StatusCode::from_u16(status).unwrap(), headers, body: body.to_vec() }
}

fn now() -> ClockReading {
    ClockReading::Since(Duration::from_secs(1_000))
}

fn snippets() -> BodySnippetConfig {
    BodySnippetConfig::new(true, 2048)
}

#[test]
fn decode_error_includes_http_status() {
    let resp = response(200, HeaderMap::new(), b"not json");
    let err = parse_response(resp, snippets()).unwrap_err();
    assert!(matches!(err, Error::Decode { status: Some(s), .. } if s.is_success()));
    assert_eq!(err.status().map(|s| s.as_u16()), Some(200));
    assert_eq!(err.kind(), ErrorKind::Decode);
    assert_eq!(err.body_snippet(), Some("not json"));
    assert_eq!(err.request_id(), None);
}

#[test]
fn undecodable_body_under_an_error_status_is_an_http_error() {
    let resp = response(500, HeaderMap::new(), b"boom");
    let err = classify(resp, snippets(), now()).unwrap_err();
    assert!(matches!(&err, Error::Http { status, .. } if status.as_u16() == 500));
    assert_eq!(err.kind(), ErrorKind::Transport);
    assert_eq!(err.body_snippet(), Some("boom"));
    let resp = response(404, HeaderMap::new(), b"{}");
    let err = classify(resp, snippets(), now()).unwrap_err();
    assert!(matches!(&err, Error::Http { status, .. } if status.as_u16() == 404));
    assert_eq!(err.kind(), ErrorKind::NotFound);
}

#[test]
fn status_429_is_rate_limited_before_the_body_is_read() {
    let mut headers = HeaderMap::new();
    headers.insert("retry-after", HeaderValue::from_static("7"));
    headers.insert("x-request-id", HeaderValue::from_static("from-header"));
    let body = br#"{"code":0,"requestId":"req-1","message":"Success"}"#;
    let err = classify(response(429, headers, body), snippets(), now()).unwrap_err();
    match &err {
        Error::RateLimited { retry_after, request_id, body_snippet } => {
            assert_eq!(*retry_after, Some(Duration::from_secs(7)));
            assert_eq!(request_id.as_deref(), Some("from-header"));
            assert_eq!(
                body_snippet.as_deref(),
                Some(r#"{"code":0,"message":"Success","requestId":"req-1"}"#)
            );
        }
        other => panic!("unexpected error: {other:?}"),
    }
    assert_eq!(err.status().map(|s| s.as_u16()), Some(429));
    assert_eq!(err.kind(), ErrorKind::RateLimited);
    assert_eq!(err.retry_after(), Some(Duration::from_secs(7)));
}

#[test]
fn business_code_429_is_rate_limited() {
    let body = br#"{"code":429,"requestId":"req-9","message":"slow down"}"#;
    let err = classify(response(200, HeaderMap::new(), body), snippets(), now()).unwrap_err();
    match err {
        Error::RateLimited { retry_after, request_id, .. } => {
            assert_eq!(retry_after, None);
            assert_eq!(request_id.as_deref(), Some("req-9"));
        }
        other => panic!("unexpected error: {other:?}"),
    }
}

#[test]
fn other_business_codes_are_api_errors() {
    let mut headers = HeaderMap::new();
    headers.insert("x-request-id", HeaderValue::from_static("from-header"));
    let body = br#"{"code":108,"requestId":"req-2","message":"token expired","result":null}"#;
    let err = classify(response(200, headers, body), snippets(), now()).unwrap_err();
    match &err {
        Error::Api { error } => {
            assert_eq!(error.status.map(|s| s.as_u16()), Some(200));
            assert_eq!(error.code, Some(108));
            assert_eq!(error.message.as_deref(), Some("token expired"));
            assert_eq!(error.request_id.as_deref(), Some("req-2"));
            assert!(error.body_snippet.is_some());
        }
        other => panic!("unexpected error: {other:?}"),
    }
    assert_eq!(err.kind(), ErrorKind::Auth);
    assert_eq!(err.request_id(), Some("req-2"));
    let body = br#"{"code":302,"requestId":"req-3","message":"bad"}"#;
    let err = classify(response(409, HeaderMap::new(), body), snippets(), now()).unwrap_err();
    assert_eq!(err.kind(), ErrorKind::Conflict);
    let body = br#"{"code":-1,"requestId":"req-3","message":"bad"}"#;
    let err = classify(response(200, HeaderMap::new(), body), snippets(), now()).unwrap_err();
    assert_eq!(err.kind(), ErrorKind::Api);
}

#[test]
fn code_zero_under_an_error_status_is_an_http_error() {
    let body = br#"{"code":0,"requestId":"req-4","message":"Success"}"#;
    let err = classify(response(503, HeaderMap::new(), body), snippets(), now()).unwrap_err();
    match err {
        Error::Http { status, request_id, .. } => {
            assert_eq!(status.as_u16(), 503);
            assert_eq!(request_id.as_deref(), Some("req-4"));
        }
        other => panic!("unexpected error: {other:?}"),
    }
}

#[test]
fn code_zero_under_a_success_status_is_the_response() {
    let body = br#"{"code":0,"requestId":"req-1","message":"Success","result":{"a":[1,2]}}"#;
    let resp = classify(response(200, HeaderMap::new(), body), snippets(), now()).unwrap();
    assert!(resp.status.is_success());
    assert_eq!(resp.request_id(), "req-1");
    assert_eq!(resp.message(), "Success");
    assert_eq!(resp.result().map(|j| j.to_text()), Some(r#"{"a":[1,2]}"#.to_string()));
    assert_eq!(resp.envelope.code, 0);
    let body = br#"{"code":0,"request_id":"req-1","msg":"Success","result":null,"more":1}"#;
    let resp = classify(response(201, HeaderMap::new(), body), snippets(), now()).unwrap();
    assert_eq!(resp.status.as_u16(), 201);
    assert_eq!(resp.request_id(), "req-1");
    assert_eq!(resp.message(), "Success");
    assert!(resp.result().is_none());
}

#[test]
fn errors_carry_no_snippet_when_snippets_are_disabled() {
    let off = BodySnippetConfig::new(false, 2048);
    let err = classify(response(200, HeaderMap::new(), b"not json"), off, now()).unwrap_err();
    assert_eq!(err.body_snippet(), None);
    let body = br#"{"code":5,"requestId":"r","message":"m","accessToken":"abc"}"#;
    let err = classify(response(200, HeaderMap::new(), body), off, now()).unwrap_err();
    assert_eq!(err.body_snippet(), None);
    let on = BodySnippetConfig::new(true, 2048);
    let err = classify(response(200, HeaderMap::new(), body), on, now()).unwrap_err();
    assert!(!err.body_snippet().unwrap().contains("abc"));
    assert!(err.body_snippet().unwrap().contains("[REDACTED]"));
}

#[test]
fn envelope_needs_code_request_id_and_message() {
    let decode = |text: &str| decode_envelope(&Json::parse(text.as_bytes()).unwrap());
    assert!(decode(r#"{"code":0,"requestId":"r","message":"m"}"#).is_some());
    assert!(decode(r#"{"code":0,"request_id":"r","msg":"m"}"#).is_some());
    assert!(decode(r#"{"requestId":"r","message":"m"}"#).is_none());
    assert!(decode(r#"{"code":0,"message":"m"}"#).is_none());
    assert!(decode(r#"{"code":0,"requestId":"r"}"#).is_none());
    assert!(decode(r#"{"code":"0","requestId":"r","message":"m"}"#).is_none());
    assert!(decode(r#"{"code":1.5,"requestId":"r","message":"m"}"#).is_none());
    assert!(decode(r#"{"code":9223372036854775808,"requestId":"r","message":"m"}"#).is_none());
    assert!(decode(r#"{"code":0,"requestId":7,"message":"m"}"#).is_none());
    assert!(decode(r#"{"code":0,"requestId":"r","message":null}"#).is_none());
    assert!(decode(r#"{"code":0,"requestId":"r","request_id":"r","message":"m"}"#).is_none());
    assert!(decode(r#"{"code":0,"requestId":"r","message":"m","msg":"m"}"#).is_none());
    assert!(decode(r#"[0,"r","m"]"#).is_none());
    assert!(decode("null").is_none());
    let e = decode(r#"{"code":-9223372036854775808,"requestId":"","message":"","result":0}"#)
        .unwrap();
    assert_eq!(e.code, i64::MIN);
    assert_eq!(e.request_id, "");
    assert_eq!(e.result.map(|j| j.to_text()), Some("0".to_string()));
}

#[test]
fn request_id_comes_from_the_headers_first() {
    let body = br#"{"requestId":"from-body"}"#;
    let mut headers = HeaderMap::new();
    assert_eq!(extract_request_id(&headers, body).as_deref(), Some("from-body"));
    headers.insert("x-correlation-id", HeaderValue::from_static("third"));
    assert_eq!(extract_request_id(&headers, body).as_deref(), Some("third"));
    headers.insert("request-id", HeaderValue::from_static("second"));
    assert_eq!(extract_request_id(&headers, body).as_deref(), Some("second"));
    headers.insert("x-request-id", HeaderValue::from_static("first"));
    assert_eq!(extract_request_id(&headers, body).as_deref(), Some("first"));
}

#[test]
fn request_id_header_that_is_not_text_falls_back_to_the_body() {
    let mut headers = HeaderMap::new();
    headers.insert("x-request-id", HeaderValue::from_bytes(&[0xfe]).unwrap());
    headers.insert("request-id", HeaderValue::from_static("second"));
    let body = br#"{"request_id":"from-body"}"#;
    assert_eq!(extract_request_id(&headers, body).as_deref(), Some("from-body"));
    assert_eq!(extract_request_id(&headers, b"not json"), None);
}

#[test]
fn request_id_in_the_body_must_be_a_string() {
    let headers = HeaderMap::new();
    assert_eq!(extract_request_id(&headers, br#"{"requestId":5,"request_id":"x"}"#), None);
    assert_eq!(extract_request_id(&headers, br#"{"request_id":"x"}"#).as_deref(), Some("x"));
    assert_eq!(extract_request_id(&headers, br#"["requestId"]"#), None);
    let parsed = Json::parse(br#"{"requestId":"p"}"#);
    assert_eq!(request_id_from(&headers, &parsed).as_deref(), Some("p"));
    assert_eq!(request_id_from(&headers, &None), None);
}

#[test]
fn snippets_are_made_only_when_enabled() {
    let on = BodySnippetConfig::new(true, 5);
    let off = BodySnippetConfig::new(false, 5);
    assert_eq!(snippet_if_enabled(on, b"0123456789").as_deref(), Some("01234"));
    assert_eq!(snippet_if_enabled(off, b"0123456789"), None);
    let value = Json::parse(br#"{"password":"p","a":1}"#).unwrap();
    let wide = BodySnippetConfig::new(true, 100);
    assert_eq!(
        snippet_json_if_enabled(wide, &value).as_deref(),
        Some(r#"{"a":1,"password":"[REDACTED]"}"#)
    );
    assert_eq!(snippet_json_if_enabled(off, &value), None);
}

#[test]
fn classification_goes_by_the_reading_that_it_is_given() {
    let status = StatusCode::from_u16(200).unwrap();
    let headers = HeaderMap::new();
    let envelope = Json::parse(br#"{"code":0,"requestId":"given","message":"ok","result":7}"#);
    let resp =
        classify_parsed(status, &headers, envelope, b"not the body", snippets(), now()).unwrap();
    assert_eq!(resp.request_id(), "given");
    assert_eq!(resp.result().map(|j| j.to_text()), Some("7".to_string()));
    let body = br#"{"code":0,"requestId":"in the body","message":"ok"}"#;
    let err = classify_parsed(status, &headers, None, body, snippets(), now()).unwrap_err();
    match err {
        Error::Decode { message, status, request_id, body_snippet } => {
            assert_eq!(message, "failed to decode response body");
            assert_eq!(status.map(|s| s.as_u16()), Some(200));
            assert_eq!(request_id, None);
            assert_eq!(
                body_snippet.as_deref(),
                Some(r#"{"code":0,"requestId":"in the body","message":"ok"}"#)
            );
        }
        other => panic!("unexpected error: {other:?}"),
    }
    let failing = Json::parse(br#"{"code":7,"requestId":"r","message":"no","token":"t"}"#);
    let status = StatusCode::from_u16(400).unwrap();
    let err = classify_parsed(status, &headers, failing, b"", snippets(), now()).unwrap_err();
    match err {
        Error::Api { error } => {
            assert_eq!(error.code, Some(7));
            assert_eq!(error.status.map(|s| s.as_u16()), Some(400));
            assert_eq!(
                error.body_snippet.as_deref(),
                Some(r#"{"code":7,"message":"no","requestId":"r","token":"[REDACTED]"}"#)
            );
        }
        other => panic!("unexpected error: {other:?}"),
    }
}

#[test]
fn typed_response_keeps_the_envelope_or_reports_the_result() {
    let body = br#"{"code":0,"requestId":"req-1","message":"Success","result":{"n":1}}"#;
    let value = || classify(response(201, HeaderMap::new(), body), snippets(), now()).unwrap();
    let typed = typed_response(value(), Some(Some(41u8)), Some("unused".to_string())).unwrap();
    assert_eq!(typed.status.as_u16(), 201);
    assert_eq!(typed.envelope.code, 0);
    assert_eq!(typed.request_id(), "req-1");
    assert_eq!(typed.message(), "Success");
    assert_eq!(typed.result(), Some(&41u8));
    let empty = typed_response::<u8>(value(), Some(None), None).unwrap();
    assert_eq!(empty.result(), None);
    let err = typed_response::<u8>(value(), None, Some("snip".to_string())).unwrap_err();
    match err {
        Error::Decode { message, status, request_id, body_snippet } => {
            assert_eq!(message, "failed to decode response result");
            assert_eq!(status.map(|s| s.as_u16()), Some(201));
            assert_eq!(request_id.as_deref(), Some("req-1"));
            assert_eq!(body_snippet.as_deref(), Some("snip"));
        }
        other => panic!("unexpected error: {other:?}"),
    }
    let err = typed_response::<u8>(value(), None, None).unwrap_err();
    assert_eq!(err.body_snippet(), None);
}
