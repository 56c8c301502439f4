use aqara::client::response::classify;
use aqara::error::{code_to_kind, status_to_kind};
use aqara::status::StatusCode;
use aqara::transport::TransportResponse;
use aqara::types::{BodySnippetConfig, SecretString};
use aqara::util::time::{ClockReading, Duration};
use aqara::{Error, ErrorKind};
use http::HeaderMap;

fn status(n: u16) -> StatusCode {
    StatusCode::from_u16(n).unwrap()
}

fn api_error(http: u16, body: &str) -> Error {
    let resp = TransportResponse { status: status(http), headers: HeaderMap::new(), body: body.as_bytes().to_vec() };
    let now = ClockReading::Since(Duration::from_secs(0));
    classify(resp, BodySnippetConfig::new(false, 0), now).unwrap_err()
}

#[test]
fn statuses_map_to_kinds() {
    assert_eq!(status_to_kind(Some(status(401))), Some(ErrorKind::Auth));
    assert_eq!(status_to_kind(Some(status(403))), Some(ErrorKind::Auth));
    assert_eq!(status_to_kind(Some(status(404))), Some(ErrorKind::NotFound));
    assert_eq!(status_to_kind(Some(status(409))), Some(ErrorKind::Conflict));
    assert_eq!(status_to_kind(Some(status(429))), Some(ErrorKind::RateLimited));
    assert_eq!(status_to_kind(Some(status(200))), None);
    assert_eq!(status_to_kind(Some(status(500))), None);
    assert_eq!(status_to_kind(None), None);
}

#[test]
fn codes_map_to_kinds() {
    for code in [106, 107, 108, 109, 403] {
        assert_eq!(code_to_kind(code), Some(ErrorKind::Auth));
    }
    assert_eq!(code_to_kind(429), Some(ErrorKind::RateLimited));
    for code in [0, 105, 110, 401, 404, 409, -106] {
        assert_eq!(code_to_kind(code), None);
    }
}

#[test]
fn kind_of_each_error() {
    assert_eq!(Error::InvalidConfig { message: String::new() }.kind(), ErrorKind::InvalidConfig);
    assert_eq!(Error::Transport { message: String::new() }.kind(), ErrorKind::Transport);
    let decode = Error::Decode {
        message: String::new(),
        status: Some(status(404)),
        request_id: None,
        body_snippet: None,
    };
    assert_eq!(decode.kind(), ErrorKind::Decode);
    let limited = Error::RateLimited { retry_after: None, request_id: None, body_snippet: None };
    assert_eq!(limited.kind(), ErrorKind::RateLimited);
    let http = |n: u16| Error::Http { status: status(n), request_id: None, body_snippet: None };
    assert_eq!(http(401).kind(), ErrorKind::Auth);
    assert_eq!(http(403).kind(), ErrorKind::Auth);
    assert_eq!(http(404).kind(), ErrorKind::NotFound);
    assert_eq!(http(409).kind(), ErrorKind::Conflict);
    assert_eq!(http(429).kind(), ErrorKind::RateLimited);
    assert_eq!(http(500).kind(), ErrorKind::Transport);
    assert_eq!(http(302).kind(), ErrorKind::Transport);
}

#[test]
fn api_error_kind_goes_by_code_then_status() {
    let body = |code: i64| format!(r#"{{"code":{code},"requestId":"r","message":"m"}}"#);
    assert_eq!(api_error(404, &body(106)).kind(), ErrorKind::Auth);
    assert_eq!(api_error(404, &body(1)).kind(), ErrorKind::NotFound);
    assert_eq!(api_error(401, &body(1)).kind(), ErrorKind::Auth);
    assert_eq!(api_error(409, &body(1)).kind(), ErrorKind::Conflict);
    assert_eq!(api_error(200, &body(1)).kind(), ErrorKind::Api);
    assert_eq!(api_error(500, &body(403)).kind(), ErrorKind::Auth);
}

#[test]
fn accessors_of_each_error() {
    let config = Error::InvalidConfig { message: "m".to_string() };
    assert_eq!(config.status(), None);
    assert_eq!(config.request_id(), None);
    assert_eq!(config.body_snippet(), None);
    assert_eq!(config.retry_after(), None);
    let http = Error::Http {
        status: status(500),
        request_id: Some("r".to_string()),
        body_snippet: Some("s".to_string()),
    };
    assert_eq!(http.status().map(|s| s.as_u16()), Some(500));
    assert_eq!(http.request_id(), Some("r"));
    assert_eq!(http.body_snippet(), Some("s"));
    assert_eq!(http.retry_after(), None);
    let limited = Error::RateLimited {
        retry_after: Some(Duration::from_secs(2)),
        request_id: Some("r".to_string()),
        body_snippet: None,
    };
    assert_eq!(limited.status().map(|s| s.as_u16()), Some(429));
    assert_eq!(limited.retry_after(), Some(Duration::from_secs(2)));
    assert_eq!(limited.request_id(), Some("r"));
    let decode = Error::Decode {
        message: "d".to_string(),
        status: None,
        request_id: None,
        body_snippet: Some("s".to_string()),
    };
    assert_eq!(decode.status(), None);
    assert_eq!(decode.body_snippet(), Some("s"));
    let api = api_error(400, r#"{"code":7,"requestId":"req","message":"no"}"#);
    assert_eq!(api.status().map(|s| s.as_u16()), Some(400));
    assert_eq!(api.request_id(), Some("req"));
    assert_eq!(api.body_snippet(), None);
}

#[test]
fn errors_have_texts() {
    let config = Error::InvalidConfig { message: "bad".to_string() };
    assert_eq!(config.to_text(), "invalid config: bad");
    assert_eq!(config.to_string(), "invalid config: bad");
    assert_eq!(Error::Transport { message: "t".to_string() }.to_text(), "transport error: t");
    let http = Error::Http { status: status(500), request_id: None, body_snippet: None };
    assert_eq!(http.to_text(), "http error: status=500 Internal Server Error");
    let odd = Error::Http { status: status(799), request_id: None, body_snippet: None };
    assert_eq!(odd.to_text(), "http error: status=799 <unknown status code>");
    let limited = Error::RateLimited { retry_after: None, request_id: None, body_snippet: None };
    assert_eq!(limited.to_text(), "rate limited");
    let decode = Error::Decode {
        message: "failed".to_string(),
        status: None,
        request_id: None,
        body_snippet: None,
    };
    assert_eq!(decode.to_text(), "decode error: failed");
    let api = api_error(400, r#"{"code":-7,"requestId":"req","message":"no"}"#);
    assert_eq!(api.to_text(), "api error: status=400 Bad Request, code=-7, message=no");
    assert_eq!(format!("{api}"), "api error: status=400 Bad Request, code=-7, message=no");
    let boxed: Box<dyn std::error::Error> = Box::new(api);
    assert_eq!(boxed.to_string(), "api error: status=400 Bad Request, code=-7, message=no");
}

#[test]
fn status_codes_are_three_digit_numbers() {
    assert!(StatusCode::from_u16(99).is_none());
    assert!(StatusCode::from_u16(1000).is_none());
    assert!(StatusCode::from_u16(0).is_none());
    assert_eq!(StatusCode::from_u16(100).map(|s| s.as_u16()), Some(100));
    assert_eq!(StatusCode::from_u16(999).map(|s| s.as_u16()), Some(999));
    assert_eq!(StatusCode::ok().as_u16(), 200);
    assert_eq!(StatusCode::too_many_requests().as_u16(), 429);
    assert!(status(200).is_success() && status(299).is_success());
    assert!(!status(199).is_success() && !status(300).is_success());
    assert!(status(400).is_client_error() && status(499).is_client_error());
    assert!(!status(500).is_client_error());
    assert!(status(500).is_server_error() && status(599).is_server_error());
    assert!(!status(499).is_server_error() && !status(600).is_server_error());
    assert_eq!(status(404).to_text(), "404 Not Found");
    assert_eq!(status(200).to_text(), "200 OK");
    assert_eq!(status(999).to_text(), "999 <unknown status code>");
}

#[test]
fn secret_string_display_is_redacted() {
    let s = SecretString::new("super-secret");
    assert_eq!(s.to_string(), "[REDACTED]");
    assert_eq!(s.expose(), "super-secret");
    assert_eq!(s.clone().expose(), "super-secret");
}
