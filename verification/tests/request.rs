use aqara::auth::{generate_signature, SignatureParts};
use aqara::client::builder::{
    check_tls, check_url, checked_base_path, endpoint_to_url, needs_tls, normalize_base_url,
    ClientBuilder,
};
use aqara::client::handle::{call_json_options, ClientCore};
use aqara::client::token::AccessTokenStore;
use aqara::client::request::{
    encode_body, insert_header_str, insert_required_headers, insert_signature_headers,
    put_entries, HeaderEntry,
};
use aqara::types::{
    BodySnippetConfig, CallOptions, Credentials, Endpoint, RetryConfig, SecretString,
    TimeoutConfig,
};
use aqara::util::json::{Json, JsonNumber, Member};
use aqara::util::time::{ClockReading, Duration};
use aqara::Error;
use http::header::HeaderValue;
use http::HeaderMap;

fn credentials() -> Credentials {
    Credentials::new("APP_ID", "KEY_ID", "APP_KEY")
}

fn data() -> Json {
    Json::Object(vec![
        Member { key: "parentPositionId".to_string(), value: Json::Text(String::new()) },
        Member { key: "pageNum".to_string(), value: Json::Number(JsonNumber::PosInt(1)) },
        Member { key: "pageSize".to_string(), value: Json::Number(JsonNumber::PosInt(30)) },
    ])
}

fn client_core(token: Option<&str>) -> ClientCore {
    let mut builder =
        ClientBuilder::new(credentials()).base_url("http://127.0.0.1:9/v3.0/open/api");
    if let Some(token) = token {
        builder = builder.access_token(token);
    }
    ClientCore::from_config(builder.into_config(false).unwrap())
}

fn now() -> ClockReading {
    ClockReading::Since(Duration::from_millis(1_700_000_000_000))
}

fn text<'a>(headers: &'a HeaderMap, name: &str) -> Option<&'a str> {
    headers.get(name).map(|v| v.to_str().unwrap())
}

#[test]
fn body_names_the_intent_first_and_then_the_data() {
    let body = encode_body("query.position.info", &data());
    assert_eq!(
        String::from_utf8(body).unwrap(),
        r#"{"intent":"query.position.info","data":{"pageNum":1,"pageSize":30,"parentPositionId":""}}"#
    );
    let body = encode_body("a\"b", &Json::Null);
    assert_eq!(String::from_utf8(body).unwrap(), r#"{"intent":"a\"b","data":null}"#);
}

#[test]
fn header_values_are_checked() {
    let mut headers = HeaderMap::new();
    insert_header_str(&mut headers, "nonce", "abc").unwrap();
    insert_header_str(&mut headers, "nonce", "def").unwrap();
    assert_eq!(headers.len(), 1);
    assert_eq!(text(&headers, "nonce"), Some("def"));
    insert_header_str(&mut headers, "time", "tab\tand space and \u{e9}").unwrap();
    let err = insert_header_str(&mut headers, "sign", "line\nbreak").unwrap_err();
    match err {
        Error::InvalidConfig { message } => {
            assert_eq!(message, "invalid header value for sign: failed to parse header value")
        }
        other => panic!("unexpected error: {other:?}"),
    }
    assert!(insert_header_str(&mut headers, "sign", "del\u{7f}").is_err());
    assert!(insert_header_str(&mut headers, "sign", "nul\u{0}").is_err());
    assert_eq!(headers.len(), 2);
    assert!(headers.get("sign").is_none());
}

#[test]
fn required_headers_are_user_agent_content_type_and_lang() {
    let mut headers = HeaderMap::new();
    headers.insert("x-extra", HeaderValue::from_static("kept"));
    headers.insert("lang", HeaderValue::from_static("replaced"));
    insert_required_headers(&mut headers, "agent/1.0", "en").unwrap();
    assert_eq!(headers.len(), 4);
    assert_eq!(text(&headers, "user-agent"), Some("agent/1.0"));
    assert_eq!(text(&headers, "content-type"), Some("application/json"));
    assert_eq!(text(&headers, "lang"), Some("en"));
    assert_eq!(text(&headers, "x-extra"), Some("kept"));
}

#[test]
fn required_headers_refuse_bad_values_by_name() {
    let mut headers = HeaderMap::new();
    let err = insert_required_headers(&mut headers, "bad\r\nagent", "en").unwrap_err();
    match err {
        Error::InvalidConfig { message } => {
            assert_eq!(message, "invalid user-agent header value: failed to parse header value")
        }
        other => panic!("unexpected error: {other:?}"),
    }
    assert!(headers.is_empty());
    let err = insert_required_headers(&mut headers, "agent", "e\nn").unwrap_err();
    match err {
        Error::InvalidConfig { message } => {
            assert_eq!(message, "invalid lang header value: failed to parse header value")
        }
        other => panic!("unexpected error: {other:?}"),
    }
    assert_eq!(headers.len(), 2);
    assert_eq!(text(&headers, "user-agent"), Some("agent"));
    assert!(headers.get("lang").is_none());
}

#[test]
fn signature_headers_include_the_token_only_when_asked() {
    let parts = SignatureParts {
        nonce: "NONCE123".to_string(),
        time_millis: "1700000000000".to_string(),
        sign: "abcdef".to_string(),
    };
    let token = SecretString::new("ACCESS_TOKEN");
    let mut headers = HeaderMap::new();
    insert_signature_headers(&mut headers, &credentials(), &parts, Some(&token), true).unwrap();
    assert_eq!(headers.len(), 6);
    assert_eq!(text(&headers, "appid"), Some("APP_ID"));
    assert_eq!(text(&headers, "keyid"), Some("KEY_ID"));
    assert_eq!(text(&headers, "nonce"), Some("NONCE123"));
    assert_eq!(text(&headers, "time"), Some("1700000000000"));
    assert_eq!(text(&headers, "sign"), Some("abcdef"));
    assert_eq!(text(&headers, "accesstoken"), Some("ACCESS_TOKEN"));
    let mut headers = HeaderMap::new();
    insert_signature_headers(&mut headers, &credentials(), &parts, Some(&token), false).unwrap();
    assert_eq!(headers.len(), 5);
    assert!(headers.get("accesstoken").is_none());
    let mut headers = HeaderMap::new();
    insert_signature_headers(&mut headers, &credentials(), &parts, None, true).unwrap();
    assert_eq!(headers.len(), 5);
}

#[test]
fn signature_headers_stop_at_the_first_bad_value() {
    let parts = SignatureParts {
        nonce: "bad\nnonce".to_string(),
        time_millis: "1".to_string(),
        sign: "s".to_string(),
    };
    let mut headers = HeaderMap::new();
    let err =
        insert_signature_headers(&mut headers, &credentials(), &parts, None, false).unwrap_err();
    match err {
        Error::InvalidConfig { message } => {
            assert_eq!(message, "invalid header value for nonce: failed to parse header value")
        }
        other => panic!("unexpected error: {other:?}"),
    }
    assert_eq!(headers.len(), 2);
    assert_eq!(text(&headers, "appid"), Some("APP_ID"));
    assert_eq!(text(&headers, "keyid"), Some("KEY_ID"));
}

#[test]
fn entries_are_put_in_order() {
    let entries = vec![
        HeaderEntry { name: "a", value: "1".to_string(), label: "first".to_string() },
        HeaderEntry { name: "b", value: "2".to_string(), label: "second".to_string() },
        HeaderEntry { name: "a", value: "3".to_string(), label: "third".to_string() },
    ];
    let mut headers = HeaderMap::new();
    put_entries(&mut headers, &entries).unwrap();
    assert_eq!(headers.len(), 2);
    assert_eq!(text(&headers, "a"), Some("3"));
    assert_eq!(text(&headers, "b"), Some("2"));
    put_entries(&mut headers, &Vec::new()).unwrap();
    assert_eq!(headers.len(), 2);
}

#[test]
fn request_has_body_url_and_all_headers() {
    let options = CallOptions::with_access_token().idempotent(true);
    let token = Some(SecretString::new("ACCESS_TOKEN"));
    let client = client_core(None);
    let request = client
        .prepare_with("query.position.info", &data(), options, token, "NONCE123".to_string(), now())
        .unwrap();
    assert_eq!(request.url, "http://127.0.0.1:9/v3.0/open/api");
    assert_eq!(client.base_url(), "http://127.0.0.1:9/v3.0/open/api");
    assert_eq!(
        String::from_utf8(request.body).unwrap(),
        r#"{"intent":"query.position.info","data":{"pageNum":1,"pageSize":30,"parentPositionId":""}}"#
    );
    let headers = &request.headers;
    assert_eq!(headers.len(), 9);
    assert_eq!(text(headers, "user-agent"), Some("aqara-sdk-rust/0.1.0"));
    assert_eq!(text(headers, "content-type"), Some("application/json"));
    assert_eq!(text(headers, "lang"), Some("en"));
    assert_eq!(text(headers, "appid"), Some("APP_ID"));
    assert_eq!(text(headers, "keyid"), Some("KEY_ID"));
    assert_eq!(text(headers, "accesstoken"), Some("ACCESS_TOKEN"));
    assert_eq!(text(headers, "nonce"), Some("NONCE123"));
    assert_eq!(text(headers, "time"), Some("1700000000000"));
    assert_eq!(text(headers, "sign"), Some("13b057833edea918b9b09dbb8175c391"));
}

#[test]
fn request_without_token_has_no_token_header() {
    let options = CallOptions::without_access_token();
    let token = Some(SecretString::new("ACCESS_TOKEN"));
    let request = client_core(None)
        .prepare_with("config.auth.getToken", &Json::Null, options, token, "NONCE123".to_string(), now())
        .unwrap();
    assert!(request.headers.get("accesstoken").is_none());
    assert_eq!(text(&request.headers, "sign"), Some("6790ec79398e4904cf30b798150bf2b6"));
}

#[test]
fn request_keeps_the_extra_headers_of_the_client() {
    let builder = ClientBuilder::new(credentials())
        .base_url("http://127.0.0.1:9/v3.0/open/api")
        .lang("zh")
        .user_agent("agent/2")
        .extra_header("X-Trace", "on")
        .extra_header("x-trace", "on again")
        .extra_header("lang", "overridden");
    assert!(builder.refusal.is_none());
    assert_eq!(builder.extra_headers.len(), 2);
    let client = ClientCore::from_config(builder.into_config(false).unwrap());
    let request = client
        .prepare_with("i", &Json::Null, CallOptions::without_access_token(), None, "N".to_string(), now())
        .unwrap();
    assert_eq!(text(&request.headers, "x-trace"), Some("on again"));
    assert_eq!(text(&request.headers, "lang"), Some("zh"));
    assert_eq!(text(&request.headers, "user-agent"), Some("agent/2"));
    assert_eq!(request.headers.len(), 9);
}

#[test]
fn access_token_is_required_when_endpoint_demands_it() {
    let client = client_core(None);
    let options = call_json_options(true, false);
    let err = match client.prepare("query.device.subInfo", &Json::Null, options) {
        Ok(_) => panic!("expected an error"),
        Err(e) => e,
    };
    assert!(matches!(err, Error::InvalidConfig { .. }));
}

#[test]
fn prepare_reads_the_token_of_the_moment() {
    let mut client = client_core(Some("FIRST"));
    let options = CallOptions::with_access_token();
    let request = client.prepare("i", &Json::Null, options).unwrap();
    assert_eq!(text(&request.headers, "accesstoken"), Some("FIRST"));
    client.set_access_token("SECOND");
    assert_eq!(client.read_access_token().map(|t| t.expose().to_string()), Some("SECOND".to_string()));
    let request = client.prepare("i", &Json::Null, options).unwrap();
    assert_eq!(text(&request.headers, "accesstoken"), Some("SECOND"));
    let nonce = text(&request.headers, "nonce").unwrap().to_string();
    let time = text(&request.headers, "time").unwrap().to_string();
    let token = SecretString::new("SECOND");
    let sign = generate_signature(&credentials(), Some(&token), &nonce, &time, true);
    assert_eq!(text(&request.headers, "sign"), Some(sign.as_str()));
    client.clear_access_token();
    assert!(client.read_access_token().is_none());
    assert!(matches!(client.prepare("i", &Json::Null, options), Err(Error::InvalidConfig { .. })));
    assert!(client.prepare("i", &Json::Null, CallOptions::without_access_token()).is_ok());
}

#[test]
fn every_attempt_is_signed_afresh() {
    let client = client_core(Some("T"));
    let options = CallOptions::with_access_token();
    let first = client.prepare("i", &Json::Null, options).unwrap();
    let second = client.prepare("i", &Json::Null, options).unwrap();
    assert_ne!(text(&first.headers, "nonce"), text(&second.headers, "nonce"));
    assert_ne!(text(&first.headers, "sign"), text(&second.headers, "sign"));
}

#[test]
fn prepare_fails_when_the_clock_is_before_the_epoch() {
    let early = ClockReading::Before(Duration::from_secs(1));
    let options = CallOptions::without_access_token();
    let r = client_core(None).prepare_with("i", &Json::Null, options, None, "N".to_string(), early);
    assert!(matches!(r, Err(Error::Transport { .. })));
}

#[test]
fn call_json_options_sets_both_flags() {
    for with_token in [false, true] {
        for idempotent in [false, true] {
            let options = call_json_options(with_token, idempotent);
            assert_eq!(options.include_access_token, with_token);
            assert_eq!(options.idempotent, idempotent);
        }
    }
}

#[test]
fn base_path_loses_trailing_slashes_and_must_not_be_empty() {
    assert_eq!(checked_base_path("/v3.0/open/api").unwrap(), "/v3.0/open/api");
    assert_eq!(checked_base_path("/v3.0/open/api///").unwrap(), "/v3.0/open/api");
    assert_eq!(checked_base_path("/a//b/").unwrap(), "/a//b");
    for empty in ["", "/", "////"] {
        match checked_base_path(empty).unwrap_err() {
            Error::InvalidConfig { message } => assert_eq!(message, "base_url path cannot be empty"),
            other => panic!("unexpected error: {other:?}"),
        }
    }
}

#[test]
fn base_url_is_normalized() {
    assert_eq!(
        normalize_base_url("https://example.com/v3.0/open/api/?a=b#frag").unwrap(),
        "https://example.com/v3.0/open/api"
    );
    assert_eq!(
        normalize_base_url("HTTP://Example.COM:80/a/../b c//#f").unwrap(),
        "http://example.com/b%20c"
    );
    for bare in ["https://example.com", "https://example.com/", "https://example.com//?q"] {
        match normalize_base_url(bare).unwrap_err() {
            Error::InvalidConfig { message } => assert_eq!(message, "base_url path cannot be empty"),
            other => panic!("unexpected error: {other:?}"),
        }
    }
    match normalize_base_url("not a url").unwrap_err() {
        Error::InvalidConfig { message } => {
            assert_eq!(message, "invalid base_url: relative URL without a base")
        }
        other => panic!("unexpected error: {other:?}"),
    }
    assert!(check_url("http://localhost/x").is_ok());
    assert!(matches!(check_url("http://[::1"), Err(Error::InvalidConfig { .. })));
}

#[test]
fn named_endpoints_have_their_urls() {
    let cases = [
        (Endpoint::China, "https://open-cn.aqara.com/v3.0/open/api"),
        (Endpoint::Usa, "https://open-usa.aqara.com/v3.0/open/api"),
        (Endpoint::Europe, "https://open-ger.aqara.com/v3.0/open/api"),
        (Endpoint::Korea, "https://open-kr.aqara.com/v3.0/open/api"),
        (Endpoint::Russia, "https://open-ru.aqara.com/v3.0/open/api"),
        (Endpoint::Singapore, "https://open-sg.aqara.com/v3.0/open/api"),
    ];
    for (endpoint, url) in cases {
        assert_eq!(endpoint.base_url_str(), Some(url));
        assert!(endpoint.custom_url().is_none());
        assert_eq!(endpoint_to_url(&endpoint).unwrap(), url);
    }
    let custom = Endpoint::Custom("http://localhost/x".to_string());
    assert_eq!(custom.base_url_str(), None);
    assert_eq!(custom.custom_url(), Some("http://localhost/x"));
    assert_eq!(endpoint_to_url(&custom).unwrap(), "http://localhost/x");
    let broken = Endpoint::Custom("://".to_string());
    assert!(matches!(endpoint_to_url(&broken), Err(Error::InvalidConfig { .. })));
}

#[test]
fn https_needs_a_tls_backend() {
    assert!(needs_tls("https"));
    assert!(!needs_tls("http"));
    assert!(!needs_tls("HTTPS"));
    assert!(check_tls("https", true).is_ok());
    assert!(check_tls("http", false).is_ok());
    assert!(check_tls("http", true).is_ok());
    assert!(matches!(check_tls("https", false), Err(Error::InvalidConfig { .. })));
    let err = match ClientBuilder::new(credentials()).into_config(false) {
        Ok(_) => panic!("expected an error"),
        Err(e) => e,
    };
    match err {
        Error::InvalidConfig { message } => {
            assert_eq!(message, "https base_url requires enabling one of: rustls, native-tls")
        }
        other => panic!("unexpected error: {other:?}"),
    }
    let config = ClientBuilder::new(credentials()).into_config(true).unwrap();
    assert_eq!(config.base_url, "https://open-cn.aqara.com/v3.0/open/api");
}

#[test]
fn builder_keeps_what_it_is_given() {
    let timeouts = TimeoutConfig::new(None, Some(Duration::from_secs(1)), None);
    let retry = RetryConfig::new(7, Duration::from_millis(5), Duration::from_millis(50));
    let snippet = BodySnippetConfig::new(false, 9);
    let config = ClientBuilder::new(credentials())
        .endpoint(Endpoint::Usa)
        .access_token("TOKEN")
        .lang("fr")
        .user_agent("ua")
        .timeouts(timeouts)
        .retry(retry)
        .body_snippet(snippet)
        .into_config(true)
        .unwrap();
    assert_eq!(config.base_url, "https://open-usa.aqara.com/v3.0/open/api");
    assert_eq!(config.credentials.app_id(), "APP_ID");
    assert_eq!(config.access_token.map(|t| t.expose().to_string()), Some("TOKEN".to_string()));
    assert_eq!(config.lang, "fr");
    assert_eq!(config.user_agent, "ua");
    assert_eq!(config.timeouts.connect, None);
    assert_eq!(config.timeouts.request, Some(Duration::from_secs(1)));
    assert_eq!(config.retry.max_retries, 7);
    assert_eq!(config.retry.max_delay, Duration::from_millis(50));
    assert!(!config.body_snippet.enabled);
    assert_eq!(config.body_snippet.max_len, 9);
    assert!(config.extra_headers.is_empty());
}

#[test]
fn builder_defaults() {
    let builder = ClientBuilder::new(credentials());
    assert!(matches!(builder.endpoint, Endpoint::China));
    assert!(builder.access_token.is_none());
    assert_eq!(builder.lang, "en");
    assert_eq!(builder.user_agent, "aqara-sdk-rust/0.1.0");
    assert!(builder.extra_headers.is_empty());
    assert_eq!(builder.timeouts.connect, Some(Duration::from_secs(10)));
    assert_eq!(builder.timeouts.request, Some(Duration::from_secs(30)));
    assert_eq!(builder.timeouts.read, Some(Duration::from_secs(30)));
    assert_eq!(builder.retry.max_retries, 3);
    assert_eq!(builder.retry.base_delay, Duration::from_millis(200));
    assert_eq!(builder.retry.max_delay, Duration::from_secs(2));
    assert!(builder.body_snippet.enabled);
    assert_eq!(builder.body_snippet.max_len, 2048);
}

#[test]
fn token_store_holds_what_was_set_last() {
    let mut store = AccessTokenStore::new(None);
    assert!(store.read().is_none());
    store.set("one");
    assert_eq!(store.read().map(|t| t.expose().to_string()), Some("one".to_string()));
    store.set("two");
    let copy = store.read();
    store.clear();
    assert!(store.read().is_none());
    assert_eq!(copy.map(|t| t.expose().to_string()), Some("two".to_string()));
    let store = AccessTokenStore::new(Some(SecretString::new("start")));
    assert_eq!(store.read().map(|t| t.expose().to_string()), Some("start".to_string()));
}

#[test]
fn extra_headers_are_checked_and_the_first_refusal_is_kept() {
    let builder = ClientBuilder::new(credentials())
        .base_url("http://127.0.0.1:9/v3.0/open/api")
        .extra_header("x-ok", "1")
        .extra_header("X-Bad", "line\nbreak")
        .extra_header("bad name", "2")
        .extra_header("x-later", "3");
    assert_eq!(builder.extra_headers.len(), 2);
    assert_eq!(text(&builder.extra_headers, "x-ok"), Some("1"));
    assert_eq!(text(&builder.extra_headers, "x-later"), Some("3"));
    assert_eq!(
        builder.refusal.as_deref(),
        Some("invalid header value for x-bad: failed to parse header value")
    );
    match builder.into_config(false) {
        Err(Error::InvalidConfig { message }) => {
            assert_eq!(message, "invalid header value for x-bad: failed to parse header value")
        }
        _ => panic!("expected an error"),
    }
    for name in ["", "bad name", "na\u{ef}ve", "a:b", "(x)"] {
        let builder = ClientBuilder::new(credentials()).extra_header(name, "v");
        assert!(builder.extra_headers.is_empty());
        assert_eq!(builder.refusal, Some(format!("invalid header name: {name}")));
    }
    let builder = ClientBuilder::new(credentials()).extra_header("a!#$%&'*+-.^_`|~z09", "\u{e9}\t ");
    assert!(builder.refusal.is_none());
    assert_eq!(builder.extra_headers.len(), 1);
}

fn crowded(names: usize) -> HeaderMap {
    let mut headers = HeaderMap::new();
    for i in 0..names {
        let name = http::header::HeaderName::from_bytes(format!("x-{i}").as_bytes()).unwrap();
        headers.insert(name, HeaderValue::from_static("v"));
    }
    headers
}

#[test]
fn headers_are_set_while_the_map_holds_few_names() {
    let mut headers = crowded(6553);
    assert_eq!(headers.keys_len(), 6553);
    insert_header_str(&mut headers, "nonce", "abc").unwrap();
    assert_eq!(headers.keys_len(), 6554);
    let mut headers = crowded(6551);
    insert_required_headers(&mut headers, "agent", "en").unwrap();
    assert_eq!(headers.keys_len(), 6554);
    let builder = ClientBuilder::new(credentials())
        .base_url("http://127.0.0.1:9/v3.0/open/api")
        .extra_header("x-one", "1")
        .extra_header("x-two", "2");
    assert!(builder.refusal.is_none());
    assert_eq!(builder.extra_headers.keys_len(), 2);
    let client = ClientCore::from_config(builder.into_config(false).unwrap());
    let token = Some(SecretString::new("T"));
    let request = client
        .prepare_with("i", &Json::Null, CallOptions::with_access_token(), token, "N".to_string(), now())
        .unwrap();
    assert_eq!(request.headers.keys_len(), 11);
}

#[test]
fn a_map_that_cannot_grow_refuses_one_more_name() {
    let mut headers = crowded(24576);
    let err = insert_header_str(&mut headers, "nonce", "abc").unwrap_err();
    match err {
        Error::InvalidConfig { message } => {
            assert_eq!(message, "too many headers: max size reached")
        }
        other => panic!("unexpected error: {other:?}"),
    }
    assert_eq!(headers.keys_len(), 24576);
    assert!(headers.get("nonce").is_none());
    let mut builder = ClientBuilder::new(credentials());
    builder.extra_headers = headers;
    let builder = builder.extra_header("x-more", "1");
    assert_eq!(builder.refusal.as_deref(), Some("too many headers: max size reached"));
    assert_eq!(builder.extra_headers.keys_len(), 24576);
    assert!(matches!(builder.into_config(true), Err(Error::InvalidConfig { .. })));
}
