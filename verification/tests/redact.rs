use aqara::util::json::{Json, JsonNumber, Member};
use aqara::util::redact::{
    is_sensitive_key, redact_json, redact_value, snippet_from_bytes, snippet_from_parsed,
};

fn text(s: &str) -> Json {
    Json::Text(s.to_string())
}

fn member(key: &str, value: Json) -> Member {
    Member { key: key.to_string(), value }
}

#[test]
fn redaction_replaces_secret_fields_and_keeps_the_rest() {
    let body = br#"{"accessToken":"abc","nested":{"refresh_token":"xyz","ok":"keep"}}"#;
    let snippet = snippet_from_bytes(body, 2048);
    assert_eq!(
        snippet,
        r#"{"accessToken":"[REDACTED]","nested":{"ok":"keep","refresh_token":"[REDACTED]"}}"#
    );
    assert!(!snippet.contains("abc"));
    assert!(!snippet.contains("xyz"));
    assert!(snippet.contains(r#""ok":"keep""#));
}

#[test]
fn redaction_walks_arrays_and_nested_objects() {
    let value = Json::Array(vec![
        Json::Object(vec![
            member("Password", text("p")),
            member("name", text("n")),
            member("list", Json::Array(vec![Json::Object(vec![member("secret", Json::Null)])])),
        ]),
        text("token"),
        Json::Number(JsonNumber::PosInt(7)),
    ]);
    let redacted = redact_json(value);
    assert_eq!(
        redacted.to_text(),
        r#"[{"Password":"[REDACTED]","list":[{"secret":"[REDACTED]"}],"name":"n"},"token",7]"#
    );
}

#[test]
fn redaction_replaces_whole_values_under_sensitive_keys() {
    let value = Json::Object(vec![member(
        "tokens",
        Json::Object(vec![member("a", text("1")), member("b", Json::Array(vec![text("2")]))]),
    )]);
    assert_eq!(redact_value(&value).to_text(), r#"{"tokens":"[REDACTED]"}"#);
}

#[test]
fn redaction_leaves_scalars_alone() {
    assert_eq!(redact_json(Json::Null).to_text(), "null");
    assert_eq!(redact_json(Json::Bool(true)).to_text(), "true");
    assert_eq!(redact_json(text("secret")).to_text(), r#""secret""#);
    assert_eq!(redact_json(Json::Number(JsonNumber::NegInt(-3))).to_text(), "-3");
}

#[test]
fn sensitive_keys_are_matched_after_trimming_and_lowering() {
    for key in [
        "accesstoken",
        "access_token",
        "access-token",
        "token",
        "refresh_token",
        "refreshtoken",
        "appkey",
        "app_key",
        "password",
        "secret",
        "AccessToken",
        "  Secret\t",
        "X-Auth-Token-Id",
        "myTOKENvalue",
        "\u{3000}APPKEY\u{2028}",
    ] {
        assert!(is_sensitive_key(key), "{key}");
    }
    for key in ["", "ok", "secrets", "app key", "passwords", "toke", "tok en", "key", "app-key"] {
        assert!(!is_sensitive_key(key), "{key}");
    }
}

#[test]
fn snippet_of_text_that_is_not_json_is_the_text() {
    assert_eq!(snippet_from_bytes(b"not json", 2048), "not json");
    assert_eq!(snippet_from_bytes(b"boom", 2), "bo");
    assert_eq!(snippet_from_bytes(b"", 10), "");
}

#[test]
fn snippet_replaces_bytes_that_are_not_utf8() {
    assert_eq!(snippet_from_bytes(&[b'a', 0xff, b'b'], 2048), "a\u{fffd}b");
}

#[test]
fn snippet_is_cut_to_the_limit() {
    let body = br#"{"name":"0123456789"}"#;
    assert_eq!(snippet_from_bytes(body, 2048), r#"{"name":"0123456789"}"#);
    assert_eq!(snippet_from_bytes(body, 10), r#"{"name":"0"#);
    assert_eq!(snippet_from_bytes(body, 1), "{");
    assert_eq!(snippet_from_bytes(body, 0), "");
}

#[test]
fn snippet_never_cuts_a_character_in_two() {
    let body = "héllo wörld".as_bytes();
    assert_eq!(snippet_from_bytes(body, 1), "h");
    assert_eq!(snippet_from_bytes(body, 2), "h");
    assert_eq!(snippet_from_bytes(body, 3), "hé");
    let wide = "a\u{20ac}\u{1f600}".as_bytes();
    assert_eq!(snippet_from_bytes(wide, 3), "a");
    assert_eq!(snippet_from_bytes(wide, 4), "a\u{20ac}");
    assert_eq!(snippet_from_bytes(wide, 7), "a\u{20ac}");
    assert_eq!(snippet_from_bytes(wide, 8), "a\u{20ac}\u{1f600}");
}

#[test]
fn snippet_normalizes_json_text() {
    let body = b" { \"b\" : [ 1 , 2.5 , -3 , 1e2 ] , \"a\" : null } ";
    assert_eq!(snippet_from_bytes(body, 2048), r#"{"a":null,"b":[1,2.5,-3,100.0]}"#);
}

#[test]
fn snippet_from_parsed_uses_the_reading_that_it_is_given() {
    let parsed = Json::parse(br#"{"token":"t","n":18446744073709551615}"#);
    assert_eq!(
        snippet_from_parsed(parsed, b"ignored", 2048),
        r#"{"n":18446744073709551615,"token":"[REDACTED]"}"#
    );
    assert_eq!(snippet_from_parsed(None, b"plain", 3), "pla");
}
