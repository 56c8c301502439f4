use aqara::util::json::{Json, JsonNumber, Member};
use aqara::util::text::{
    chars_of, contains, decimal_string, is_space_char, parse_u64, same_chars, same_text,
    string_of, to_ascii_lower, to_ascii_lower_char, trim, truncate_chars, width_of,
};
use aqara::util::time::{read_clock, timestamp_millis, unix_timestamp_millis, ClockReading, Duration};
use aqara::Error;

fn chars(s: &str) -> Vec<char> {
    s.chars().collect()
}

#[test]
fn chars_and_strings_convert_both_ways() {
    assert_eq!(chars_of("héllo"), vec!['h', 'é', 'l', 'l', 'o']);
    assert_eq!(chars_of(""), Vec::<char>::new());
    assert_eq!(string_of(&chars("wörld \u{1f600}")), "wörld \u{1f600}");
    assert!(same_chars(&chars("abc"), &chars("abc")));
    assert!(!same_chars(&chars("abc"), &chars("abd")));
    assert!(!same_chars(&chars("abc"), &chars("ab")));
    assert!(same_text("", ""));
    assert!(same_text("token", "token"));
    assert!(!same_text("token", "Token"));
}

#[test]
fn ascii_lowering_touches_only_ascii_capitals() {
    assert_eq!(to_ascii_lower_char('A'), 'a');
    assert_eq!(to_ascii_lower_char('Z'), 'z');
    assert_eq!(to_ascii_lower_char('a'), 'a');
    assert_eq!(to_ascii_lower_char('@'), '@');
    assert_eq!(to_ascii_lower_char('['), '[');
    assert_eq!(to_ascii_lower_char('Ä'), 'Ä');
    assert_eq!(string_of(&to_ascii_lower(&chars("AccessToken-ÄÖ_9"))), "accesstoken-ÄÖ_9");
}

#[test]
fn trimming_removes_unicode_white_space_at_both_ends() {
    assert_eq!(string_of(&trim(&chars("  a b \t\r\n"))), "a b");
    assert_eq!(string_of(&trim(&chars("\u{a0}\u{2003}x\u{3000}\u{85}"))), "x");
    assert_eq!(string_of(&trim(&chars(" \t "))), "");
    assert_eq!(string_of(&trim(&chars(""))), "");
    assert_eq!(string_of(&trim(&chars("\u{200b}x"))), "\u{200b}x");
    for c in ['\u{9}', '\u{d}', ' ', '\u{85}', '\u{a0}', '\u{1680}', '\u{2000}', '\u{200a}',
        '\u{2028}', '\u{2029}', '\u{202f}', '\u{205f}', '\u{3000}']
    {
        assert!(is_space_char(c));
        assert!(c.is_whitespace());
    }
    for c in ['a', '\u{8}', '\u{e}', '\u{200b}', '\u{180e}', '\u{feff}'] {
        assert!(!is_space_char(c));
        assert!(!c.is_whitespace());
    }
}

#[test]
fn decimal_text_of_numbers() {
    assert_eq!(decimal_string(0), "0");
    assert_eq!(decimal_string(7), "7");
    assert_eq!(decimal_string(10), "10");
    assert_eq!(decimal_string(1_700_000_000_000), "1700000000000");
    assert_eq!(decimal_string(u128::MAX), "340282366920938463463374607431768211455");
}

#[test]
fn numbers_are_parsed_as_std_parses_them() {
    let cases = [
        "0", "7", "007", "+5", "18446744073709551615", "18446744073709551616", "", "+", "-1",
        "1 ", " 1", "1_000", "0x10", "1.0", "++1", "٣", "99999999999999999999999",
    ];
    for case in cases {
        assert_eq!(parse_u64(&chars(case)), case.parse::<u64>().ok(), "{case:?}");
    }
    assert_eq!(parse_u64(&chars("18446744073709551615")), Some(u64::MAX));
}

#[test]
fn runs_are_found_anywhere() {
    let token = chars("token");
    assert!(contains(&chars("token"), &token));
    assert!(contains(&chars("mytokenvalue"), &token));
    assert!(contains(&chars("xxtoken"), &token));
    assert!(!contains(&chars("toke"), &token));
    assert!(!contains(&chars("tokne"), &token));
    assert!(!contains(&chars(""), &token));
    assert!(contains(&chars("abc"), &chars("")));
    assert!(contains(&chars(""), &chars("")));
}

#[test]
fn truncation_counts_bytes_and_keeps_characters_whole() {
    assert_eq!(width_of('a'), 1);
    assert_eq!(width_of('\u{7f}'), 1);
    assert_eq!(width_of('\u{80}'), 2);
    assert_eq!(width_of('\u{7ff}'), 2);
    assert_eq!(width_of('\u{800}'), 3);
    assert_eq!(width_of('\u{ffff}'), 3);
    assert_eq!(width_of('\u{10000}'), 4);
    assert_eq!(width_of('\u{10ffff}'), 4);
    for c in ['a', 'é', '\u{20ac}', '\u{1f600}'] {
        assert_eq!(width_of(c), c.len_utf8());
    }
    let text = chars("aé\u{20ac}\u{1f600}z");
    let expect = ["", "a", "a", "aé", "aé", "aé", "aé\u{20ac}", "aé\u{20ac}", "aé\u{20ac}",
        "aé\u{20ac}", "aé\u{20ac}\u{1f600}", "aé\u{20ac}\u{1f600}z", "aé\u{20ac}\u{1f600}z"];
    for (max_len, want) in expect.iter().enumerate() {
        let cut = string_of(&truncate_chars(&text, max_len));
        assert_eq!(&cut, want);
        assert!(cut.len() <= max_len);
    }
    assert_eq!(string_of(&truncate_chars(&text, usize::MAX)), "aé\u{20ac}\u{1f600}z");
}

#[test]
fn durations_hold_seconds_and_nanoseconds() {
    assert!(Duration::new(1, 1_000_000_000).is_none());
    let d = Duration::new(1, 999_999_999).unwrap();
    assert_eq!((d.as_secs(), d.subsec_nanos(), d.as_millis()), (1, 999_999_999, 1_999));
    assert!(Duration::zero().is_zero());
    assert!(Duration::from_secs(0).is_zero());
    assert!(!Duration::new(0, 1).unwrap().is_zero());
    let d = Duration::from_millis(1_234);
    assert_eq!((d.as_secs(), d.subsec_nanos(), d.as_millis()), (1, 234_000_000, 1_234));
    assert_eq!(Duration::from_millis(u64::MAX).as_millis(), u128::from(u64::MAX));
    assert_eq!(Duration::from_secs(u64::MAX).as_millis(), u128::from(u64::MAX) * 1000);
    assert!(Duration::from_millis(999) < Duration::from_secs(1));
    assert!(Duration::new(1, 1).unwrap() > Duration::from_secs(1));
}

#[test]
fn durations_subtract_and_add_without_overflow() {
    let a = Duration::new(5, 100).unwrap();
    let b = Duration::new(2, 200).unwrap();
    assert_eq!(a.saturating_sub(&b), Duration::new(2, 999_999_900).unwrap());
    assert_eq!(b.saturating_sub(&a), Duration::zero());
    assert_eq!(a.saturating_sub(&a), Duration::zero());
    assert_eq!(Duration::new(5, 300).unwrap().saturating_sub(&b), Duration::new(3, 100).unwrap());
    assert_eq!(a.saturating_add_secs(10), Duration::new(15, 100).unwrap());
    assert_eq!(a.saturating_add_secs(u64::MAX), Duration::new(u64::MAX, 100).unwrap());
}

#[test]
fn time_stamp_is_the_milliseconds_of_the_reading() {
    let reading = ClockReading::Since(Duration::new(1_700_000_000, 123_456_789).unwrap());
    assert_eq!(timestamp_millis(reading).unwrap(), "1700000000123");
    assert_eq!(timestamp_millis(ClockReading::Since(Duration::zero())).unwrap(), "0");
    match timestamp_millis(ClockReading::Before(Duration::from_secs(1))).unwrap_err() {
        Error::Transport { message } => assert_eq!(message, "system clock is before unix epoch"),
        other => panic!("unexpected error: {other:?}"),
    }
}

#[test]
fn clock_is_read() {
    let stamp: u128 = unix_timestamp_millis().unwrap().parse().unwrap();
    assert!(stamp > 1_600_000_000_000);
    match read_clock() {
        ClockReading::Since(d) => {
            assert!(d.as_millis() >= stamp);
            assert!(d.subsec_nanos() < 1_000_000_000);
        }
        ClockReading::Before(_) => panic!("the clock stands before 1970"),
    }
}

#[test]
fn json_is_parsed_and_printed() {
    let value = Json::parse(br#" {"b":[true,null,-1,2.50],"a":"x\ny","c":{}} "#).unwrap();
    assert_eq!(value.to_text(), r#"{"a":"x\ny","b":[true,null,-1,2.5],"c":{}}"#);
    assert!(Json::parse(b"").is_none());
    assert!(Json::parse(b"{").is_none());
    assert!(Json::parse(b"1 2").is_none());
    assert!(Json::parse(b"not json").is_none());
    assert_eq!(Json::parse(b"18446744073709551615").unwrap().to_text(), "18446744073709551615");
    assert_eq!(Json::parse(b"-9223372036854775808").unwrap().to_text(), "-9223372036854775808");
    assert_eq!(Json::parse(b"1e400").map(|j| j.to_text()), None);
    assert_eq!(Json::Number(JsonNumber::Real("0.1".to_string())).to_text(), "0.1");
    assert_eq!(Json::Number(JsonNumber::Real("x".to_string())).to_text(), "null");
    assert_eq!(Json::Number(JsonNumber::NegInt(5)).to_text(), "5");
}

#[test]
fn json_members_and_scalars_are_read() {
    let value = Json::parse(br#"{"a":1,"b":"two","c":null,"d":-4,"e":1.5,"f":9223372036854775808}"#)
        .unwrap();
    assert_eq!(value.get("a").and_then(|j| j.as_i64()), Some(1));
    assert_eq!(value.get("b").and_then(|j| j.as_str()), Some("two"));
    assert!(value.get("c").unwrap().is_null());
    assert_eq!(value.get("d").and_then(|j| j.as_i64()), Some(-4));
    assert_eq!(value.get("e").and_then(|j| j.as_i64()), None);
    assert_eq!(value.get("f").and_then(|j| j.as_i64()), None);
    assert!(value.get("g").is_none());
    assert!(value.get("b").unwrap().get("x").is_none());
    assert_eq!(value.get("a").and_then(|j| j.as_str()), None);
    assert!(!value.is_null());
    let twice = Json::Object(vec![
        Member { key: "k".to_string(), value: Json::Bool(false) },
        Member { key: "k".to_string(), value: Json::Bool(true) },
    ]);
    assert_eq!(twice.get("k").map(|j| j.to_text()), Some("true".to_string()));
    assert_eq!(twice.to_text(), r#"{"k":true}"#);
    assert_eq!(twice.clone().to_text(), r#"{"k":true}"#);
    assert_eq!(value.clone().to_text(), value.to_text());
}
