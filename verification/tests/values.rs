use grok_search_rs::config::parse_reasoning_effort;
use grok_search_rs::json::{Json, JsonMap, JsonNumber};
use grok_search_rs::json_text::{from_serde, to_serde};
use grok_search_rs::text::{
    contains, decimal, end_of_run, find, from_chars, is_white_space, same, to_ascii_lowercase,
    to_chars, trim,
};

#[test]
fn white_space_is_that_of_unicode() {
    for n in 0..=0x10ffffu32 {
        if let Some(c) = char::from_u32(n) {
            assert_eq!(is_white_space(c), c.is_whitespace(), "{n:x}");
        }
    }
}

#[test]
fn texts_are_trimmed_as_by_std() {
    for s in ["", " ", "a", " a b\u{2003}", "\u{85}\u{3000}x\u{1680}", "\u{200b}y"] {
        assert_eq!(trim(s), s.trim(), "{s:?}");
    }
}

#[test]
fn texts_are_lowered_as_by_std() {
    for s in ["", "AZaz@[`{", "ÀÉ İK", "Ab9_Z"] {
        assert_eq!(to_ascii_lowercase(s), s.to_ascii_lowercase());
    }
}

#[test]
fn texts_are_searched_as_by_std() {
    for (s, p) in [
        ("", ""),
        ("abc", ""),
        ("", "a"),
        ("aab", "ab"),
        ("aaa", "b"),
        ("xéy", "éy"),
        ("ab", "abc"),
    ] {
        assert_eq!(contains(s, p), s.contains(p), "{s} {p}");
        let place = s.find(p).map(|i| s[..i].chars().count());
        assert_eq!(find(&to_chars(s), p), place, "{s} {p}");
    }
}

#[test]
fn runs_end_at_white_space() {
    let chars = to_chars("ab cd");
    assert_eq!(end_of_run(&chars, 0), 2);
    assert_eq!(end_of_run(&chars, 2), 2);
    assert_eq!(end_of_run(&chars, 3), 5);
    assert_eq!(from_chars(&chars), "ab cd");
}

#[test]
fn texts_are_compared() {
    assert!(same("", ""));
    assert!(same("é→", "é→"));
    assert!(!same("a", "b"));
    assert!(!same("a", "ab"));
}

#[test]
fn numbers_are_written_in_decimal() {
    for n in [0, 7, 10, 503, 1_000_000_007, u64::MAX] {
        assert_eq!(decimal(n), n.to_string());
    }
}

#[test]
fn effort_levels_are_normalized() {
    for level in ["low", "medium", "high", "xhigh"] {
        assert_eq!(parse_reasoning_effort(level), Some(level.to_string()));
    }
    assert_eq!(parse_reasoning_effort(" HIGH\n"), Some("high".to_string()));
    assert_eq!(parse_reasoning_effort("max"), None);
    assert_eq!(parse_reasoning_effort(""), None);
}

#[test]
fn objects_keep_each_key_once_in_order() {
    let map = JsonMap::new()
        .with("b", Json::Null)
        .with("é", Json::Bool(true))
        .with("a", Json::text("x"))
        .with("ab", Json::Null)
        .with("b", Json::integer(-3));
    let keys: Vec<&str> = map.entries().iter().map(|e| e.0.as_str()).collect();
    assert_eq!(keys, vec!["a", "ab", "b", "é"]);
    assert_eq!(map.get("b"), Some(&Json::Number(JsonNumber::Negative(-3))));
    assert_eq!(map.get("c"), None);
    let entries = Json::Object(map).clone();
    match entries {
        Json::Object(map) => assert_eq!(map.into_entries().len(), 4),
        other => panic!("{other:?}"),
    }
}

#[test]
fn objects_are_equal_whatever_the_order_they_were_built_in() {
    let one = JsonMap::new().with("x", Json::Null).with("y", Json::Null);
    let two = JsonMap::new().with("y", Json::Null).with("x", Json::Null);
    assert_eq!(one, two);
}

#[test]
fn values_are_read_by_kind() {
    let value = Json::Object(
        JsonMap::new()
            .with("n", Json::integer(5))
            .with("t", Json::text("x"))
            .with("l", Json::array(vec![Json::Null])),
    );
    assert_eq!(value.get_u64("n"), Some(5));
    assert_eq!(value.get_u64("t"), None);
    assert_eq!(value.get_str("t"), Some("x"));
    assert_eq!(value.get_str("n"), None);
    assert_eq!(value.get("l").and_then(Json::as_array).map(|l| l.len()), Some(1));
    assert_eq!(Json::Bool(true).as_bool(), Some(true));
    assert_eq!(Json::Null.as_bool(), None);
    assert_eq!(Json::Null.get("x"), None);
    assert_eq!(Json::integer(-1).as_u64(), None);
}

#[test]
fn float_numbers_are_cloned() {
    let number = serde_json::Number::from_f64(2.5).expect("finite");
    let value = Json::Number(JsonNumber::Float(number.clone()));
    assert_eq!(value.clone(), Json::Number(JsonNumber::Float(number)));
    assert_eq!(value.as_u64(), None);
}

fn read(text: &str) -> serde_json::Value {
    serde_json::from_str(text).expect("JSON")
}

#[test]
fn values_cross_to_serde_and_back() {
    for text in [
        "null",
        "true",
        "[]",
        "{}",
        "0",
        "-1",
        "18446744073709551615",
        "-9223372036854775808",
        "1.5",
        "-0.0",
        "1e300",
        "18446744073709551616",
        r#""a\n\u00e9""#,
        r#"{"b":[1,{"c":null}],"a":{"":false},"é":-7}"#,
    ] {
        let value = read(text);
        let ours = from_serde(value.clone());
        assert_eq!(to_serde(&ours), value, "{text}");
        assert_eq!(to_serde(&ours.clone()), value, "{text}");
    }
}

#[test]
fn numbers_are_told_apart() {
    assert_eq!(
        from_serde(read("18446744073709551615")),
        Json::Number(JsonNumber::Unsigned(u64::MAX))
    );
    assert_eq!(
        from_serde(read("-9223372036854775808")),
        Json::Number(JsonNumber::Negative(i64::MIN))
    );
    assert!(matches!(
        from_serde(read("2.0")),
        Json::Number(JsonNumber::Float(_))
    ));
    assert_eq!(from_serde(read("2.0")).as_u64(), None);
    let whole = Json::Number(JsonNumber::Float(serde_json::Number::from(5)));
    assert_eq!(whole.as_u64(), Some(5));
    let below = Json::Number(JsonNumber::Float(serde_json::Number::from(-5)));
    assert_eq!(below.as_u64(), None);
    assert_eq!(Json::Number(JsonNumber::Negative(4)).as_u64(), Some(4));
}

#[test]
fn objects_cross_with_all_their_members() {
    let value = from_serde(read(r#"{"k":1,"j":"x","k":2}"#));
    let expected = Json::Object(
        JsonMap::new()
            .with("j", Json::text("x"))
            .with("k", Json::unsigned(2)),
    );
    assert_eq!(value, expected);
    assert_eq!(to_serde(&value).to_string(), r#"{"j":"x","k":2}"#);
}
