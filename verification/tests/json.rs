use chat_client::json::{parse_json, quote, Json};

fn text(s: &str) -> Json {
    Json::Text(s.to_string())
}

fn entry(key: &str, value: Json) -> (String, Json) {
    (key.to_string(), value)
}

#[test]
fn scalars_are_read() {
    assert_eq!(parse_json("null"), Some(Json::Null));
    assert_eq!(parse_json("true"), Some(Json::Bool(true)));
    assert_eq!(parse_json("false"), Some(Json::Bool(false)));
    assert_eq!(parse_json("\"hi\""), Some(text("hi")));
    assert_eq!(parse_json(" 42 "), Some(Json::Number(Some(42))));
    assert_eq!(parse_json("-7"), Some(Json::Number(Some(-7))));
}

#[test]
fn a_number_keeps_its_value_only_as_a_64_bit_integer() {
    assert_eq!(parse_json("9223372036854775807"), Some(Json::Number(Some(i64::MAX))));
    assert_eq!(parse_json("-9223372036854775808"), Some(Json::Number(Some(i64::MIN))));
    assert_eq!(parse_json("9223372036854775808"), Some(Json::Number(None)));
    assert_eq!(parse_json("18446744073709551615"), Some(Json::Number(None)));
    assert_eq!(parse_json("1.5"), Some(Json::Number(None)));
    assert_eq!(parse_json("1.0"), Some(Json::Number(None)));
    assert_eq!(parse_json("1e3"), Some(Json::Number(None)));
}

#[test]
fn arrays_and_objects_are_read() {
    assert_eq!(parse_json("[]"), Some(Json::Array(vec![])));
    assert_eq!(parse_json("{}"), Some(Json::Object(vec![])));
    assert_eq!(
        parse_json("[1, \"a\", [null], {\"k\": false}]"),
        Some(Json::Array(vec![
            Json::Number(Some(1)),
            text("a"),
            Json::Array(vec![Json::Null]),
            Json::Object(vec![entry("k", Json::Bool(false))]),
        ]))
    );
}

#[test]
fn object_members_come_sorted_by_key_and_once() {
    assert_eq!(
        parse_json("{\"b\": 1, \"a\": 2, \"b\": 3}"),
        Some(Json::Object(vec![
            entry("a", Json::Number(Some(2))),
            entry("b", Json::Number(Some(3))),
        ]))
    );
}

#[test]
fn string_escapes_are_decoded() {
    assert_eq!(parse_json("\"a\\n\\\"b\\\\\\u00e9\\ud83d\\ude00\""), Some(text("a\n\"b\\\u{e9}\u{1f600}")));
}

#[test]
fn text_that_is_no_json_is_refused() {
    assert_eq!(parse_json(""), None);
    assert_eq!(parse_json("{"), None);
    assert_eq!(parse_json("{\"a\": 1,}"), None);
    assert_eq!(parse_json("[1 2]"), None);
    assert_eq!(parse_json("nul"), None);
    assert_eq!(parse_json("1 2"), None);
    assert_eq!(parse_json("'a'"), None);
    assert_eq!(parse_json("{a: 1}"), None);
}

#[test]
fn nesting_beyond_the_limit_is_refused() {
    let deep = format!("{}{}", "[".repeat(200), "]".repeat(200));
    assert_eq!(parse_json(&deep), None);
    let fine = format!("{}{}", "[".repeat(100), "]".repeat(100));
    assert!(parse_json(&fine).is_some());
}

#[test]
fn member_finds_the_first_entry_under_the_key() {
    let object = Json::Object(vec![
        entry("a", Json::Number(Some(1))),
        entry("b", Json::Null),
        entry("a", Json::Number(Some(2))),
    ]);
    assert_eq!(object.member("a"), Some(&Json::Number(Some(1))));
    assert_eq!(object.member("b"), Some(&Json::Null));
    assert_eq!(object.member("c"), None);
    assert_eq!(object.member(""), None);
}

#[test]
fn member_of_what_is_no_object_is_none() {
    assert_eq!(Json::Null.member("a"), None);
    assert_eq!(text("a").member("a"), None);
    assert_eq!(Json::Array(vec![text("a")]).member("a"), None);
    assert_eq!(Json::Object(vec![]).member("a"), None);
}

#[test]
fn accessors_tell_the_kinds_apart() {
    let items = vec![Json::Null, Json::Bool(true)];
    assert_eq!(text("x").as_text(), Some(&"x".to_string()));
    assert_eq!(Json::Number(Some(3)).as_text(), None);
    assert_eq!(Json::Number(Some(3)).as_integer(), Some(3));
    assert_eq!(Json::Number(None).as_integer(), None);
    assert_eq!(text("3").as_integer(), None);
    assert_eq!(Json::Array(items.clone()).as_array(), Some(&items));
    assert_eq!(Json::Object(vec![]).as_array(), None);
    assert_eq!(Json::Null.as_array(), None);
}

#[test]
fn clone_copies_the_whole_value() {
    let value = parse_json("{\"a\": [1, {\"b\": [\"c\", null, 2.5, true]}], \"d\": {}}").unwrap();
    let copy = value.clone();
    assert_eq!(copy, value);
    assert_eq!(
        copy.member("a").unwrap().as_array().unwrap()[1].member("b").unwrap().as_array().unwrap()
            [0],
        text("c")
    );
}

#[test]
fn quote_writes_a_json_string_literal() {
    assert_eq!(quote(""), "\"\"");
    assert_eq!(quote("2+2?"), "\"2+2?\"");
    assert_eq!(quote("a\"b"), "\"a\\\"b\"");
    assert_eq!(quote("a\\b"), "\"a\\\\b\"");
    assert_eq!(quote("a\nb\tc\rd"), "\"a\\nb\\tc\\rd\"");
    assert_eq!(quote("\u{8}\u{c}"), "\"\\b\\f\"");
    assert_eq!(quote("\u{0}\u{1f}"), "\"\\u0000\\u001f\"");
    assert_eq!(quote("\u{7f}/\u{e9}\u{1f600}"), "\"\u{7f}/\u{e9}\u{1f600}\"");
}

#[test]
fn quoted_text_reads_back_as_the_text() {
    for s in ["", "plain", "a\"b\\c", "line\nfeed\r\n\ttab", "\u{0}\u{1}\u{1f}\u{7f}", "\u{e9}\u{4e2d}\u{1f600}", "</script>"] {
        assert_eq!(parse_json(&quote(s)), Some(text(s)));
    }
}
