//! Tests of the JSON text layer: printing, parsing, escapes and
//! number tokens.

use gemini::{JsonNumber, JsonValue};

fn parse(s: &str) -> Option<JsonValue> {
    gemini::json_parse::parse_json(s)
}

#[test]
fn test_print_literals() {
    assert_eq!(JsonValue::Null.to_text(), "null");
    assert_eq!(JsonValue::Bool(true).to_text(), "true");
    assert_eq!(JsonValue::Bool(false).to_text(), "false");
}

#[test]
fn test_print_string_escapes() {
    let v = JsonValue::Str("a\"b\\c\nd\te\u{08}f\u{0C}g\rh\u{1F}i".to_string());
    assert_eq!(v.to_text(), r#""a\"b\\c\nd\te\bf\fg\rh\u001fi""#);
}

#[test]
fn test_parse_string_escapes() {
    let v = parse(r#""a\"b\\c\/d\ne\tf\bg\fh\riAj""#).unwrap();
    match v {
        JsonValue::Str(s) => assert_eq!(s, "a\"b\\c/d\ne\tf\u{08}g\u{0C}h\ri\u{41}j"),
        _ => panic!("expected a string"),
    }
}

#[test]
fn test_parse_rejects_bad_escape_and_control() {
    assert!(parse(r#""\q""#).is_none());
    assert!(parse("\"a\nb\"").is_none());
    assert!(parse(r#""\u00g1""#).is_none());
    assert!(parse(r#""\ud800""#).is_none());
    assert!(parse(r#""unterminated"#).is_none());
}

#[test]
fn test_parse_numbers() {
    assert!(JsonNumber::from_string("0".to_string()).is_some());
    assert!(JsonNumber::from_string("-12.5e+3".to_string()).is_some());
    assert!(JsonNumber::from_string("007".to_string()).is_none());
    assert!(JsonNumber::from_string("1.".to_string()).is_none());
    assert!(JsonNumber::from_string("+1".to_string()).is_none());
    assert!(JsonNumber::from_string("1e".to_string()).is_none());
    assert!(JsonNumber::from_string("".to_string()).is_none());

    match parse("-12.5e+3").unwrap() {
        JsonValue::Num(n) => assert_eq!(n.as_str(), "-12.5e+3"),
        _ => panic!("expected a number"),
    }
    assert!(parse("01").is_none());
}

#[test]
fn test_parse_nested_with_whitespace() {
    let text = " {\n\t\"a\" : [ 1 , true , null , \"x\" ] ,\r\n \"b\" : { } } ";
    let v = parse(text).unwrap();
    assert_eq!(v.to_text(), r#"{"a":[1,true,null,"x"],"b":{}}"#);
}

#[test]
fn test_parse_rejects_trailing_garbage() {
    assert!(parse("{} x").is_none());
    assert!(parse("1 2").is_none());
    assert!(parse("").is_none());
    assert!(parse("{\"a\":1,}").is_none());
    assert!(parse("[1 2]").is_none());
}

#[test]
fn test_print_parse_round_trip() {
    let v = JsonValue::Obj(vec![
        (
            "xs".to_string(),
            JsonValue::Arr(vec![
                JsonValue::Num(JsonNumber::from_string("-3.5".to_string()).unwrap()),
                JsonValue::Str("he said \"hi\"".to_string()),
                JsonValue::Bool(false),
            ]),
        ),
        ("empty".to_string(), JsonValue::Arr(vec![])),
        ("n".to_string(), JsonValue::Null),
    ]);
    let text = v.to_text();
    let back = parse(&text).unwrap();
    assert_eq!(back.to_text(), text);
}

#[test]
fn test_unicode_passthrough() {
    let v = JsonValue::Str("héllo ☃".to_string());
    let text = v.to_text();
    assert_eq!(text, "\"héllo ☃\"");
    match parse(&text).unwrap() {
        JsonValue::Str(s) => assert_eq!(s, "héllo ☃"),
        _ => panic!("expected a string"),
    }
}
