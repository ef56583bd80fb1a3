//! Tests of the typed-content codec: the plain-text pass-through,
//! the structured JSON embedding, and the round-trip laws on
//! concrete values.

use gemini::{JsonNumber, JsonString, JsonValue, KeyValue, Person, TypedText};

fn str_value(s: &str) -> JsonValue {
    JsonValue::Str(s.to_string())
}

fn num_value(token: &str) -> JsonValue {
    JsonValue::Num(JsonNumber::from_string(token.to_string()).unwrap())
}

#[test]
fn test_json_string_new_and_into_inner() {
    let original = "test data".to_string();
    let wrapped = JsonString::new(original.clone());
    let extracted = wrapped.into_inner();

    assert_eq!(extracted, original);
}

#[test]
fn test_json_string_with_plain_string() {
    let original = "simple string".to_string();
    let encoded = original.encode().unwrap();

    // The plain-text type passes through without an extra layer.
    assert_eq!(encoded, "simple string");

    // As a JSON string literal it is simply quoted.
    let serialized = JsonValue::Str(encoded).to_text();
    assert_eq!(serialized, r#""simple string""#);

    let reparsed = JsonValue::decode(&serialized).unwrap();
    match reparsed {
        JsonValue::Str(s) => assert_eq!(String::decode(&s).unwrap(), original),
        _ => panic!("expected a string literal"),
    }
}

#[test]
fn test_json_string_serialize() {
    let inner = KeyValue {
        key: "test".to_string(),
        value: 42,
    };

    let encoded = inner.encode().unwrap();
    let serialized = JsonValue::Str(encoded).to_text();

    // Should be JSON-encoded as a string: the outer quotes come from
    // the embedding, the inner escaped quotes from the encoding.
    assert_eq!(serialized, r#""{\"key\":\"test\",\"value\":42}""#);
}

#[test]
fn test_json_string_deserialize() {
    let json = r#""{\"key\":\"test\",\"value\":42}""#;
    let outer = JsonValue::decode(json).unwrap();
    let inner_text = match outer {
        JsonValue::Str(s) => s,
        _ => panic!("expected a string literal"),
    };
    let wrapped = KeyValue::decode(&inner_text).unwrap();

    assert_eq!(wrapped.key, "test");
    assert_eq!(wrapped.value, 42);
}

#[test]
fn test_json_string_roundtrip() {
    let original = Person {
        name: "Alice".to_string(),
        age: 30,
    };

    let serialized = original.encode().unwrap();
    let deserialized = Person::decode(&serialized).unwrap();

    assert_eq!(deserialized.name, "Alice");
    assert_eq!(deserialized.age, 30);
}

#[test]
fn test_json_string_in_struct() {
    let person = Person {
        name: "Bob".to_string(),
        age: 25,
    };

    let encoded = person.encode().unwrap();
    let serialized = JsonValue::Str(encoded).to_text();
    assert!(serialized.contains(r#"\"name\":\"Bob\""#));

    let outer = JsonValue::decode(&serialized).unwrap();
    let inner_text = match outer {
        JsonValue::Str(s) => s,
        _ => panic!("expected a string literal"),
    };
    let deserialized = Person::decode(&inner_text).unwrap();
    assert_eq!(deserialized.name, "Bob");
    assert_eq!(deserialized.age, 25);
}

#[test]
fn test_json_string_with_value() {
    let value = JsonValue::Obj(vec![(
        "nested".to_string(),
        JsonValue::Obj(vec![
            ("key".to_string(), str_value("value")),
            (
                "array".to_string(),
                JsonValue::Arr(vec![num_value("1"), num_value("2"), num_value("3")]),
            ),
        ]),
    )]);

    let serialized = value.encode().unwrap();
    let deserialized = JsonValue::decode(&serialized).unwrap();

    assert_eq!(deserialized.to_text(), value.to_text());
}

#[test]
fn test_plain_text_encode_is_identity() {
    let encoded = "hello".to_string().encode().unwrap();
    assert_eq!(encoded, "hello");
    let decoded = String::decode("hello").unwrap();
    assert_eq!(decoded, "hello");
}

#[test]
fn test_structured_encode_adds_json_layer() {
    // A structured value of a non-plain-text type encodes as the
    // JSON document text, while the plain-text type does not.
    let kv = KeyValue {
        key: "test".to_string(),
        value: 42,
    };
    assert_eq!(kv.encode().unwrap(), r#"{"key":"test","value":42}"#);
    assert_eq!(r#"{"key":"test","value":42}"#.to_string().encode().unwrap(), r#"{"key":"test","value":42}"#);
}

#[test]
fn test_round_trip_negative_value() {
    let kv = KeyValue {
        key: "k".to_string(),
        value: -2147483648,
    };
    let text = kv.encode().unwrap();
    assert_eq!(text, r#"{"key":"k","value":-2147483648}"#);
    let back = KeyValue::decode(&text).unwrap();
    assert_eq!(back.key, "k");
    assert_eq!(back.value, -2147483648);
}

#[test]
fn test_round_trip_string_with_escapes() {
    let person = Person {
        name: "a\"b\\c\nd".to_string(),
        age: 1,
    };
    let text = person.encode().unwrap();
    let back = Person::decode(&text).unwrap();
    assert_eq!(back.name, "a\"b\\c\nd");
    assert_eq!(back.age, 1);
}

#[test]
fn test_decode_rejects_invalid_json() {
    assert!(Person::decode("not json").is_err());
    assert!(KeyValue::decode("{\"key\":").is_err());
    assert!(JsonValue::decode("[1,]").is_err());
}

#[test]
fn test_decode_rejects_wrong_shape() {
    // valid JSON, wrong shape for the expected type
    assert!(Person::decode(r#"{"name":"Alice"}"#).is_err());
    assert!(Person::decode(r#"{"name":"Alice","age":"thirty"}"#).is_err());
    assert!(Person::decode(r#"{"name":"Alice","age":-3}"#).is_err());
    assert!(KeyValue::decode(r#"{"key":"k","value":2147483648}"#).is_err());
    assert!(Person::decode(r#"[1,2]"#).is_err());
}

#[test]
fn test_person_decode_ignores_unknown_fields_and_order() {
    let p = Person::decode(r#"{"age":30,"name":"Alice","extra":null}"#).unwrap();
    assert_eq!(p.name, "Alice");
    assert_eq!(p.age, 30);
}
