//! Tests of response decoding: typed content, plain-text
//! pass-through, metadata, and the convenience accessors.

use gemini::{
    Candidate, Content, GenerateContentResponse, JsonString, Part, Person, Role,
};

fn text_part<T>(value: T) -> Part<T> {
    Part {
        text: Some(JsonString::new(value)),
        inline_data: None,
        function_call: None,
        function_response: None,
        file_data: None,
        executable_code: None,
        code_execution_result: None,
        video_metadata: None,
    }
}

#[test]
fn test_part_text_helpers() {
    let part = text_part("Hello".to_string());

    assert!(part.has_text());
    assert_eq!(part.text(), Some(&"Hello".to_string()));
    assert_eq!(part.into_text(), Some("Hello".to_string()));
}

#[test]
fn test_part_text_mut() {
    let mut part = text_part(Person {
        name: "Alice".to_string(),
        age: 30,
    });

    let mut person = part.into_text().unwrap();
    person.age = 31;
    let mut part = text_part(Person {
        name: person.name.clone(),
        age: 0,
    });
    part.set_text(person);

    assert_eq!(part.text().unwrap().age, 31);
}

#[test]
fn test_part_has_text() {
    let part_with_text: Part<String> = text_part("Hello".to_string());

    let part_without_text: Part<String> = Part {
        text: None,
        inline_data: None,
        function_call: None,
        function_response: None,
        file_data: None,
        executable_code: None,
        code_execution_result: None,
        video_metadata: None,
    };

    assert!(part_with_text.has_text());
    assert!(!part_without_text.has_text());
}

#[test]
fn test_content_automatic_deserialization() {
    // Simulate JSON response that would be automatically deserialized
    let json = r#"{
            "role": "model",
            "parts": [
                {"text": "{\"name\":\"Alice\",\"age\":30}"},
                {"text": "{\"name\":\"Bob\",\"age\":25}"}
            ]
        }"#;

    let value = gemini::json_parse::parse_json(json).unwrap();
    let content: Content<Person> = gemini::response::decode_content(&value).unwrap();
    assert_eq!(content.parts.len(), 2);
    assert_eq!(content.parts[0].text().unwrap().name, "Alice");
    assert_eq!(content.parts[0].text().unwrap().age, 30);
    assert_eq!(content.parts[1].text().unwrap().name, "Bob");
    assert_eq!(content.parts[1].text().unwrap().age, 25);
}

#[test]
fn test_content_helpers() {
    let content = Content {
        role: Some(Role::Model),
        parts: vec![text_part("Hello".to_string())],
    };

    assert!(content.first_part().is_some());
    assert_eq!(content.first_text(), Some(&"Hello".to_string()));
}

#[test]
fn test_content_string_passthrough() {
    // For the plain-text type, content passes through without
    // double-escaping.
    let json = r#"{
            "role": "model",
            "parts": [
                {"text": "Plain text response"}
            ]
        }"#;

    let value = gemini::json_parse::parse_json(json).unwrap();
    let content: Content<String> = gemini::response::decode_content(&value).unwrap();
    assert_eq!(
        content.first_text(),
        Some(&"Plain text response".to_string())
    );
}

#[test]
fn test_response_automatic_deserialization() {
    // Simulate JSON response from the API with double-escaped JSON
    let json = r#"{
            "candidates": [{
                "content": {
                    "role": "model",
                    "parts": [{"text": "{\"name\":\"Alice\",\"age\":30}"}]
                },
                "finish_reason": "STOP",
                "safety_ratings": []
            }]
        }"#;

    let response: GenerateContentResponse<Person> =
        GenerateContentResponse::decode_json(json).unwrap();
    assert_eq!(response.candidates.len(), 1);
    assert_eq!(response.first_text().unwrap().name, "Alice");
    assert_eq!(response.first_text().unwrap().age, 30);
}

#[test]
fn test_response_helpers() {
    let response = GenerateContentResponse {
        candidates: vec![Candidate {
            content: Content {
                role: Some(Role::Model),
                parts: vec![text_part("Hello".to_string())],
            },
            finish_reason: None,
            safety_ratings: vec![],
        }],
        prompt_feedback: None,
        usage_metadata: None,
    };

    assert!(response.first_candidate().is_some());
    assert!(response.first_content().is_some());
    assert_eq!(response.first_text(), Some(&"Hello".to_string()));
}

#[test]
fn test_end_to_end_automatic_deserialization() {
    // Simulate a raw API response with JSON content
    let json = r#"{
            "candidates": [
                {
                    "content": {
                        "role": "model",
                        "parts": [{"text": "{\"name\":\"Alice\",\"age\":30}"}]
                    },
                    "finish_reason": "STOP",
                    "safety_ratings": []
                },
                {
                    "content": {
                        "role": "model",
                        "parts": [{"text": "{\"name\":\"Bob\",\"age\":25}"}]
                    },
                    "finish_reason": "STOP",
                    "safety_ratings": []
                }
            ],
            "usage_metadata": {
                "prompt_token_count": 10,
                "candidates_token_count": 20,
                "total_token_count": 30
            }
        }"#;

    let typed_response: GenerateContentResponse<Person> =
        GenerateContentResponse::decode_json(json).unwrap();

    // Verify structure is preserved
    assert_eq!(typed_response.candidates.len(), 2);
    assert!(typed_response.usage_metadata.is_some());

    // Verify first candidate
    let first = &typed_response.candidates[0];
    assert_eq!(first.finish_reason, Some("STOP".to_string()));
    let first_schema = first.content.parts[0].text().unwrap();
    assert_eq!(first_schema.name, "Alice");
    assert_eq!(first_schema.age, 30);

    // Verify second candidate
    let second = &typed_response.candidates[1];
    let second_schema = second.content.parts[0].text().unwrap();
    assert_eq!(second_schema.name, "Bob");
    assert_eq!(second_schema.age, 25);

    // Verify helper methods work with typed response
    assert_eq!(typed_response.first_text().unwrap().name, "Alice");
}

#[test]
fn test_deserialization_preserves_metadata() {
    let json = r#"{
            "candidates": [{
                "content": {
                    "role": "model",
                    "parts": [{"text": "{\"name\":\"Test\",\"age\":20}"}]
                },
                "finish_reason": "MAX_TOKENS",
                "safety_ratings": []
            }],
            "prompt_feedback": {
                "safety_ratings": []
            },
            "usage_metadata": {
                "prompt_token_count": 5,
                "candidates_token_count": 15,
                "total_token_count": 20
            }
        }"#;

    let typed_response: GenerateContentResponse<Person> =
        GenerateContentResponse::decode_json(json).unwrap();

    // All metadata should be preserved
    assert!(typed_response.prompt_feedback.is_some());
    assert_eq!(
        typed_response
            .usage_metadata
            .as_ref()
            .unwrap()
            .total_token_count,
        Some(20)
    );
    assert_eq!(
        typed_response.candidates[0].finish_reason,
        Some("MAX_TOKENS".to_string())
    );
}

#[test]
fn test_string_type_passthrough() {
    // For the plain-text type, content passes through unchanged.
    let json = r#"{
            "candidates": [{
                "content": {
                    "role": "model",
                    "parts": [{"text": "Plain text response"}]
                },
                "finish_reason": "STOP",
                "safety_ratings": []
            }]
        }"#;

    let response: GenerateContentResponse<String> =
        GenerateContentResponse::decode_json(json).unwrap();
    assert_eq!(
        response.first_text(),
        Some(&"Plain text response".to_string())
    );
}

#[test]
fn test_end_to_end_typed_payload() {
    // The exact wire payload, with camel-case keys and a typed body.
    let json = r#"{"candidates":[{"content":{"role":"model","parts":[{"text":"{\"name\":\"Alice\",\"age\":30}"}]},"finishReason":"STOP","safetyRatings":[]}]}"#;

    let response: GenerateContentResponse<Person> =
        GenerateContentResponse::decode_json(json).unwrap();
    assert_eq!(response.candidates.len(), 1);
    assert_eq!(response.candidates[0].finish_reason, Some("STOP".to_string()));
    let decoded = response.first_text().unwrap();
    assert_eq!(decoded.name, "Alice");
    assert_eq!(decoded.age, 30);
}

#[test]
fn test_end_to_end_plain_payload() {
    let json = r#"{"candidates":[{"content":{"role":"model","parts":[{"text":"Plain text response"}]},"finishReason":"STOP","safetyRatings":[]}]}"#;

    let response: GenerateContentResponse<String> =
        GenerateContentResponse::decode_json(json).unwrap();
    assert_eq!(
        response.first_text(),
        Some(&"Plain text response".to_string())
    );
}

#[test]
fn test_missing_optional_fields_decode() {
    // A body omitting promptFeedback and usageMetadata decodes, with
    // those fields absent.
    let json = r#"{"candidates":[{"content":{"parts":[{"text":"ok"}]}}]}"#;
    let response: GenerateContentResponse<String> =
        GenerateContentResponse::decode_json(json).unwrap();
    assert!(response.prompt_feedback.is_none());
    assert!(response.usage_metadata.is_none());
    assert_eq!(response.candidates.len(), 1);
    assert!(response.candidates[0].finish_reason.is_none());
    assert!(response.candidates[0].safety_ratings.is_empty());

    // Even an empty object is a valid envelope with no candidates.
    let empty: GenerateContentResponse<String> =
        GenerateContentResponse::decode_json("{}").unwrap();
    assert!(empty.candidates.is_empty());
}

#[test]
fn test_decode_failure_is_fail_fast() {
    // A bad typed payload in any part fails the whole envelope.
    let json = r#"{"candidates":[{"content":{"parts":[{"text":"not json"}]}}]}"#;
    assert!(GenerateContentResponse::<Person>::decode_json(json).is_err());

    // Malformed document
    assert!(GenerateContentResponse::<String>::decode_json("{").is_err());

    // Wrong shape: candidates must be a list
    assert!(GenerateContentResponse::<String>::decode_json(r#"{"candidates":3}"#).is_err());

    // A candidate without content is rejected
    assert!(
        GenerateContentResponse::<String>::decode_json(r#"{"candidates":[{}]}"#).is_err()
    );
}

#[test]
fn test_safety_ratings_decode() {
    let json = r#"{"candidates":[{"content":{"parts":[{"text":"ok"}]},"safetyRatings":[{"category":"HARM","probability":"LOW"},{"category":"OTHER","probability":"HIGH","blocked":true}]}]}"#;
    let response: GenerateContentResponse<String> =
        GenerateContentResponse::decode_json(json).unwrap();
    let ratings = &response.candidates[0].safety_ratings;
    assert_eq!(ratings.len(), 2);
    assert_eq!(ratings[0].category, "HARM");
    assert!(!ratings[0].blocked);
    assert_eq!(ratings[1].probability, "HIGH");
    assert!(ratings[1].blocked);
}

#[test]
fn test_unicode_escape_in_text() {
    // The escape A names the letter A; decoding goes through the
    // scalar-value conversion.
    let json = r#"{"candidates":[{"content":{"parts":[{"text":"\u0041BC"}]}}]}"#;
    let response: GenerateContentResponse<String> =
        GenerateContentResponse::decode_json(json).unwrap();
    assert_eq!(response.first_text(), Some(&"ABC".to_string()));
}

#[test]
fn test_empty_parts_list_decodes() {
    let json = r#"{"candidates":[{"content":{"parts":[]}}]}"#;
    let response: GenerateContentResponse<String> =
        GenerateContentResponse::decode_json(json).unwrap();
    assert_eq!(response.candidates.len(), 1);
    assert!(response.candidates[0].content.parts.is_empty());
    assert!(response.first_text().is_none());
}

#[test]
fn test_duplicate_keys_first_occurrence_wins() {
    // Object member order is kept and a lookup takes the first
    // occurrence of a key.
    let json = r#"{"candidates":[{"content":{"parts":[{"text":"first","text":"second"}]}}]}"#;
    let response: GenerateContentResponse<String> =
        GenerateContentResponse::decode_json(json).unwrap();
    assert_eq!(response.first_text(), Some(&"first".to_string()));
}

#[test]
fn test_part_slots_are_not_cross_validated() {
    // The shape does not enforce the one-slot rule: a part with two
    // populated slots is representable; keeping to one is the
    // caller's contract.
    let part: Part<String> = Part {
        text: Some(JsonString::new("hi".to_string())),
        inline_data: None,
        function_call: None,
        function_response: None,
        file_data: None,
        executable_code: Some(gemini::ExecutableCode {
            language: "python".to_string(),
            code: "print(1)".to_string(),
        }),
        code_execution_result: None,
        video_metadata: None,
    };
    assert!(part.has_text());
    assert!(part.executable_code.is_some());
}

#[test]
fn test_round_trip_largest_age() {
    let person = Person {
        name: "max".to_string(),
        age: u32::MAX,
    };
    let text = gemini::TypedText::encode(&person).unwrap();
    assert_eq!(text, r#"{"name":"max","age":4294967295}"#);
    let back = <Person as gemini::TypedText>::decode(&text).unwrap();
    assert_eq!(back.age, u32::MAX);

    // One past the largest representable value is rejected.
    assert!(<Person as gemini::TypedText>::decode(r#"{"name":"max","age":4294967296}"#).is_err());
}
