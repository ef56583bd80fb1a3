//! Tests of the configuration builder: setters, schema slots, the
//! build-time validation rule, and request serialization.

use gemini::{
    BuildError, Content, GenerateContentRequest, GenerationConfig, GenerationConfigBuilder,
    JsonNumber, JsonString, JsonValue, Part, Person, ResponseMimeType,
};

fn num(token: &str) -> JsonNumber {
    JsonNumber::from_string(token.to_string()).unwrap()
}

fn tiny_schema() -> JsonValue {
    JsonValue::Obj(vec![
        ("type".to_string(), JsonValue::Str("object".to_string())),
        (
            "properties".to_string(),
            JsonValue::Obj(vec![
                (
                    "name".to_string(),
                    JsonValue::Obj(vec![(
                        "type".to_string(),
                        JsonValue::Str("string".to_string()),
                    )]),
                ),
                (
                    "age".to_string(),
                    JsonValue::Obj(vec![(
                        "type".to_string(),
                        JsonValue::Str("integer".to_string()),
                    )]),
                ),
            ]),
        ),
    ])
}

fn text_part(text: &str) -> Part<String> {
    Part {
        text: Some(JsonString::new(text.to_string())),
        inline_data: None,
        function_call: None,
        function_response: None,
        file_data: None,
        executable_code: None,
        code_execution_result: None,
        video_metadata: None,
    }
}

#[test]
fn test_generation_config_builder_basic() {
    let config: GenerationConfig<String> = GenerationConfig::builder()
        .temperature(num("0.7"))
        .max_output_tokens(1024)
        .build()
        .unwrap();

    assert_eq!(config.core.temperature.as_ref().unwrap().as_str(), "0.7");
    assert_eq!(config.core.max_output_tokens, Some(1024));
    assert!(config.core.response_mime_type.is_none());
}

#[test]
fn test_generation_config_builder_json_response() {
    let config: GenerationConfig<Person> = GenerationConfig::<Person>::builder()
        .response_schema::<Person>(tiny_schema())
        .temperature(num("0.5"))
        .build()
        .unwrap();

    assert_eq!(
        config.core.response_mime_type,
        Some(ResponseMimeType::ApplicationJson)
    );
    assert!(config.response_schema().is_some());
    assert_eq!(config.core.temperature.as_ref().unwrap().as_str(), "0.5");
}

#[test]
fn test_generation_config_builder_stop_sequences() {
    let config: GenerationConfig<String> = GenerationConfig::builder()
        .add_stop_sequence("END".to_string())
        .add_stop_sequence("STOP".to_string())
        .build()
        .unwrap();

    assert_eq!(
        config.core.stop_sequences,
        Some(vec!["END".to_string(), "STOP".to_string()])
    );
}

#[test]
fn test_generation_config_builder_full() {
    let config: GenerationConfig<String> = GenerationConfig::builder()
        .temperature(num("0.9"))
        .max_output_tokens(2048)
        .top_p(num("0.95"))
        .top_k(40)
        .seed(12345)
        .presence_penalty(num("0.5"))
        .frequency_penalty(num("0.3"))
        .candidate_count(3)
        .response_logprobs(true)
        .logprobs(5)
        .add_stop_sequence("END".to_string())
        .build()
        .unwrap();

    assert_eq!(config.core.temperature.as_ref().unwrap().as_str(), "0.9");
    assert_eq!(config.core.max_output_tokens, Some(2048));
    assert_eq!(config.core.top_p.as_ref().unwrap().as_str(), "0.95");
    assert_eq!(config.core.top_k, Some(40));
    assert_eq!(config.core.seed, Some(12345));
    assert_eq!(config.core.presence_penalty.as_ref().unwrap().as_str(), "0.5");
    assert_eq!(config.core.frequency_penalty.as_ref().unwrap().as_str(), "0.3");
    assert_eq!(config.core.candidate_count, Some(3));
    assert_eq!(config.core.response_logprobs, Some(true));
    assert_eq!(config.core.logprobs, Some(5));
    assert_eq!(config.core.stop_sequences, Some(vec!["END".to_string()]));
    assert!(config.core.response_mime_type.is_none());
}

#[test]
fn test_generation_config_builder_modalities() {
    let config: GenerationConfig<String> = GenerationConfig::builder()
        .add_response_modality("TEXT".to_string())
        .add_response_modality("IMAGE".to_string())
        .build()
        .unwrap();

    assert_eq!(
        config.core.response_modalities,
        Some(vec!["TEXT".to_string(), "IMAGE".to_string()])
    );
}

#[test]
fn test_generation_config_default() {
    let config: GenerationConfig<String> = GenerationConfig::default();

    assert!(config.core.temperature.is_none());
    assert!(config.core.max_output_tokens.is_none());
    assert!(config.core.response_mime_type.is_none());
}

#[test]
fn test_generation_config_serialization() {
    let config: GenerationConfig<Person> = GenerationConfig::<Person>::builder()
        .temperature(num("0.7"))
        .max_output_tokens(1024)
        .response_schema::<Person>(tiny_schema())
        .build()
        .unwrap();

    let request: GenerateContentRequest<Person> = GenerateContentRequest {
        contents: vec![],
        generation_config: Some(config),
        system_instruction: None,
        safety_settings: None,
    };

    let json = request.to_json();
    assert!(json.contains("temperature"));
    assert!(json.contains("maxOutputTokens")); // camelCase check
    assert!(json.contains("responseMimeType")); // camelCase check
}

#[test]
fn test_response_mime_type_enum_serialization() {
    let wire = |config: GenerationConfig<String>| -> String {
        let request: GenerateContentRequest<String> = GenerateContentRequest {
            contents: vec![],
            generation_config: Some(config),
            system_instruction: None,
            safety_settings: None,
        };
        request.to_json()
    };

    // Plain text
    let config: GenerationConfig<String> =
        GenerationConfig::builder().text_response().build().unwrap();
    assert!(wire(config).contains("\"text/plain\""));

    // Structured JSON (forced by attaching a schema)
    let config: GenerationConfig<String> = GenerationConfig::<String>::builder()
        .response_json_schema::<String>(tiny_schema())
        .build()
        .unwrap();
    assert!(wire(config).contains("\"application/json\""));

    // Enumeration output
    let config: GenerationConfig<String> =
        GenerationConfig::builder().enum_response().build().unwrap();
    assert!(wire(config).contains("\"text/x.enum\""));
}

#[test]
fn test_schema_auto_sets_mime_type() {
    let config: GenerationConfig<Person> = GenerationConfig::<Person>::builder()
        .response_schema::<Person>(tiny_schema())
        .build()
        .unwrap();
    assert_eq!(
        config.core.response_mime_type,
        Some(ResponseMimeType::ApplicationJson)
    );

    let config2: GenerationConfig<Person> = GenerationConfig::<Person>::builder()
        .response_json_schema::<Person>(tiny_schema())
        .build()
        .unwrap();
    assert_eq!(
        config2.core.response_mime_type,
        Some(ResponseMimeType::ApplicationJson)
    );
}

#[test]
fn test_schema_mutual_exclusivity() {
    // Attaching the JSON-Schema format after the OpenAPI format
    // clears the OpenAPI slot.
    let config: GenerationConfig<Person> = GenerationConfig::<String>::builder()
        .response_schema::<String>(tiny_schema())
        .response_json_schema::<Person>(tiny_schema())
        .build()
        .unwrap();

    assert!(config.response_schema().is_none());
    assert!(config.response_json_schema().is_some());
    assert_eq!(
        config.core.response_mime_type,
        Some(ResponseMimeType::ApplicationJson)
    );

    // And the other way round.
    let config2: GenerationConfig<Person> = GenerationConfig::<String>::builder()
        .response_json_schema::<String>(tiny_schema())
        .response_schema::<Person>(tiny_schema())
        .build()
        .unwrap();

    assert!(config2.response_json_schema().is_none());
    assert!(config2.response_schema().is_some());
    assert_eq!(
        config2.core.response_mime_type,
        Some(ResponseMimeType::ApplicationJson)
    );
}

#[test]
fn test_response_mime_type_default() {
    let default_mime = ResponseMimeType::default();
    assert_eq!(default_mime, ResponseMimeType::TextPlain);
}

#[test]
fn test_typed_response_config() {
    let config: GenerationConfig<Person> = GenerationConfig::<Person>::builder()
        .response_json_schema::<Person>(tiny_schema())
        .temperature(num("0.7"))
        .build()
        .unwrap();

    assert!(config.response_json_schema().is_some());
    assert_eq!(config.core.temperature.as_ref().unwrap().as_str(), "0.7");

    let _request: GenerateContentRequest<Person> = GenerateContentRequest {
        contents: vec![],
        generation_config: Some(config),
        system_instruction: None,
        safety_settings: None,
    };
}

#[test]
fn test_build_validates_string_type_allows_no_schema() {
    // The plain-text type should not require a schema.
    let result = GenerationConfig::<String>::builder()
        .temperature(num("0.7"))
        .build();

    assert!(result.is_ok());
}

#[test]
fn test_build_validates_typed_response_requires_schema() {
    // A typed response without a schema should fail.
    let result = GenerationConfig::<Person>::builder()
        .temperature(num("0.7"))
        .build();

    assert!(result.is_err());
    assert_eq!(
        result.unwrap_err(),
        BuildError::SchemaRequiredForTypedResponse
    );

    // A typed response with a schema should succeed.
    let result = GenerationConfig::<Person>::builder()
        .response_schema::<Person>(tiny_schema())
        .temperature(num("0.7"))
        .build();

    assert!(result.is_ok());
}

#[test]
fn test_build_validates_typed_response_requires_json_schema() {
    let result = GenerationConfig::<Person>::builder()
        .temperature(num("0.7"))
        .build();

    assert!(result.is_err());
    assert_eq!(
        result.unwrap_err(),
        BuildError::SchemaRequiredForTypedResponse
    );

    let result = GenerationConfig::<Person>::builder()
        .response_json_schema::<Person>(tiny_schema())
        .temperature(num("0.7"))
        .build();

    assert!(result.is_ok());
}

#[test]
fn test_build_error_display() {
    let error = BuildError::SchemaRequiredForTypedResponse;
    let error_msg = error.message();
    assert!(error_msg.contains("response schema must be provided"));
    assert!(error_msg.contains("typed responses"));
}

#[test]
fn test_generate_content_request_serialization() {
    let request: GenerateContentRequest<String> = GenerateContentRequest {
        contents: vec![Content {
            parts: vec![text_part("Hello, world!")],
            role: None,
        }],
        generation_config: None,
        system_instruction: None,
        safety_settings: None,
    };

    let json = request.to_json();
    assert!(json.contains("Hello, world!"));
}

#[test]
fn test_typed_request_creation_with_json_schema() {
    let config = GenerationConfigBuilder::<String>::new()
        .response_json_schema::<Person>(tiny_schema())
        .temperature(num("0.7"))
        .build()
        .unwrap();

    let request: GenerateContentRequest<Person> = GenerateContentRequest {
        contents: vec![Content {
            parts: vec![text_part("Create a character")],
            role: None,
        }],
        generation_config: Some(config),
        system_instruction: None,
        safety_settings: None,
    };

    let json = request.to_json();
    assert!(json.contains("responseJsonSchema"));
    assert!(json.contains("application/json"));
}

#[test]
fn test_typed_request_creation_with_openapi_schema() {
    let config = GenerationConfigBuilder::<String>::new()
        .response_schema::<Person>(tiny_schema())
        .temperature(num("0.5"))
        .build()
        .unwrap();

    let request: GenerateContentRequest<Person> = GenerateContentRequest {
        contents: vec![Content {
            parts: vec![text_part("Create an item")],
            role: None,
        }],
        generation_config: Some(config),
        system_instruction: None,
        safety_settings: None,
    };

    let json = request.to_json();
    assert!(json.contains("responseSchema"));
    assert!(json.contains("application/json"));
}

#[test]
fn test_request_wire_form_exact() {
    let request: GenerateContentRequest<String> = GenerateContentRequest {
        contents: vec![Content {
            parts: vec![text_part("hi")],
            role: Some(gemini::Role::User),
        }],
        generation_config: Some(
            GenerationConfig::<String>::builder()
                .temperature(num("0.5"))
                .top_k(4)
                .build()
                .unwrap(),
        ),
        system_instruction: None,
        safety_settings: None,
    };

    assert_eq!(
        request.to_json(),
        r#"{"contents":[{"role":"user","parts":[{"text":"hi"}]}],"generationConfig":{"temperature":0.5,"topK":4}}"#
    );
}

#[test]
fn test_multiple_typed_schemas() {
    // Different typed requests can carry different schemas.
    let person_config = GenerationConfigBuilder::<String>::new()
        .response_json_schema::<Person>(tiny_schema())
        .build()
        .unwrap();

    let kv_config = GenerationConfigBuilder::<String>::new()
        .response_json_schema::<gemini::KeyValue>(tiny_schema())
        .build()
        .unwrap();

    let wire = |config: GenerationConfig<Person>| -> String {
        GenerateContentRequest {
            contents: vec![],
            generation_config: Some(config),
            system_instruction: None,
            safety_settings: None,
        }
        .to_json()
    };
    let kv_wire = GenerateContentRequest {
        contents: vec![],
        generation_config: Some(kv_config),
        system_instruction: None,
        safety_settings: None,
    }
    .to_json();

    assert!(wire(person_config).contains("responseJsonSchema"));
    assert!(kv_wire.contains("responseJsonSchema"));
}

#[test]
fn test_multiple_openapi_schemas() {
    let first_config = GenerationConfigBuilder::<String>::new()
        .response_schema::<Person>(tiny_schema())
        .build()
        .unwrap();

    let second_config = GenerationConfigBuilder::<String>::new()
        .response_schema::<gemini::KeyValue>(tiny_schema())
        .build()
        .unwrap();

    let first_wire = GenerateContentRequest {
        contents: vec![],
        generation_config: Some(first_config),
        system_instruction: None,
        safety_settings: None,
    }
    .to_json();
    let second_wire = GenerateContentRequest {
        contents: vec![],
        generation_config: Some(second_config),
        system_instruction: None,
        safety_settings: None,
    }
    .to_json();

    assert!(first_wire.contains("responseSchema"));
    assert!(second_wire.contains("responseSchema"));
}

#[test]
fn test_schema_document_wire_form() {
    assert_eq!(
        Person::schema_document().to_text(),
        r#"{"type":"object","properties":{"name":{"type":"string"},"age":{"type":"integer"}},"required":["name","age"]}"#
    );
    assert_eq!(
        gemini::KeyValue::schema_document().to_text(),
        r#"{"type":"object","properties":{"key":{"type":"string"},"value":{"type":"integer"}},"required":["key","value"]}"#
    );
}

#[test]
fn test_builder_with_schema_document() {
    let config: GenerationConfig<Person> = GenerationConfig::<Person>::builder()
        .response_json_schema::<Person>(Person::schema_document())
        .build()
        .unwrap();
    assert!(config.response_json_schema().is_some());
    assert_eq!(
        config.core.response_mime_type,
        Some(ResponseMimeType::ApplicationJson)
    );
}

#[test]
fn test_builder_auxiliary_configs_serialize() {
    let config: GenerationConfig<String> = GenerationConfig::builder()
        .stop_sequences(vec!["A".to_string(), "B".to_string()])
        .response_modalities(vec!["TEXT".to_string()])
        .speech_config(JsonValue::Obj(vec![]))
        .thinking_config(JsonValue::Obj(vec![]))
        .image_config(JsonValue::Obj(vec![]))
        .media_resolution("MEDIA_RESOLUTION_HIGH".to_string())
        .enable_enhanced_civic_answers(true)
        .build()
        .unwrap();

    let json = GenerateContentRequest {
        contents: vec![],
        generation_config: Some(config),
        system_instruction: None,
        safety_settings: None,
    }
    .to_json();

    assert!(json.contains("stopSequences"));
    assert!(json.contains("responseModalities"));
    assert!(json.contains("speechConfig"));
    assert!(json.contains("thinkingConfig"));
    assert!(json.contains("imageConfig"));
    assert!(json.contains("mediaResolution"));
    assert!(json.contains("enableEnhancedCivicAnswers"));
}

#[test]
fn test_request_with_system_instruction_and_safety() {
    let request: GenerateContentRequest<String> = GenerateContentRequest {
        contents: vec![Content {
            parts: vec![text_part("question")],
            role: Some(gemini::Role::User),
        }],
        generation_config: None,
        system_instruction: Some(Content {
            parts: vec![text_part("be brief")],
            role: None,
        }),
        safety_settings: Some(vec![gemini::SafetySetting {
            category: "HARM_CATEGORY_HARASSMENT".to_string(),
            threshold: "BLOCK_NONE".to_string(),
        }]),
    };

    assert_eq!(
        request.to_json(),
        r#"{"contents":[{"role":"user","parts":[{"text":"question"}]}],"systemInstruction":{"parts":[{"text":"be brief"}]},"safetySettings":[{"category":"HARM_CATEGORY_HARASSMENT","threshold":"BLOCK_NONE"}]}"#
    );
}
