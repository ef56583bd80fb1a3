//! Tests of the client configuration.

use gemini::GeminiConfig;

#[test]
fn test_gemini_config_new() {
    let config = GeminiConfig::new("test-key".to_string(), "gemini-1.5-pro".to_string());
    assert_eq!(config.api_key(), "test-key");
    assert_eq!(config.model(), "gemini-1.5-pro");
    assert_eq!(
        config.base_url(),
        "https://generativelanguage.googleapis.com/v1beta"
    );
}

#[test]
fn test_gemini_config_debug_redacts_api_key() {
    let config = GeminiConfig::new(
        "super-secret-key-12345".to_string(),
        "gemini-1.5-flash".to_string(),
    );
    let debug_output = config.debug_string();

    // API key should be redacted
    assert!(!debug_output.contains("super-secret-key-12345"));
    assert!(debug_output.contains("[REDACTED]"));

    // Other fields should be visible
    assert!(debug_output.contains("gemini-1.5-flash"));
    assert!(debug_output.contains("generativelanguage.googleapis.com"));
}

#[test]
fn test_build_generate_url() {
    let config = GeminiConfig::new("test-key".to_string(), "gemini-2.5-flash".to_string());

    let url = config.build_generate_url();
    assert_eq!(
        url,
        "https://generativelanguage.googleapis.com/v1beta/models/gemini-2.5-flash:generateContent"
    );
}

#[test]
fn test_build_stream_url() {
    let config = GeminiConfig::new("test-key".to_string(), "gemini-1.5-pro".to_string());

    let url = config.build_stream_url();
    assert_eq!(
        url,
        "https://generativelanguage.googleapis.com/v1beta/models/gemini-1.5-pro:streamGenerateContent?alt=sse"
    );
}
