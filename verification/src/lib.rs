//! A typed request/response envelope layer for a generative-AI HTTP API.
//!
//! The crate defines the data transfer shapes of the API, a generic
//! "expected response type" mechanism that lets a caller receive
//! strongly-typed structured data instead of raw text, and a validated
//! builder for generation configuration.  All of the encoding and
//! decoding logic is verified; the network transport itself lives
//! outside this crate.

pub mod codec;
pub mod config;
pub mod content;
pub mod json;
pub mod json_laws;
pub mod json_parse;
pub mod json_text;
pub mod numeral;
pub mod records;
pub mod request;
pub mod response;
pub mod strutil;
pub mod wire;

pub use codec::{CodecError, TypedText};
pub use config::GeminiConfig;
pub use content::{
    Blob, CodeExecutionResult, Content, ExecutableCode, FileData, FunctionCall, FunctionResponse,
    JsonString, Part, Role, VideoMetadata,
};
pub use json::{JsonNumber, JsonValue};
pub use records::{KeyValue, Person};
pub use request::{
    BuildError, GenerateContentRequest, GenerationConfig, GenerationConfigBuilder, MimeType,
    ResponseMimeType, SafetyRating, SafetySetting,
};
pub use response::{Candidate, GenerateContentResponse, PromptFeedback, UsageMetadata};
