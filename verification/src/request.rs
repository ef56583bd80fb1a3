//! Request shapes: generation configuration, its validated builder,
//! and the request envelope.
//!
//! The builder is generic over the expected response type `T`.  The
//! two schema formats are mutually exclusive by construction: they
//! share one slot, and attaching either clears the other.  Building
//! fails for a non-plain-text `T` without a schema.

use core::marker::PhantomData;
use vstd::prelude::*;

use crate::codec::TypedText;
use crate::content::Content;
use crate::json::{JsonNumber, JsonValue};

verus! {

/// Why a configuration could not be built.
#[derive(Debug, Clone, Copy, PartialEq, Eq, Structural)]
pub enum BuildError {
    /// A schema must be provided when the expected response type is
    /// not plain text.
    SchemaRequiredForTypedResponse,
}

impl BuildError {
    /// A description of the error.
    pub fn message(&self) -> (r: &'static str)
        ensures
            r@ == "A response schema must be provided when using typed responses. Use .response_schema() or .response_json_schema() to specify the expected structure."@,
    {
        "A response schema must be provided when using typed responses. Use .response_schema() or .response_json_schema() to specify the expected structure."
    }
}

/// MIME types a response can be requested in.
#[derive(Debug, Clone, Copy, PartialEq, Eq, Structural)]
pub enum ResponseMimeType {
    TextPlain,
    ApplicationJson,
    TextEnum,
}

impl Default for ResponseMimeType {
    /// Plain text is the default.
    fn default() -> (r: ResponseMimeType)
        ensures
            r == ResponseMimeType::TextPlain,
    {
        ResponseMimeType::TextPlain
    }
}

/// The wire name of a response MIME type.
pub open spec fn response_mime_name(m: ResponseMimeType) -> Seq<char> {
    match m {
        ResponseMimeType::TextPlain => "text/plain"@,
        ResponseMimeType::ApplicationJson => "application/json"@,
        ResponseMimeType::TextEnum => "text/x.enum"@,
    }
}

impl ResponseMimeType {
    /// The wire name of this response MIME type.
    pub fn wire_name(&self) -> (r: &'static str)
        ensures
            r@ == response_mime_name(*self),
    {
        match self {
            ResponseMimeType::TextPlain => "text/plain",
            ResponseMimeType::ApplicationJson => "application/json",
            ResponseMimeType::TextEnum => "text/x.enum",
        }
    }
}

/// MIME types of media content.
#[derive(Debug, Clone, Copy, PartialEq, Eq, Structural)]
pub enum MimeType {
    ImagePng,
    ImageJpeg,
    ImageWebp,
    ImageHeic,
    ImageHeif,
    AudioWav,
    AudioMp3,
    AudioMpeg,
    AudioAiff,
    AudioAac,
    AudioOgg,
    AudioFlac,
    VideoMp4,
    VideoMpeg,
    VideoMov,
    VideoAvi,
    VideoFlv,
    VideoMpg,
    VideoWebm,
    VideoWmv,
    Video3gpp,
    ApplicationPdf,
    TextPlain,
    TextHtml,
    TextCss,
    TextJavascript,
    ApplicationJavascript,
    TextTypescript,
    ApplicationTypescript,
    TextCsv,
    TextMarkdown,
    TextPython,
    ApplicationPythonCode,
    ApplicationJson,
    TextXml,
    ApplicationRtf,
    TextRtf,
}

/// The wire name of a media MIME type.
pub open spec fn mime_name(m: MimeType) -> Seq<char> {
    match m {
        MimeType::ImagePng => "image/png"@,
        MimeType::ImageJpeg => "image/jpeg"@,
        MimeType::ImageWebp => "image/webp"@,
        MimeType::ImageHeic => "image/heic"@,
        MimeType::ImageHeif => "image/heif"@,
        MimeType::AudioWav => "audio/wav"@,
        MimeType::AudioMp3 => "audio/mp3"@,
        MimeType::AudioMpeg => "audio/mpeg"@,
        MimeType::AudioAiff => "audio/aiff"@,
        MimeType::AudioAac => "audio/aac"@,
        MimeType::AudioOgg => "audio/ogg"@,
        MimeType::AudioFlac => "audio/flac"@,
        MimeType::VideoMp4 => "video/mp4"@,
        MimeType::VideoMpeg => "video/mpeg"@,
        MimeType::VideoMov => "video/mov"@,
        MimeType::VideoAvi => "video/avi"@,
        MimeType::VideoFlv => "video/x-flv"@,
        MimeType::VideoMpg => "video/mpg"@,
        MimeType::VideoWebm => "video/webm"@,
        MimeType::VideoWmv => "video/wmv"@,
        MimeType::Video3gpp => "video/3gpp"@,
        MimeType::ApplicationPdf => "application/pdf"@,
        MimeType::TextPlain => "text/plain"@,
        MimeType::TextHtml => "text/html"@,
        MimeType::TextCss => "text/css"@,
        MimeType::TextJavascript => "text/javascript"@,
        MimeType::ApplicationJavascript => "application/x-javascript"@,
        MimeType::TextTypescript => "text/x-typescript"@,
        MimeType::ApplicationTypescript => "application/x-typescript"@,
        MimeType::TextCsv => "text/csv"@,
        MimeType::TextMarkdown => "text/markdown"@,
        MimeType::TextPython => "text/x-python"@,
        MimeType::ApplicationPythonCode => "application/x-python-code"@,
        MimeType::ApplicationJson => "application/json"@,
        MimeType::TextXml => "text/xml"@,
        MimeType::ApplicationRtf => "application/rtf"@,
        MimeType::TextRtf => "text/rtf"@,
    }
}

impl MimeType {
    /// The wire name of this MIME type.
    pub fn wire_name(&self) -> (r: &'static str)
        ensures
            r@ == mime_name(*self),
    {
        match self {
            MimeType::ImagePng => "image/png",
            MimeType::ImageJpeg => "image/jpeg",
            MimeType::ImageWebp => "image/webp",
            MimeType::ImageHeic => "image/heic",
            MimeType::ImageHeif => "image/heif",
            MimeType::AudioWav => "audio/wav",
            MimeType::AudioMp3 => "audio/mp3",
            MimeType::AudioMpeg => "audio/mpeg",
            MimeType::AudioAiff => "audio/aiff",
            MimeType::AudioAac => "audio/aac",
            MimeType::AudioOgg => "audio/ogg",
            MimeType::AudioFlac => "audio/flac",
            MimeType::VideoMp4 => "video/mp4",
            MimeType::VideoMpeg => "video/mpeg",
            MimeType::VideoMov => "video/mov",
            MimeType::VideoAvi => "video/avi",
            MimeType::VideoFlv => "video/x-flv",
            MimeType::VideoMpg => "video/mpg",
            MimeType::VideoWebm => "video/webm",
            MimeType::VideoWmv => "video/wmv",
            MimeType::Video3gpp => "video/3gpp",
            MimeType::ApplicationPdf => "application/pdf",
            MimeType::TextPlain => "text/plain",
            MimeType::TextHtml => "text/html",
            MimeType::TextCss => "text/css",
            MimeType::TextJavascript => "text/javascript",
            MimeType::ApplicationJavascript => "application/x-javascript",
            MimeType::TextTypescript => "text/x-typescript",
            MimeType::ApplicationTypescript => "application/x-typescript",
            MimeType::TextCsv => "text/csv",
            MimeType::TextMarkdown => "text/markdown",
            MimeType::TextPython => "text/x-python",
            MimeType::ApplicationPythonCode => "application/x-python-code",
            MimeType::ApplicationJson => "application/json",
            MimeType::TextXml => "text/xml",
            MimeType::ApplicationRtf => "application/rtf",
            MimeType::TextRtf => "text/rtf",
        }
    }
}

/// A safety setting of a request.
#[derive(Debug)]
pub struct SafetySetting {
    pub category: String,
    pub threshold: String,
}

/// Abstract value of a [`SafetySetting`].
pub ghost struct SafetySettingView {
    pub category: Seq<char>,
    pub threshold: Seq<char>,
}

impl View for SafetySetting {
    type V = SafetySettingView;

    open spec fn view(&self) -> SafetySettingView {
        SafetySettingView { category: self.category@, threshold: self.threshold@ }
    }
}

/// A safety rating of produced content.
#[derive(Debug)]
pub struct SafetyRating {
    pub category: String,
    pub probability: String,
    pub blocked: bool,
}

/// Abstract value of a [`SafetyRating`].
pub ghost struct SafetyRatingView {
    pub category: Seq<char>,
    pub probability: Seq<char>,
    pub blocked: bool,
}

impl View for SafetyRating {
    type V = SafetyRatingView;

    open spec fn view(&self) -> SafetyRatingView {
        SafetyRatingView {
            category: self.category@,
            probability: self.probability@,
            blocked: self.blocked,
        }
    }
}

/// The schema slot of a configuration.  The two formats share the
/// slot, so at most one of them can ever be attached.
#[derive(Debug)]
pub enum SchemaSlot {
    /// No schema attached.
    NoSchema,
    /// A schema in the API-native, OpenAPI-flavoured format.
    OpenApi(JsonValue),
    /// A schema in the general JSON Schema format.
    JsonSchema(JsonValue),
}

/// The OpenAPI-format schema held in a slot, if any.
pub open spec fn openapi_schema_of(s: SchemaSlot) -> Option<JsonValue> {
    match s {
        SchemaSlot::OpenApi(v) => Some(v),
        _ => None,
    }
}

/// The JSON-Schema-format schema held in a slot, if any.
pub open spec fn json_schema_of(s: SchemaSlot) -> Option<JsonValue> {
    match s {
        SchemaSlot::JsonSchema(v) => Some(v),
        _ => None,
    }
}

/// The tuning knobs of a configuration, without the response-type
/// marker.  Decimal-valued knobs hold JSON number tokens.
#[derive(Debug)]
pub struct GenerationConfigCore {
    pub stop_sequences: Option<Vec<String>>,
    pub response_mime_type: Option<ResponseMimeType>,
    pub schema: SchemaSlot,
    pub response_modalities: Option<Vec<String>>,
    pub candidate_count: Option<i32>,
    pub max_output_tokens: Option<i32>,
    pub temperature: Option<JsonNumber>,
    pub top_p: Option<JsonNumber>,
    pub top_k: Option<i32>,
    pub seed: Option<i32>,
    pub presence_penalty: Option<JsonNumber>,
    pub frequency_penalty: Option<JsonNumber>,
    pub response_logprobs: Option<bool>,
    pub logprobs: Option<i32>,
    pub enable_enhanced_civic_answers: Option<bool>,
    pub speech_config: Option<JsonValue>,
    pub thinking_config: Option<JsonValue>,
    pub image_config: Option<JsonValue>,
    pub media_resolution: Option<String>,
}

/// A core with nothing set.
pub open spec fn default_core() -> GenerationConfigCore {
    GenerationConfigCore {
        stop_sequences: None,
        response_mime_type: None,
        schema: SchemaSlot::NoSchema,
        response_modalities: None,
        candidate_count: None,
        max_output_tokens: None,
        temperature: None,
        top_p: None,
        top_k: None,
        seed: None,
        presence_penalty: None,
        frequency_penalty: None,
        response_logprobs: None,
        logprobs: None,
        enable_enhanced_civic_answers: None,
        speech_config: None,
        thinking_config: None,
        image_config: None,
        media_resolution: None,
    }
}

/// Attaching an OpenAPI-format schema: it takes the slot, whatever
/// was there, and forces the structured output MIME type.
pub open spec fn attach_openapi(c: GenerationConfigCore, schema: JsonValue) -> GenerationConfigCore {
    GenerationConfigCore {
        schema: SchemaSlot::OpenApi(schema),
        response_mime_type: Some(ResponseMimeType::ApplicationJson),
        ..c
    }
}

/// Attaching a JSON-Schema-format schema: it takes the slot,
/// whatever was there, and forces the structured output MIME type.
pub open spec fn attach_json_schema(
    c: GenerationConfigCore,
    schema: JsonValue,
) -> GenerationConfigCore {
    GenerationConfigCore {
        schema: SchemaSlot::JsonSchema(schema),
        response_mime_type: Some(ResponseMimeType::ApplicationJson),
        ..c
    }
}

/// Whether building succeeds, given whether the expected response
/// type is plain text and what the schema slot holds.
pub open spec fn build_outcome(plain: bool, schema: SchemaSlot) -> Result<(), BuildError> {
    if plain || !(schema is NoSchema) {
        Ok(())
    } else {
        Err(BuildError::SchemaRequiredForTypedResponse)
    }
}

/// An immutable configuration snapshot, tagged with the expected
/// response type.
#[derive(Debug)]
pub struct GenerationConfig<T = String> {
    pub _response_type: PhantomData<T>,
    pub core: GenerationConfigCore,
}

impl<T> GenerationConfig<T> {
    /// Creates a builder.
    pub fn builder() -> (r: GenerationConfigBuilder<T>)
        ensures
            r.core == default_core(),
    {
        GenerationConfigBuilder::new()
    }

    /// The attached OpenAPI-format schema, if any.
    pub fn response_schema(&self) -> (r: Option<&JsonValue>)
        ensures
            match r {
                Some(v) => openapi_schema_of(self.core.schema) == Some(*v),
                None => openapi_schema_of(self.core.schema) is None,
            },
    {
        match &self.core.schema {
            SchemaSlot::OpenApi(v) => Some(v),
            _ => None,
        }
    }

    /// The attached JSON-Schema-format schema, if any.
    pub fn response_json_schema(&self) -> (r: Option<&JsonValue>)
        ensures
            match r {
                Some(v) => json_schema_of(self.core.schema) == Some(*v),
                None => json_schema_of(self.core.schema) is None,
            },
    {
        match &self.core.schema {
            SchemaSlot::JsonSchema(v) => Some(v),
            _ => None,
        }
    }
}

impl<T> Default for GenerationConfig<T> {
    /// A configuration with nothing set.
    fn default() -> (r: GenerationConfig<T>)
        ensures
            r.core == default_core(),
    {
        GenerationConfig { _response_type: PhantomData, core: exec_default_core() }
    }
}

/// Builds the default core.
fn exec_default_core() -> (r: GenerationConfigCore)
    ensures
        r == default_core(),
{
    GenerationConfigCore {
        stop_sequences: None,
        response_mime_type: None,
        schema: SchemaSlot::NoSchema,
        response_modalities: None,
        candidate_count: None,
        max_output_tokens: None,
        temperature: None,
        top_p: None,
        top_k: None,
        seed: None,
        presence_penalty: None,
        frequency_penalty: None,
        response_logprobs: None,
        logprobs: None,
        enable_enhanced_civic_answers: None,
        speech_config: None,
        thinking_config: None,
        image_config: None,
        media_resolution: None,
    }
}

/// A staged builder for [`GenerationConfig`], generic over the
/// expected response type.
#[derive(Debug)]
pub struct GenerationConfigBuilder<T = String> {
    pub _response_type: PhantomData<T>,
    pub core: GenerationConfigCore,
}

impl<T> Default for GenerationConfigBuilder<T> {
    /// A builder with nothing set.
    fn default() -> (r: GenerationConfigBuilder<T>)
        ensures
            r.core == default_core(),
    {
        GenerationConfigBuilder { _response_type: PhantomData, core: exec_default_core() }
    }
}

impl<T> GenerationConfigBuilder<T> {
    /// A builder with nothing set.
    pub fn new() -> (r: GenerationConfigBuilder<T>)
        ensures
            r.core == default_core(),
    {
        GenerationConfigBuilder { _response_type: PhantomData, core: exec_default_core() }
    }

    /// Sets the stop sequences.
    pub fn stop_sequences(self, sequences: Vec<String>) -> (r: GenerationConfigBuilder<T>)
        ensures
            r.core == (GenerationConfigCore { stop_sequences: Some(sequences), ..self.core }),
    {
        GenerationConfigBuilder {
            _response_type: PhantomData,
            core: GenerationConfigCore { stop_sequences: Some(sequences), ..self.core },
        }
    }

    /// Adds one stop sequence.
    pub fn add_stop_sequence(self, sequence: String) -> (r: GenerationConfigBuilder<T>)
        ensures
            (r.core.stop_sequences matches Some(ss) && ss@ == (match self.core.stop_sequences {
                Some(old_ss) => old_ss@,
                None => Seq::<String>::empty(),
            }).push(sequence)),
            r.core == (GenerationConfigCore {
                stop_sequences: r.core.stop_sequences,
                ..self.core
            }),
    {
        let mut ss = match self.core.stop_sequences {
            Some(v) => v,
            None => Vec::new(),
        };
        ss.push(sequence);
        GenerationConfigBuilder {
            _response_type: PhantomData,
            core: GenerationConfigCore { stop_sequences: Some(ss), ..self.core },
        }
    }

    /// Attaches an OpenAPI-format schema for the response type `R`,
    /// clearing any JSON-Schema-format schema and forcing structured
    /// output.  The builder's expected response type becomes `R`.
    pub fn response_schema<R>(self, schema: JsonValue) -> (r: GenerationConfigBuilder<R>)
        ensures
            r.core == attach_openapi(self.core, schema),
    {
        GenerationConfigBuilder {
            _response_type: PhantomData,
            core: GenerationConfigCore {
                schema: SchemaSlot::OpenApi(schema),
                response_mime_type: Some(ResponseMimeType::ApplicationJson),
                ..self.core
            },
        }
    }

    /// Attaches a JSON-Schema-format schema for the response type
    /// `R`, clearing any OpenAPI-format schema and forcing structured
    /// output.  The builder's expected response type becomes `R`.
    pub fn response_json_schema<R>(self, schema: JsonValue) -> (r: GenerationConfigBuilder<R>)
        ensures
            r.core == attach_json_schema(self.core, schema),
    {
        GenerationConfigBuilder {
            _response_type: PhantomData,
            core: GenerationConfigCore {
                schema: SchemaSlot::JsonSchema(schema),
                response_mime_type: Some(ResponseMimeType::ApplicationJson),
                ..self.core
            },
        }
    }

    /// Sets the response modalities.
    pub fn response_modalities(self, modalities: Vec<String>) -> (r: GenerationConfigBuilder<T>)
        ensures
            r.core == (GenerationConfigCore {
                response_modalities: Some(modalities),
                ..self.core
            }),
    {
        GenerationConfigBuilder {
            _response_type: PhantomData,
            core: GenerationConfigCore { response_modalities: Some(modalities), ..self.core },
        }
    }

    /// Adds one response modality.
    pub fn add_response_modality(self, modality: String) -> (r: GenerationConfigBuilder<T>)
        ensures
            (r.core.response_modalities matches Some(ms) && ms@ == (match self
                .core
                .response_modalities {
                Some(old_ms) => old_ms@,
                None => Seq::<String>::empty(),
            }).push(modality)),
            r.core == (GenerationConfigCore {
                response_modalities: r.core.response_modalities,
                ..self.core
            }),
    {
        let mut ms = match self.core.response_modalities {
            Some(v) => v,
            None => Vec::new(),
        };
        ms.push(modality);
        GenerationConfigBuilder {
            _response_type: PhantomData,
            core: GenerationConfigCore { response_modalities: Some(ms), ..self.core },
        }
    }

    /// Sets the number of candidates to generate.
    pub fn candidate_count(self, count: i32) -> (r: GenerationConfigBuilder<T>)
        ensures
            r.core == (GenerationConfigCore { candidate_count: Some(count), ..self.core }),
    {
        GenerationConfigBuilder {
            _response_type: PhantomData,
            core: GenerationConfigCore { candidate_count: Some(count), ..self.core },
        }
    }

    /// Sets the output token limit.
    pub fn max_output_tokens(self, tokens: i32) -> (r: GenerationConfigBuilder<T>)
        ensures
            r.core == (GenerationConfigCore { max_output_tokens: Some(tokens), ..self.core }),
    {
        GenerationConfigBuilder {
            _response_type: PhantomData,
            core: GenerationConfigCore { max_output_tokens: Some(tokens), ..self.core },
        }
    }

    /// Sets the sampling temperature, as a decimal number token.
    pub fn temperature(self, temp: JsonNumber) -> (r: GenerationConfigBuilder<T>)
        ensures
            r.core == (GenerationConfigCore { temperature: Some(temp), ..self.core }),
    {
        GenerationConfigBuilder {
            _response_type: PhantomData,
            core: GenerationConfigCore { temperature: Some(temp), ..self.core },
        }
    }

    /// Sets the top-p sampling parameter, as a decimal number token.
    pub fn top_p(self, p: JsonNumber) -> (r: GenerationConfigBuilder<T>)
        ensures
            r.core == (GenerationConfigCore { top_p: Some(p), ..self.core }),
    {
        GenerationConfigBuilder {
            _response_type: PhantomData,
            core: GenerationConfigCore { top_p: Some(p), ..self.core },
        }
    }

    /// Sets the top-k sampling parameter.
    pub fn top_k(self, k: i32) -> (r: GenerationConfigBuilder<T>)
        ensures
            r.core == (GenerationConfigCore { top_k: Some(k), ..self.core }),
    {
        GenerationConfigBuilder {
            _response_type: PhantomData,
            core: GenerationConfigCore { top_k: Some(k), ..self.core },
        }
    }

    /// Sets the decoding seed.
    pub fn seed(self, seed: i32) -> (r: GenerationConfigBuilder<T>)
        ensures
            r.core == (GenerationConfigCore { seed: Some(seed), ..self.core }),
    {
        GenerationConfigBuilder {
            _response_type: PhantomData,
            core: GenerationConfigCore { seed: Some(seed), ..self.core },
        }
    }

    /// Sets the presence penalty, as a decimal number token.
    pub fn presence_penalty(self, penalty: JsonNumber) -> (r: GenerationConfigBuilder<T>)
        ensures
            r.core == (GenerationConfigCore { presence_penalty: Some(penalty), ..self.core }),
    {
        GenerationConfigBuilder {
            _response_type: PhantomData,
            core: GenerationConfigCore { presence_penalty: Some(penalty), ..self.core },
        }
    }

    /// Sets the frequency penalty, as a decimal number token.
    pub fn frequency_penalty(self, penalty: JsonNumber) -> (r: GenerationConfigBuilder<T>)
        ensures
            r.core == (GenerationConfigCore { frequency_penalty: Some(penalty), ..self.core }),
    {
        GenerationConfigBuilder {
            _response_type: PhantomData,
            core: GenerationConfigCore { frequency_penalty: Some(penalty), ..self.core },
        }
    }

    /// Asks for log-probabilities in the response.
    pub fn response_logprobs(self, enabled: bool) -> (r: GenerationConfigBuilder<T>)
        ensures
            r.core == (GenerationConfigCore { response_logprobs: Some(enabled), ..self.core }),
    {
        GenerationConfigBuilder {
            _response_type: PhantomData,
            core: GenerationConfigCore { response_logprobs: Some(enabled), ..self.core },
        }
    }

    /// Sets how many top log-probabilities to return.
    pub fn logprobs(self, count: i32) -> (r: GenerationConfigBuilder<T>)
        ensures
            r.core == (GenerationConfigCore { logprobs: Some(count), ..self.core }),
    {
        GenerationConfigBuilder {
            _response_type: PhantomData,
            core: GenerationConfigCore { logprobs: Some(count), ..self.core },
        }
    }

    /// Enables enhanced civic answers.
    pub fn enable_enhanced_civic_answers(self, enabled: bool) -> (r: GenerationConfigBuilder<T>)
        ensures
            r.core == (GenerationConfigCore {
                enable_enhanced_civic_answers: Some(enabled),
                ..self.core
            }),
    {
        GenerationConfigBuilder {
            _response_type: PhantomData,
            core: GenerationConfigCore {
                enable_enhanced_civic_answers: Some(enabled),
                ..self.core
            },
        }
    }

    /// Sets the speech generation configuration.
    pub fn speech_config(self, config: JsonValue) -> (r: GenerationConfigBuilder<T>)
        ensures
            r.core == (GenerationConfigCore { speech_config: Some(config), ..self.core }),
    {
        GenerationConfigBuilder {
            _response_type: PhantomData,
            core: GenerationConfigCore { speech_config: Some(config), ..self.core },
        }
    }

    /// Sets the thinking configuration.
    pub fn thinking_config(self, config: JsonValue) -> (r: GenerationConfigBuilder<T>)
        ensures
            r.core == (GenerationConfigCore { thinking_config: Some(config), ..self.core }),
    {
        GenerationConfigBuilder {
            _response_type: PhantomData,
            core: GenerationConfigCore { thinking_config: Some(config), ..self.core },
        }
    }

    /// Sets the image generation configuration.
    pub fn image_config(self, config: JsonValue) -> (r: GenerationConfigBuilder<T>)
        ensures
            r.core == (GenerationConfigCore { image_config: Some(config), ..self.core }),
    {
        GenerationConfigBuilder {
            _response_type: PhantomData,
            core: GenerationConfigCore { image_config: Some(config), ..self.core },
        }
    }

    /// Sets the media resolution.
    pub fn media_resolution(self, resolution: String) -> (r: GenerationConfigBuilder<T>)
        ensures
            r.core == (GenerationConfigCore { media_resolution: Some(resolution), ..self.core }),
    {
        GenerationConfigBuilder {
            _response_type: PhantomData,
            core: GenerationConfigCore { media_resolution: Some(resolution), ..self.core },
        }
    }

    /// Asks for a plain-text response.
    pub fn text_response(self) -> (r: GenerationConfigBuilder<T>)
        ensures
            r.core == (GenerationConfigCore {
                response_mime_type: Some(ResponseMimeType::TextPlain),
                ..self.core
            }),
    {
        GenerationConfigBuilder {
            _response_type: PhantomData,
            core: GenerationConfigCore {
                response_mime_type: Some(ResponseMimeType::TextPlain),
                ..self.core
            },
        }
    }

    /// Asks for an enumeration response.
    pub fn enum_response(self) -> (r: GenerationConfigBuilder<T>)
        ensures
            r.core == (GenerationConfigCore {
                response_mime_type: Some(ResponseMimeType::TextEnum),
                ..self.core
            }),
    {
        GenerationConfigBuilder {
            _response_type: PhantomData,
            core: GenerationConfigCore {
                response_mime_type: Some(ResponseMimeType::TextEnum),
                ..self.core
            },
        }
    }

    /// Builds the configuration.  Succeeds exactly when the expected
    /// response type is plain text or a schema is attached; fails
    /// with [`BuildError::SchemaRequiredForTypedResponse`] otherwise.
    pub fn build(self) -> (r: Result<GenerationConfig<T>, BuildError>) where T: TypedText
        ensures
            (match r {
                Ok(c) => build_outcome(T::is_plain(), self.core.schema) is Ok && c.core
                    == self.core,
                Err(e) => build_outcome(T::is_plain(), self.core.schema) == Err::<
                    (),
                    BuildError,
                >(e),
            }),
    {
        let plain = T::plain_text();
        let has_schema = match &self.core.schema {
            SchemaSlot::NoSchema => false,
            _ => true,
        };
        if !plain && !has_schema {
            Err(BuildError::SchemaRequiredForTypedResponse)
        } else {
            Ok(GenerationConfig { _response_type: PhantomData, core: self.core })
        }
    }
}

/// For every non-plain-text response type, building without a schema
/// fails with exactly the schema-required error.
pub proof fn lemma_build_requires_schema<T: TypedText>(b: GenerationConfigBuilder<T>)
    requires
        !T::is_plain(),
        b.core.schema is NoSchema,
    ensures
        build_outcome(T::is_plain(), b.core.schema) == Err::<(), BuildError>(
            BuildError::SchemaRequiredForTypedResponse,
        ),
{
}

/// With either schema format attached, building succeeds, for any
/// response type.
pub proof fn lemma_build_with_schema_succeeds<T: TypedText>(b: GenerationConfigBuilder<T>)
    requires
        !(b.core.schema is NoSchema),
    ensures
        build_outcome(T::is_plain(), b.core.schema) is Ok,
{
}

/// For the plain-text response type, building succeeds with no
/// schema attached, whatever else is set.
pub proof fn lemma_plain_text_needs_no_schema<T: TypedText>(b: GenerationConfigBuilder<T>)
    requires
        T::is_plain(),
    ensures
        build_outcome(T::is_plain(), b.core.schema) is Ok,
{
}

/// Mutual exclusivity of the schema formats: attaching one format
/// after the other leaves only the later one, in either order, and
/// in both cases the output MIME type reads structured JSON.
pub proof fn lemma_schema_mutual_exclusivity(
    c: GenerationConfigCore,
    s1: JsonValue,
    s2: JsonValue,
)
    ensures
        ({
            let c2 = attach_json_schema(attach_openapi(c, s1), s2);
            openapi_schema_of(c2.schema) is None && json_schema_of(c2.schema) == Some(s2)
                && c2.response_mime_type == Some(ResponseMimeType::ApplicationJson)
        }),
        ({
            let c2 = attach_openapi(attach_json_schema(c, s1), s2);
            json_schema_of(c2.schema) is None && openapi_schema_of(c2.schema) == Some(s2)
                && c2.response_mime_type == Some(ResponseMimeType::ApplicationJson)
        }),
{
}

/// A request to generate content, generic over the expected response
/// type of its configuration.
#[derive(Debug)]
pub struct GenerateContentRequest<T = String> {
    pub contents: Vec<Content<String>>,
    pub generation_config: Option<GenerationConfig<T>>,
    pub system_instruction: Option<Content<String>>,
    pub safety_settings: Option<Vec<SafetySetting>>,
}

} // verus!
