//! Client configuration: API key, model name and base URL.

use vstd::prelude::*;
use vstd::string::StringExecFns;

verus! {

/// The base URL every configuration points at.
pub open spec fn spec_base_url() -> Seq<char> {
    "https://generativelanguage.googleapis.com/v1beta"@
}

/// Abstract value of a [`GeminiConfig`].
pub ghost struct GeminiConfigView {
    pub api_key: Seq<char>,
    pub model: Seq<char>,
    pub base_url: Seq<char>,
}

/// Configuration for the API client: the credential, the model to
/// address and the base URL of the service.
pub struct GeminiConfig {
    api_key: String,
    model: String,
    base_url: String,
}

impl View for GeminiConfig {
    type V = GeminiConfigView;

    closed spec fn view(&self) -> GeminiConfigView {
        GeminiConfigView {
            api_key: self.api_key@,
            model: self.model@,
            base_url: self.base_url@,
        }
    }
}

impl GeminiConfig {
    /// Creates a configuration with explicit values; the base URL is fixed.
    pub fn new(api_key: String, model: String) -> (r: GeminiConfig)
        ensures
            r@.api_key == api_key@,
            r@.model == model@,
            r@.base_url == spec_base_url(),
    {
        GeminiConfig {
            api_key,
            model,
            base_url: String::from_str("https://generativelanguage.googleapis.com/v1beta"),
        }
    }

    /// Returns the API key.
    pub fn api_key(&self) -> (r: &str)
        ensures
            r@ == self@.api_key,
    {
        self.api_key.as_str()
    }

    /// Returns the model identifier.
    pub fn model(&self) -> (r: &str)
        ensures
            r@ == self@.model,
    {
        self.model.as_str()
    }

    /// Returns the base URL.
    pub fn base_url(&self) -> (r: &str)
        ensures
            r@ == self@.base_url,
    {
        self.base_url.as_str()
    }

    /// Builds the URL of the content-generation endpoint.
    pub fn build_generate_url(&self) -> (r: String)
        ensures
            r@ == self@.base_url + "/models/"@ + self@.model + ":generateContent"@,
    {
        let mut url = self.base_url.clone();
        url.append("/models/");
        url.append(self.model.as_str());
        url.append(":generateContent");
        url
    }

    /// Builds the URL of the streaming content-generation endpoint.
    pub fn build_stream_url(&self) -> (r: String)
        ensures
            r@ == self@.base_url + "/models/"@ + self@.model
                + ":streamGenerateContent?alt=sse"@,
    {
        let mut url = self.base_url.clone();
        url.append("/models/");
        url.append(self.model.as_str());
        url.append(":streamGenerateContent?alt=sse");
        url
    }

    /// A printable description of the configuration.  The API key is
    /// never included; its slot always shows a redaction marker.
    pub fn debug_string(&self) -> (r: String)
        ensures
            r@ == "GeminiConfig { api_key: \"[REDACTED]\", model: \""@ + self@.model
                + "\", base_url: \""@ + self@.base_url + "\" }"@,
    {
        let mut out = String::from_str("GeminiConfig { api_key: \"[REDACTED]\", model: \"");
        out.append(self.model.as_str());
        out.append("\", base_url: \"");
        out.append(self.base_url.as_str());
        out.append("\" }");
        out
    }
}

} // verus!
