//! Content data shapes: parts, content blocks, and their payloads.

use vstd::prelude::*;

use crate::json::{JVal, JsonNumber, JsonValue};

verus! {

/// Who produced a piece of content.
#[derive(Debug, Clone, Copy, PartialEq, Eq, Structural)]
pub enum Role {
    User,
    Model,
}

/// The wire name of a role.
pub open spec fn role_name(r: Role) -> Seq<char> {
    match r {
        Role::User => "user"@,
        Role::Model => "model"@,
    }
}

impl Role {
    /// The wire name of this role.
    pub fn wire_name(&self) -> (r: &'static str)
        ensures
            r@ == role_name(*self),
    {
        match self {
            Role::User => "user",
            Role::Model => "model",
        }
    }
}

/// A value carried in a textual slot.  The wrapper records that the
/// value crosses the wire in its text form: plain text for the
/// plain-text type, an embedded JSON document for every other type.
#[derive(Debug)]
pub struct JsonString<T> {
    inner: T,
}

impl<T> JsonString<T> {
    /// The wrapped value.
    pub closed spec fn spec_inner(self) -> T {
        self.inner
    }

    /// Wraps a value.
    pub fn new(inner: T) -> (r: JsonString<T>)
        ensures
            r.spec_inner() == inner,
    {
        JsonString { inner }
    }

    /// A reference to the wrapped value.
    pub fn inner(&self) -> (r: &T)
        ensures
            *r == self.spec_inner(),
    {
        &self.inner
    }

    /// Unwraps the value.
    pub fn into_inner(self) -> (r: T)
        ensures
            r == self.spec_inner(),
    {
        self.inner
    }
}

impl<T: View> View for JsonString<T> {
    type V = T::V;

    closed spec fn view(&self) -> T::V {
        self.inner@
    }
}

impl<T: View> JsonString<T> {
    /// The abstract value of the wrapper is that of the wrapped value.
    pub proof fn lemma_view(&self)
        ensures
            self@ == self.spec_inner()@,
    {
    }
}

/// Raw media bytes, base64-encoded, with their MIME type.
#[derive(Debug)]
pub struct Blob {
    pub mime_type: crate::request::MimeType,
    pub data: String,
}

/// Abstract value of a [`Blob`].
pub ghost struct BlobView {
    pub mime_type: crate::request::MimeType,
    pub data: Seq<char>,
}

impl View for Blob {
    type V = BlobView;

    open spec fn view(&self) -> BlobView {
        BlobView { mime_type: self.mime_type, data: self.data@ }
    }
}

/// A function call predicted by the model.
#[derive(Debug)]
pub struct FunctionCall {
    pub name: String,
    pub args: Option<JsonValue>,
}

/// Abstract value of a [`FunctionCall`].
pub ghost struct FunctionCallView {
    pub name: Seq<char>,
    pub args: Option<JVal>,
}

impl View for FunctionCall {
    type V = FunctionCallView;

    open spec fn view(&self) -> FunctionCallView {
        FunctionCallView {
            name: self.name@,
            args: match self.args {
                Some(a) => Some(a@),
                None => None,
            },
        }
    }
}

/// The result of a function call.
#[derive(Debug)]
pub struct FunctionResponse {
    pub name: String,
    pub response: JsonValue,
}

/// Abstract value of a [`FunctionResponse`].
pub ghost struct FunctionResponseView {
    pub name: Seq<char>,
    pub response: JVal,
}

impl View for FunctionResponse {
    type V = FunctionResponseView;

    open spec fn view(&self) -> FunctionResponseView {
        FunctionResponseView { name: self.name@, response: self.response@ }
    }
}

/// URI-based data.
#[derive(Debug)]
pub struct FileData {
    pub mime_type: Option<crate::request::MimeType>,
    pub file_uri: String,
}

/// Abstract value of a [`FileData`].
pub ghost struct FileDataView {
    pub mime_type: Option<crate::request::MimeType>,
    pub file_uri: Seq<char>,
}

impl View for FileData {
    type V = FileDataView;

    open spec fn view(&self) -> FileDataView {
        FileDataView { mime_type: self.mime_type, file_uri: self.file_uri@ }
    }
}

/// Code the model wants executed.
#[derive(Debug)]
pub struct ExecutableCode {
    pub language: String,
    pub code: String,
}

/// Abstract value of an [`ExecutableCode`].
pub ghost struct ExecutableCodeView {
    pub language: Seq<char>,
    pub code: Seq<char>,
}

impl View for ExecutableCode {
    type V = ExecutableCodeView;

    open spec fn view(&self) -> ExecutableCodeView {
        ExecutableCodeView { language: self.language@, code: self.code@ }
    }
}

/// The result of executing code.
#[derive(Debug)]
pub struct CodeExecutionResult {
    pub outcome: String,
    pub output: Option<String>,
}

/// Abstract value of a [`CodeExecutionResult`].
pub ghost struct CodeExecutionResultView {
    pub outcome: Seq<char>,
    pub output: Option<Seq<char>>,
}

impl View for CodeExecutionResult {
    type V = CodeExecutionResultView;

    open spec fn view(&self) -> CodeExecutionResultView {
        CodeExecutionResultView {
            outcome: self.outcome@,
            output: match self.output {
                Some(o) => Some(o@),
                None => None,
            },
        }
    }
}

/// Metadata describing input video content.  The frame rate is kept
/// as its decimal number token.
#[derive(Debug)]
pub struct VideoMetadata {
    pub start_offset: Option<String>,
    pub end_offset: Option<String>,
    pub fps: Option<JsonNumber>,
}

/// Abstract value of a [`VideoMetadata`].
pub ghost struct VideoMetadataView {
    pub start_offset: Option<Seq<char>>,
    pub end_offset: Option<Seq<char>>,
    pub fps: Option<Seq<char>>,
}

impl View for VideoMetadata {
    type V = VideoMetadataView;

    open spec fn view(&self) -> VideoMetadataView {
        VideoMetadataView {
            start_offset: match self.start_offset {
                Some(o) => Some(o@),
                None => None,
            },
            end_offset: match self.end_offset {
                Some(o) => Some(o@),
                None => None,
            },
            fps: match self.fps {
                Some(f) => Some(f@),
                None => None,
            },
        }
    }
}

/// One unit of content.  At most one payload slot should be
/// populated; the shape does not enforce that rule, callers keep it.
#[derive(Debug)]
pub struct Part<T = String> {
    pub text: Option<JsonString<T>>,
    pub inline_data: Option<Blob>,
    pub function_call: Option<FunctionCall>,
    pub function_response: Option<FunctionResponse>,
    pub file_data: Option<FileData>,
    pub executable_code: Option<ExecutableCode>,
    pub code_execution_result: Option<CodeExecutionResult>,
    pub video_metadata: Option<VideoMetadata>,
}

/// Abstract value of a [`Part`].
pub ghost struct PartView<TV> {
    pub text: Option<TV>,
    pub inline_data: Option<BlobView>,
    pub function_call: Option<FunctionCallView>,
    pub function_response: Option<FunctionResponseView>,
    pub file_data: Option<FileDataView>,
    pub executable_code: Option<ExecutableCodeView>,
    pub code_execution_result: Option<CodeExecutionResultView>,
    pub video_metadata: Option<VideoMetadataView>,
}

impl<T: View> View for Part<T> {
    type V = PartView<T::V>;

    open spec fn view(&self) -> PartView<T::V> {
        PartView {
            text: match self.text {
                Some(js) => Some(js@),
                None => None,
            },
            inline_data: match self.inline_data {
                Some(b) => Some(b@),
                None => None,
            },
            function_call: match self.function_call {
                Some(f) => Some(f@),
                None => None,
            },
            function_response: match self.function_response {
                Some(f) => Some(f@),
                None => None,
            },
            file_data: match self.file_data {
                Some(f) => Some(f@),
                None => None,
            },
            executable_code: match self.executable_code {
                Some(e) => Some(e@),
                None => None,
            },
            code_execution_result: match self.code_execution_result {
                Some(c) => Some(c@),
                None => None,
            },
            video_metadata: match self.video_metadata {
                Some(m) => Some(m@),
                None => None,
            },
        }
    }
}

impl<T> Part<T> {
    /// A part with every slot empty.
    pub fn empty() -> (r: Part<T>)
        ensures
            r.text is None,
            r.inline_data is None,
            r.function_call is None,
            r.function_response is None,
            r.file_data is None,
            r.executable_code is None,
            r.code_execution_result is None,
            r.video_metadata is None,
    {
        Part {
            text: None,
            inline_data: None,
            function_call: None,
            function_response: None,
            file_data: None,
            executable_code: None,
            code_execution_result: None,
            video_metadata: None,
        }
    }

    /// A part holding only the given text value.
    pub fn from_text(value: T) -> (r: Part<T>)
        ensures
            (r.text matches Some(js) && js.spec_inner() == value),
            r.inline_data is None,
            r.function_call is None,
            r.function_response is None,
            r.file_data is None,
            r.executable_code is None,
            r.code_execution_result is None,
            r.video_metadata is None,
    {
        Part {
            text: Some(JsonString::new(value)),
            inline_data: None,
            function_call: None,
            function_response: None,
            file_data: None,
            executable_code: None,
            code_execution_result: None,
            video_metadata: None,
        }
    }

    /// True when this part has text content.
    pub fn has_text(&self) -> (r: bool)
        ensures
            r == (self.text is Some),
    {
        self.text.is_some()
    }

    /// A reference to the text content.
    pub fn text(&self) -> (r: Option<&T>)
        ensures
            match r {
                Some(t) => self.text matches Some(js) && *t == js.spec_inner(),
                None => self.text is None,
            },
    {
        match &self.text {
            Some(js) => Some(js.inner()),
            None => None,
        }
    }

    /// Unwraps the text content.
    pub fn into_text(self) -> (r: Option<T>)
        ensures
            match r {
                Some(t) => self.text matches Some(js) && t == js.spec_inner(),
                None => self.text is None,
            },
    {
        match self.text {
            Some(js) => Some(js.into_inner()),
            None => None,
        }
    }

    /// Replaces the text content, returning what was there.
    pub fn set_text(&mut self, value: T) -> (r: Option<T>)
        ensures
            (final(self).text matches Some(js) && js.spec_inner() == value),
            final(self).inline_data == old(self).inline_data,
            final(self).function_call == old(self).function_call,
            final(self).function_response == old(self).function_response,
            final(self).file_data == old(self).file_data,
            final(self).executable_code == old(self).executable_code,
            final(self).code_execution_result == old(self).code_execution_result,
            final(self).video_metadata == old(self).video_metadata,
            match r {
                Some(t) => old(self).text matches Some(js) && t == js.spec_inner(),
                None => old(self).text is None,
            },
    {
        let prev = self.text.take();
        self.text = Some(JsonString::new(value));
        match prev {
            Some(js) => Some(js.into_inner()),
            None => None,
        }
    }
}

/// An ordered sequence of parts with an optional role.
#[derive(Debug)]
pub struct Content<T = String> {
    pub role: Option<Role>,
    pub parts: Vec<Part<T>>,
}

/// Abstract value of a [`Content`].
pub ghost struct ContentView<TV> {
    pub role: Option<Role>,
    pub parts: Seq<PartView<TV>>,
}

impl<T: View> View for Content<T> {
    type V = ContentView<T::V>;

    open spec fn view(&self) -> ContentView<T::V> {
        ContentView {
            role: self.role,
            parts: Seq::new(self.parts@.len(), |i: int| self.parts@[i]@),
        }
    }
}

impl<T> Content<T> {
    /// The first part, if any.
    pub fn first_part(&self) -> (r: Option<&Part<T>>)
        ensures
            match r {
                Some(p) => self.parts@.len() > 0 && *p == self.parts@[0],
                None => self.parts@.len() == 0,
            },
    {
        if self.parts.len() > 0 {
            Some(&self.parts[0])
        } else {
            None
        }
    }

    /// The first part's text, if any.
    pub fn first_text(&self) -> (r: Option<&T>)
        ensures
            match r {
                Some(t) => self.parts@.len() > 0 && (self.parts@[0].text matches Some(js) && *t
                    == js.spec_inner()),
                None => self.parts@.len() == 0 || self.parts@[0].text is None,
            },
    {
        match self.first_part() {
            Some(p) => p.text(),
            None => None,
        }
    }
}

} // verus!
