//! Response shapes and their decoding from wire text.
//!
//! The `spec_*` functions fix which JSON values decode to which
//! shapes; [`GenerateContentResponse::decode_json`] implements them
//! exactly.  A decode failure anywhere — including the typed text of
//! any part — fails the whole envelope; nothing is substituted.
//! Keys are accepted in their lower-camel-case wire spelling and in
//! their snake-case spelling.

use vstd::prelude::*;
use vstd::string::StringExecFns;

use crate::codec::{CodecError, TypedText};
use crate::content::{
    Blob, BlobView, CodeExecutionResult, CodeExecutionResultView, Content, ContentView,
    ExecutableCode, ExecutableCodeView, FileData, FileDataView, FunctionCall, FunctionCallView,
    FunctionResponse, FunctionResponseView, JsonString, Part, PartView, Role, VideoMetadata,
    VideoMetadataView,
};
use crate::json::{
    lemma_view_elems, lookup, obj_find, view_elems, view_members, JVal, JsonValue,
};
use crate::json_parse::{jparse_doc, parse_json};
use crate::numeral::int_of_digits;
use crate::request::{MimeType, SafetyRating, SafetyRatingView};
use crate::strutil::str_to_chars;

verus! {

/// The first value under either spelling of a key.
pub open spec fn lookup2(
    ms: Seq<(Seq<char>, JVal)>,
    k1: Seq<char>,
    k2: Seq<char>,
) -> Option<JVal> {
    match lookup(ms, k1) {
        Some(v) => Some(v),
        None => lookup(ms, k2),
    }
}

/// The role a JSON value stands for.
pub open spec fn spec_role(v: JVal) -> Option<Role> {
    match v {
        JVal::Str(s) => if s == "user"@ {
            Some(Role::User)
        } else if s == "model"@ {
            Some(Role::Model)
        } else {
            None
        },
        _ => None,
    }
}

/// The media MIME type a name stands for: the inverse of
/// [`mime_name`].
pub open spec fn spec_mime(s: Seq<char>) -> Option<MimeType> {
    if s == "image/png"@ { Some(MimeType::ImagePng) }
    else if s == "image/jpeg"@ { Some(MimeType::ImageJpeg) }
    else if s == "image/webp"@ { Some(MimeType::ImageWebp) }
    else if s == "image/heic"@ { Some(MimeType::ImageHeic) }
    else if s == "image/heif"@ { Some(MimeType::ImageHeif) }
    else if s == "audio/wav"@ { Some(MimeType::AudioWav) }
    else if s == "audio/mp3"@ { Some(MimeType::AudioMp3) }
    else if s == "audio/mpeg"@ { Some(MimeType::AudioMpeg) }
    else if s == "audio/aiff"@ { Some(MimeType::AudioAiff) }
    else if s == "audio/aac"@ { Some(MimeType::AudioAac) }
    else if s == "audio/ogg"@ { Some(MimeType::AudioOgg) }
    else if s == "audio/flac"@ { Some(MimeType::AudioFlac) }
    else if s == "video/mp4"@ { Some(MimeType::VideoMp4) }
    else if s == "video/mpeg"@ { Some(MimeType::VideoMpeg) }
    else if s == "video/mov"@ { Some(MimeType::VideoMov) }
    else if s == "video/avi"@ { Some(MimeType::VideoAvi) }
    else if s == "video/x-flv"@ { Some(MimeType::VideoFlv) }
    else if s == "video/mpg"@ { Some(MimeType::VideoMpg) }
    else if s == "video/webm"@ { Some(MimeType::VideoWebm) }
    else if s == "video/wmv"@ { Some(MimeType::VideoWmv) }
    else if s == "video/3gpp"@ { Some(MimeType::Video3gpp) }
    else if s == "application/pdf"@ { Some(MimeType::ApplicationPdf) }
    else if s == "text/plain"@ { Some(MimeType::TextPlain) }
    else if s == "text/html"@ { Some(MimeType::TextHtml) }
    else if s == "text/css"@ { Some(MimeType::TextCss) }
    else if s == "text/javascript"@ { Some(MimeType::TextJavascript) }
    else if s == "application/x-javascript"@ { Some(MimeType::ApplicationJavascript) }
    else if s == "text/x-typescript"@ { Some(MimeType::TextTypescript) }
    else if s == "application/x-typescript"@ { Some(MimeType::ApplicationTypescript) }
    else if s == "text/csv"@ { Some(MimeType::TextCsv) }
    else if s == "text/markdown"@ { Some(MimeType::TextMarkdown) }
    else if s == "text/x-python"@ { Some(MimeType::TextPython) }
    else if s == "application/x-python-code"@ { Some(MimeType::ApplicationPythonCode) }
    else if s == "application/json"@ { Some(MimeType::ApplicationJson) }
    else if s == "text/xml"@ { Some(MimeType::TextXml) }
    else if s == "application/rtf"@ { Some(MimeType::ApplicationRtf) }
    else if s == "text/rtf"@ { Some(MimeType::TextRtf) }
    else { None }
}

/// The `i32` a JSON value stands for: an integer numeral in range.
pub open spec fn spec_i32(v: JVal) -> Option<i32> {
    match v {
        JVal::Num(tok) => match int_of_digits(tok) {
            Some(x) => if i32::MIN as int <= x <= i32::MAX as int {
                Some(x as i32)
            } else {
                None
            },
            None => None,
        },
        _ => None,
    }
}

/// The inline media bytes a JSON value stands for.
pub open spec fn spec_blob(v: JVal) -> Option<BlobView> {
    match v {
        JVal::Obj(ms) => match lookup2(ms, "mimeType"@, "mime_type"@) {
            Some(JVal::Str(m)) => match spec_mime(m) {
                Some(mime) => match lookup(ms, "data"@) {
                    Some(JVal::Str(d)) => Some(BlobView { mime_type: mime, data: d }),
                    _ => None,
                },
                None => None,
            },
            _ => None,
        },
        _ => None,
    }
}

/// The function call a JSON value stands for.
pub open spec fn spec_function_call(v: JVal) -> Option<FunctionCallView> {
    match v {
        JVal::Obj(ms) => match lookup(ms, "name"@) {
            Some(JVal::Str(n)) => match lookup(ms, "args"@) {
                Some(a) => Some(FunctionCallView { name: n, args: Some(a) }),
                None => Some(FunctionCallView { name: n, args: None }),
            },
            _ => None,
        },
        _ => None,
    }
}

/// The function response a JSON value stands for.
pub open spec fn spec_function_response(v: JVal) -> Option<FunctionResponseView> {
    match v {
        JVal::Obj(ms) => match lookup(ms, "name"@) {
            Some(JVal::Str(n)) => match lookup(ms, "response"@) {
                Some(resp) => Some(FunctionResponseView { name: n, response: resp }),
                None => None,
            },
            _ => None,
        },
        _ => None,
    }
}

/// The URI-based data a JSON value stands for.
pub open spec fn spec_file_data(v: JVal) -> Option<FileDataView> {
    match v {
        JVal::Obj(ms) => {
            let mime = match lookup2(ms, "mimeType"@, "mime_type"@) {
                None => Some(None),
                Some(JVal::Str(m)) => match spec_mime(m) {
                    Some(x) => Some(Some(x)),
                    None => None,
                },
                Some(_) => None,
            };
            match mime {
                Some(mt) => match lookup2(ms, "fileUri"@, "file_uri"@) {
                    Some(JVal::Str(u)) => Some(FileDataView { mime_type: mt, file_uri: u }),
                    _ => None,
                },
                None => None,
            }
        },
        _ => None,
    }
}

/// The executable-code payload a JSON value stands for.
pub open spec fn spec_executable_code(v: JVal) -> Option<ExecutableCodeView> {
    match v {
        JVal::Obj(ms) => match lookup(ms, "language"@) {
            Some(JVal::Str(l)) => match lookup(ms, "code"@) {
                Some(JVal::Str(c)) => Some(ExecutableCodeView { language: l, code: c }),
                _ => None,
            },
            _ => None,
        },
        _ => None,
    }
}

/// The code-execution result a JSON value stands for.
pub open spec fn spec_code_execution_result(v: JVal) -> Option<CodeExecutionResultView> {
    match v {
        JVal::Obj(ms) => match lookup(ms, "outcome"@) {
            Some(JVal::Str(o)) => match lookup(ms, "output"@) {
                None => Some(CodeExecutionResultView { outcome: o, output: None }),
                Some(JVal::Str(out)) => Some(
                    CodeExecutionResultView { outcome: o, output: Some(out) },
                ),
                Some(_) => None,
            },
            _ => None,
        },
        _ => None,
    }
}

/// The video metadata a JSON value stands for.
pub open spec fn spec_video_metadata(v: JVal) -> Option<VideoMetadataView> {
    match v {
        JVal::Obj(ms) => {
            let so = match lookup2(ms, "startOffset"@, "start_offset"@) {
                None => Some(None),
                Some(JVal::Str(s)) => Some(Some(s)),
                Some(_) => None,
            };
            let eo = match lookup2(ms, "endOffset"@, "end_offset"@) {
                None => Some(None),
                Some(JVal::Str(s)) => Some(Some(s)),
                Some(_) => None,
            };
            let fps = match lookup(ms, "fps"@) {
                None => Some(None),
                Some(JVal::Num(t)) => Some(Some(t)),
                Some(_) => None,
            };
            if so is Some && eo is Some && fps is Some {
                Some(
                    VideoMetadataView {
                        start_offset: so->Some_0,
                        end_offset: eo->Some_0,
                        fps: fps->Some_0,
                    },
                )
            } else {
                None
            }
        },
        _ => None,
    }
}

/// The part a JSON value stands for: each present slot must decode,
/// and a present `text` slot must decode as the expected type.
pub open spec fn spec_part<T: TypedText>(v: JVal) -> Option<PartView<T::V>> {
    match v {
        JVal::Obj(ms) => {
            let text = match lookup(ms, "text"@) {
                None => Some(None),
                Some(JVal::Str(s)) => match T::spec_decode(s) {
                    Some(x) => Some(Some(x)),
                    None => None,
                },
                Some(_) => None,
            };
            let inline = match lookup2(ms, "inlineData"@, "inline_data"@) {
                None => Some(None),
                Some(x) => match spec_blob(x) {
                    Some(b) => Some(Some(b)),
                    None => None,
                },
            };
            let fcall = match lookup2(ms, "functionCall"@, "function_call"@) {
                None => Some(None),
                Some(x) => match spec_function_call(x) {
                    Some(f) => Some(Some(f)),
                    None => None,
                },
            };
            let fresp = match lookup2(ms, "functionResponse"@, "function_response"@) {
                None => Some(None),
                Some(x) => match spec_function_response(x) {
                    Some(f) => Some(Some(f)),
                    None => None,
                },
            };
            let fdata = match lookup2(ms, "fileData"@, "file_data"@) {
                None => Some(None),
                Some(x) => match spec_file_data(x) {
                    Some(f) => Some(Some(f)),
                    None => None,
                },
            };
            let ecode = match lookup2(ms, "executableCode"@, "executable_code"@) {
                None => Some(None),
                Some(x) => match spec_executable_code(x) {
                    Some(e) => Some(Some(e)),
                    None => None,
                },
            };
            let cres = match lookup2(ms, "codeExecutionResult"@, "code_execution_result"@) {
                None => Some(None),
                Some(x) => match spec_code_execution_result(x) {
                    Some(c) => Some(Some(c)),
                    None => None,
                },
            };
            let vmeta = match lookup2(ms, "videoMetadata"@, "video_metadata"@) {
                None => Some(None),
                Some(x) => match spec_video_metadata(x) {
                    Some(m) => Some(Some(m)),
                    None => None,
                },
            };
            if text is Some && inline is Some && fcall is Some && fresp is Some && fdata is Some
                && ecode is Some && cres is Some && vmeta is Some {
                Some(
                    PartView {
                        text: text->Some_0,
                        inline_data: inline->Some_0,
                        function_call: fcall->Some_0,
                        function_response: fresp->Some_0,
                        file_data: fdata->Some_0,
                        executable_code: ecode->Some_0,
                        code_execution_result: cres->Some_0,
                        video_metadata: vmeta->Some_0,
                    },
                )
            } else {
                None
            }
        },
        _ => None,
    }
}

/// The parts a list of JSON values stands for, failing if any fails.
pub open spec fn spec_parts<T: TypedText>(es: Seq<JVal>) -> Option<Seq<PartView<T::V>>>
    decreases es.len(),
{
    if es.len() == 0 {
        Some(Seq::empty())
    } else {
        match spec_part::<T>(es[0]) {
            Some(p) => match spec_parts::<T>(es.drop_first()) {
                Some(ps) => Some(seq![p] + ps),
                None => None,
            },
            None => None,
        }
    }
}

/// The content block a JSON value stands for.
pub open spec fn spec_content<T: TypedText>(v: JVal) -> Option<ContentView<T::V>> {
    match v {
        JVal::Obj(ms) => {
            let role = match lookup(ms, "role"@) {
                None => Some(None),
                Some(x) => match spec_role(x) {
                    Some(r) => Some(Some(r)),
                    None => None,
                },
            };
            match role {
                Some(ro) => match lookup(ms, "parts"@) {
                    Some(JVal::Arr(es)) => match spec_parts::<T>(es) {
                        Some(ps) => Some(ContentView { role: ro, parts: ps }),
                        None => None,
                    },
                    _ => None,
                },
                None => None,
            }
        },
        _ => None,
    }
}

/// The safety rating a JSON value stands for; a missing `blocked`
/// reads as `false`.
pub open spec fn spec_safety_rating(v: JVal) -> Option<SafetyRatingView> {
    match v {
        JVal::Obj(ms) => match lookup(ms, "category"@) {
            Some(JVal::Str(cat)) => match lookup(ms, "probability"@) {
                Some(JVal::Str(prob)) => match lookup(ms, "blocked"@) {
                    None => Some(
                        SafetyRatingView { category: cat, probability: prob, blocked: false },
                    ),
                    Some(JVal::Bool(b)) => Some(
                        SafetyRatingView { category: cat, probability: prob, blocked: b },
                    ),
                    Some(_) => None,
                },
                _ => None,
            },
            _ => None,
        },
        _ => None,
    }
}

/// The safety ratings a list of JSON values stands for.
pub open spec fn spec_safety_ratings(es: Seq<JVal>) -> Option<Seq<SafetyRatingView>>
    decreases es.len(),
{
    if es.len() == 0 {
        Some(Seq::empty())
    } else {
        match spec_safety_rating(es[0]) {
            Some(r) => match spec_safety_ratings(es.drop_first()) {
                Some(rs) => Some(seq![r] + rs),
                None => None,
            },
            None => None,
        }
    }
}

/// Abstract value of a [`Candidate`].
pub ghost struct CandidateView<TV> {
    pub content: ContentView<TV>,
    pub finish_reason: Option<Seq<char>>,
    pub safety_ratings: Seq<SafetyRatingView>,
}

/// The candidate a JSON value stands for.  `content` is required;
/// missing safety ratings read as an empty list.
pub open spec fn spec_candidate<T: TypedText>(v: JVal) -> Option<CandidateView<T::V>> {
    match v {
        JVal::Obj(ms) => match lookup(ms, "content"@) {
            Some(cv) => match spec_content::<T>(cv) {
                Some(content) => {
                    let fr = match lookup2(ms, "finishReason"@, "finish_reason"@) {
                        None => Some(None),
                        Some(JVal::Str(s)) => Some(Some(s)),
                        Some(_) => None,
                    };
                    let sr = match lookup2(ms, "safetyRatings"@, "safety_ratings"@) {
                        None => Some(Seq::empty()),
                        Some(JVal::Arr(es)) => spec_safety_ratings(es),
                        Some(_) => None,
                    };
                    if fr is Some && sr is Some {
                        Some(
                            CandidateView {
                                content,
                                finish_reason: fr->Some_0,
                                safety_ratings: sr->Some_0,
                            },
                        )
                    } else {
                        None
                    }
                },
                None => None,
            },
            None => None,
        },
        _ => None,
    }
}

/// The candidates a list of JSON values stands for.
pub open spec fn spec_candidates<T: TypedText>(es: Seq<JVal>) -> Option<Seq<CandidateView<T::V>>>
    decreases es.len(),
{
    if es.len() == 0 {
        Some(Seq::empty())
    } else {
        match spec_candidate::<T>(es[0]) {
            Some(c) => match spec_candidates::<T>(es.drop_first()) {
                Some(cs) => Some(seq![c] + cs),
                None => None,
            },
            None => None,
        }
    }
}

/// Abstract value of a [`PromptFeedback`].
pub ghost struct PromptFeedbackView {
    pub block_reason: Option<Seq<char>>,
    pub safety_ratings: Seq<SafetyRatingView>,
}

/// The prompt feedback a JSON value stands for.
pub open spec fn spec_prompt_feedback(v: JVal) -> Option<PromptFeedbackView> {
    match v {
        JVal::Obj(ms) => {
            let br = match lookup2(ms, "blockReason"@, "block_reason"@) {
                None => Some(None),
                Some(JVal::Str(s)) => Some(Some(s)),
                Some(_) => None,
            };
            let sr = match lookup2(ms, "safetyRatings"@, "safety_ratings"@) {
                None => Some(Seq::empty()),
                Some(JVal::Arr(es)) => spec_safety_ratings(es),
                Some(_) => None,
            };
            if br is Some && sr is Some {
                Some(PromptFeedbackView { block_reason: br->Some_0, safety_ratings: sr->Some_0 })
            } else {
                None
            }
        },
        _ => None,
    }
}

/// Abstract value of a [`UsageMetadata`].
pub ghost struct UsageMetadataView {
    pub prompt_token_count: Option<i32>,
    pub candidates_token_count: Option<i32>,
    pub total_token_count: Option<i32>,
}

/// The token-usage counters a JSON value stands for.
pub open spec fn spec_usage_metadata(v: JVal) -> Option<UsageMetadataView> {
    match v {
        JVal::Obj(ms) => {
            let p = match lookup2(ms, "promptTokenCount"@, "prompt_token_count"@) {
                None => Some(None),
                Some(x) => match spec_i32(x) {
                    Some(n) => Some(Some(n)),
                    None => None,
                },
            };
            let c = match lookup2(ms, "candidatesTokenCount"@, "candidates_token_count"@) {
                None => Some(None),
                Some(x) => match spec_i32(x) {
                    Some(n) => Some(Some(n)),
                    None => None,
                },
            };
            let t = match lookup2(ms, "totalTokenCount"@, "total_token_count"@) {
                None => Some(None),
                Some(x) => match spec_i32(x) {
                    Some(n) => Some(Some(n)),
                    None => None,
                },
            };
            if p is Some && c is Some && t is Some {
                Some(
                    UsageMetadataView {
                        prompt_token_count: p->Some_0,
                        candidates_token_count: c->Some_0,
                        total_token_count: t->Some_0,
                    },
                )
            } else {
                None
            }
        },
        _ => None,
    }
}

/// Abstract value of a [`GenerateContentResponse`].
pub ghost struct GenerateContentResponseView<TV> {
    pub candidates: Seq<CandidateView<TV>>,
    pub prompt_feedback: Option<PromptFeedbackView>,
    pub usage_metadata: Option<UsageMetadataView>,
}

/// The envelope a JSON value stands for.  Missing candidates read as
/// an empty list; the feedback and usage blocks are optional.
pub open spec fn spec_response<T: TypedText>(v: JVal) -> Option<
    GenerateContentResponseView<T::V>,
> {
    match v {
        JVal::Obj(ms) => {
            let cs = match lookup(ms, "candidates"@) {
                None => Some(Seq::empty()),
                Some(JVal::Arr(es)) => spec_candidates::<T>(es),
                Some(_) => None,
            };
            let pf = match lookup2(ms, "promptFeedback"@, "prompt_feedback"@) {
                None => Some(None),
                Some(x) => match spec_prompt_feedback(x) {
                    Some(f) => Some(Some(f)),
                    None => None,
                },
            };
            let um = match lookup2(ms, "usageMetadata"@, "usage_metadata"@) {
                None => Some(None),
                Some(x) => match spec_usage_metadata(x) {
                    Some(u) => Some(Some(u)),
                    None => None,
                },
            };
            if cs is Some && pf is Some && um is Some {
                Some(
                    GenerateContentResponseView {
                        candidates: cs->Some_0,
                        prompt_feedback: pf->Some_0,
                        usage_metadata: um->Some_0,
                    },
                )
            } else {
                None
            }
        },
        _ => None,
    }
}

/// The envelope a whole response body stands for.
pub open spec fn spec_decode_response<T: TypedText>(t: Seq<char>) -> Option<
    GenerateContentResponseView<T::V>,
> {
    match jparse_doc(t) {
        Some(v) => spec_response::<T>(v),
        None => None,
    }
}

/// The abstract values of a sequence of parts.
pub open spec fn parts_view<T: View>(ps: Seq<Part<T>>) -> Seq<PartView<T::V>> {
    Seq::new(ps.len(), |i: int| ps[i]@)
}

/// The abstract values of a sequence of safety ratings.
pub open spec fn ratings_view(rs: Seq<SafetyRating>) -> Seq<SafetyRatingView> {
    Seq::new(rs.len(), |i: int| rs[i]@)
}

/// Finds a key, searching the whole member list.
fn obj_get1(ms: &Vec<(String, JsonValue)>, k: &String) -> (r: Option<usize>)
    ensures
        match r {
            Some(j) => j < ms@.len() && lookup(view_members(ms@), k@) == Some(ms@[j as int].1@),
            None => lookup(view_members(ms@), k@) is None,
        },
{
    proof {
        crate::json::lemma_view_members(ms@);
        assert(view_members(ms@).subrange(0, ms@.len() as int) =~= view_members(ms@));
    }
    obj_find(ms, k, 0)
}

/// Finds a key under either spelling.
fn obj_get2(ms: &Vec<(String, JsonValue)>, k1: &String, k2: &String) -> (r: Option<usize>)
    ensures
        match r {
            Some(j) => j < ms@.len() && lookup2(view_members(ms@), k1@, k2@) == Some(
                ms@[j as int].1@,
            ),
            None => lookup2(view_members(ms@), k1@, k2@) is None,
        },
{
    match obj_get1(ms, k1) {
        Some(j) => Some(j),
        None => obj_get1(ms, k2),
    }
}

/// Reads a role.
fn role_from_json(v: &JsonValue) -> (r: Option<Role>)
    ensures
        r == spec_role(v@),
{
    match v {
        JsonValue::Str(s) => {
            if *s == String::from_str("user") {
                Some(Role::User)
            } else if *s == String::from_str("model") {
                Some(Role::Model)
            } else {
                None
            }
        },
        _ => None,
    }
}

/// Reads a media MIME type from its wire name.
#[verifier::rlimit(60)]
fn mime_from_name(s: &String) -> (r: Option<MimeType>)
    ensures
        r == spec_mime(s@),
{
    if *s == String::from_str("image/png") { Some(MimeType::ImagePng) }
    else if *s == String::from_str("image/jpeg") { Some(MimeType::ImageJpeg) }
    else if *s == String::from_str("image/webp") { Some(MimeType::ImageWebp) }
    else if *s == String::from_str("image/heic") { Some(MimeType::ImageHeic) }
    else if *s == String::from_str("image/heif") { Some(MimeType::ImageHeif) }
    else if *s == String::from_str("audio/wav") { Some(MimeType::AudioWav) }
    else if *s == String::from_str("audio/mp3") { Some(MimeType::AudioMp3) }
    else if *s == String::from_str("audio/mpeg") { Some(MimeType::AudioMpeg) }
    else if *s == String::from_str("audio/aiff") { Some(MimeType::AudioAiff) }
    else if *s == String::from_str("audio/aac") { Some(MimeType::AudioAac) }
    else if *s == String::from_str("audio/ogg") { Some(MimeType::AudioOgg) }
    else if *s == String::from_str("audio/flac") { Some(MimeType::AudioFlac) }
    else if *s == String::from_str("video/mp4") { Some(MimeType::VideoMp4) }
    else if *s == String::from_str("video/mpeg") { Some(MimeType::VideoMpeg) }
    else if *s == String::from_str("video/mov") { Some(MimeType::VideoMov) }
    else if *s == String::from_str("video/avi") { Some(MimeType::VideoAvi) }
    else if *s == String::from_str("video/x-flv") { Some(MimeType::VideoFlv) }
    else if *s == String::from_str("video/mpg") { Some(MimeType::VideoMpg) }
    else if *s == String::from_str("video/webm") { Some(MimeType::VideoWebm) }
    else if *s == String::from_str("video/wmv") { Some(MimeType::VideoWmv) }
    else if *s == String::from_str("video/3gpp") { Some(MimeType::Video3gpp) }
    else if *s == String::from_str("application/pdf") { Some(MimeType::ApplicationPdf) }
    else if *s == String::from_str("text/plain") { Some(MimeType::TextPlain) }
    else if *s == String::from_str("text/html") { Some(MimeType::TextHtml) }
    else if *s == String::from_str("text/css") { Some(MimeType::TextCss) }
    else if *s == String::from_str("text/javascript") { Some(MimeType::TextJavascript) }
    else if *s == String::from_str("application/x-javascript") {
        Some(MimeType::ApplicationJavascript)
    }
    else if *s == String::from_str("text/x-typescript") { Some(MimeType::TextTypescript) }
    else if *s == String::from_str("application/x-typescript") {
        Some(MimeType::ApplicationTypescript)
    }
    else if *s == String::from_str("text/csv") { Some(MimeType::TextCsv) }
    else if *s == String::from_str("text/markdown") { Some(MimeType::TextMarkdown) }
    else if *s == String::from_str("text/x-python") { Some(MimeType::TextPython) }
    else if *s == String::from_str("application/x-python-code") {
        Some(MimeType::ApplicationPythonCode)
    }
    else if *s == String::from_str("application/json") { Some(MimeType::ApplicationJson) }
    else if *s == String::from_str("text/xml") { Some(MimeType::TextXml) }
    else if *s == String::from_str("application/rtf") { Some(MimeType::ApplicationRtf) }
    else if *s == String::from_str("text/rtf") { Some(MimeType::TextRtf) }
    else { None }
}

/// Reads an `i32`.
fn i32_from_json(v: &JsonValue) -> (r: Option<i32>)
    ensures
        r == spec_i32(v@),
{
    match v {
        JsonValue::Num(n) => {
            let cs = str_to_chars(n.as_str());
            match crate::numeral::digits_to_i64(&cs) {
                Some(x) => {
                    if x < -2147483648i64 || x > 2147483647i64 {
                        None
                    } else {
                        Some(x as i32)
                    }
                },
                None => None,
            }
        },
        _ => None,
    }
}

/// Reads inline media bytes.
fn decode_blob(v: &JsonValue) -> (r: Option<Blob>)
    ensures
        match r {
            Some(b) => spec_blob(v@) == Some(b@),
            None => spec_blob(v@) is None,
        },
{
    match v {
        JsonValue::Obj(ms) => {
            let j = match obj_get2(ms, &String::from_str("mimeType"), &String::from_str(
                "mime_type",
            )) {
                Some(j) => j,
                None => {
                    return None;
                },
            };
            let mime = match &ms[j].1 {
                JsonValue::Str(m) => match mime_from_name(m) {
                    Some(x) => x,
                    None => {
                        return None;
                    },
                },
                _ => {
                    return None;
                },
            };
            let dj = match obj_get1(ms, &String::from_str("data")) {
                Some(j2) => j2,
                None => {
                    return None;
                },
            };
            match &ms[dj].1 {
                JsonValue::Str(d) => Some(Blob { mime_type: mime, data: d.clone() }),
                _ => None,
            }
        },
        _ => None,
    }
}

/// Reads a function call.
fn decode_function_call(v: &JsonValue) -> (r: Option<FunctionCall>)
    ensures
        match r {
            Some(f) => spec_function_call(v@) == Some(f@),
            None => spec_function_call(v@) is None,
        },
{
    match v {
        JsonValue::Obj(ms) => {
            let nj = match obj_get1(ms, &String::from_str("name")) {
                Some(j) => j,
                None => {
                    return None;
                },
            };
            let name = match &ms[nj].1 {
                JsonValue::Str(n) => n.clone(),
                _ => {
                    return None;
                },
            };
            match obj_get1(ms, &String::from_str("args")) {
                Some(aj) => Some(
                    FunctionCall { name, args: Some(ms[aj].1.clone_value()) },
                ),
                None => Some(FunctionCall { name, args: None }),
            }
        },
        _ => None,
    }
}

/// Reads a function response.
fn decode_function_response(v: &JsonValue) -> (r: Option<FunctionResponse>)
    ensures
        match r {
            Some(f) => spec_function_response(v@) == Some(f@),
            None => spec_function_response(v@) is None,
        },
{
    match v {
        JsonValue::Obj(ms) => {
            let nj = match obj_get1(ms, &String::from_str("name")) {
                Some(j) => j,
                None => {
                    return None;
                },
            };
            let name = match &ms[nj].1 {
                JsonValue::Str(n) => n.clone(),
                _ => {
                    return None;
                },
            };
            match obj_get1(ms, &String::from_str("response")) {
                Some(rj) => Some(
                    FunctionResponse { name, response: ms[rj].1.clone_value() },
                ),
                None => None,
            }
        },
        _ => None,
    }
}

/// Reads URI-based data.
fn decode_file_data(v: &JsonValue) -> (r: Option<FileData>)
    ensures
        match r {
            Some(f) => spec_file_data(v@) == Some(f@),
            None => spec_file_data(v@) is None,
        },
{
    match v {
        JsonValue::Obj(ms) => {
            let mime = match obj_get2(ms, &String::from_str("mimeType"), &String::from_str(
                "mime_type",
            )) {
                None => None,
                Some(j) => match &ms[j].1 {
                    JsonValue::Str(m) => match mime_from_name(m) {
                        Some(x) => Some(x),
                        None => {
                            return None;
                        },
                    },
                    _ => {
                        return None;
                    },
                },
            };
            let uj = match obj_get2(ms, &String::from_str("fileUri"), &String::from_str(
                "file_uri",
            )) {
                Some(j) => j,
                None => {
                    return None;
                },
            };
            match &ms[uj].1 {
                JsonValue::Str(u) => Some(FileData { mime_type: mime, file_uri: u.clone() }),
                _ => None,
            }
        },
        _ => None,
    }
}

/// Reads an executable-code payload.
fn decode_executable_code(v: &JsonValue) -> (r: Option<ExecutableCode>)
    ensures
        match r {
            Some(e) => spec_executable_code(v@) == Some(e@),
            None => spec_executable_code(v@) is None,
        },
{
    match v {
        JsonValue::Obj(ms) => {
            let lj = match obj_get1(ms, &String::from_str("language")) {
                Some(j) => j,
                None => {
                    return None;
                },
            };
            let language = match &ms[lj].1 {
                JsonValue::Str(l) => l.clone(),
                _ => {
                    return None;
                },
            };
            let cj = match obj_get1(ms, &String::from_str("code")) {
                Some(j) => j,
                None => {
                    return None;
                },
            };
            match &ms[cj].1 {
                JsonValue::Str(c) => Some(ExecutableCode { language, code: c.clone() }),
                _ => None,
            }
        },
        _ => None,
    }
}

/// Reads a code-execution result.
fn decode_code_execution_result(v: &JsonValue) -> (r: Option<CodeExecutionResult>)
    ensures
        match r {
            Some(c) => spec_code_execution_result(v@) == Some(c@),
            None => spec_code_execution_result(v@) is None,
        },
{
    match v {
        JsonValue::Obj(ms) => {
            let oj = match obj_get1(ms, &String::from_str("outcome")) {
                Some(j) => j,
                None => {
                    return None;
                },
            };
            let outcome = match &ms[oj].1 {
                JsonValue::Str(o) => o.clone(),
                _ => {
                    return None;
                },
            };
            match obj_get1(ms, &String::from_str("output")) {
                None => Some(CodeExecutionResult { outcome, output: None }),
                Some(j) => match &ms[j].1 {
                    JsonValue::Str(out) => Some(
                        CodeExecutionResult { outcome, output: Some(out.clone()) },
                    ),
                    _ => None,
                },
            }
        },
        _ => None,
    }
}

/// Reads video metadata.
fn decode_video_metadata(v: &JsonValue) -> (r: Option<VideoMetadata>)
    ensures
        match r {
            Some(m) => spec_video_metadata(v@) == Some(m@),
            None => spec_video_metadata(v@) is None,
        },
{
    match v {
        JsonValue::Obj(ms) => {
            let so = match obj_get2(ms, &String::from_str("startOffset"), &String::from_str(
                "start_offset",
            )) {
                None => None,
                Some(j) => match &ms[j].1 {
                    JsonValue::Str(s) => Some(s.clone()),
                    _ => {
                        return None;
                    },
                },
            };
            let eo = match obj_get2(ms, &String::from_str("endOffset"), &String::from_str(
                "end_offset",
            )) {
                None => None,
                Some(j) => match &ms[j].1 {
                    JsonValue::Str(s) => Some(s.clone()),
                    _ => {
                        return None;
                    },
                },
            };
            let fps = match obj_get1(ms, &String::from_str("fps")) {
                None => None,
                Some(j) => match &ms[j].1 {
                    JsonValue::Num(t) => Some(t.clone_number()),
                    _ => {
                        return None;
                    },
                },
            };
            Some(VideoMetadata { start_offset: so, end_offset: eo, fps })
        },
        _ => None,
    }
}

/// Reads one part, decoding any text slot as the expected type.
pub fn decode_part<T: TypedText>(v: &JsonValue) -> (r: Option<Part<T>>)
    ensures
        match r {
            Some(p) => spec_part::<T>(v@) == Some(p@),
            None => spec_part::<T>(v@) is None,
        },
{
    match v {
        JsonValue::Obj(ms) => {
            let text = match obj_get1(ms, &String::from_str("text")) {
                None => None,
                Some(j) => match &ms[j].1 {
                    JsonValue::Str(s) => match T::decode(s.as_str()) {
                        Ok(x) => {
                            let js = JsonString::new(x);
                            proof {
                                js.lemma_view();
                            }
                            Some(js)
                        },
                        Err(_) => {
                            return None;
                        },
                    },
                    _ => {
                        return None;
                    },
                },
            };
            let inline = match obj_get2(ms, &String::from_str("inlineData"), &String::from_str(
                "inline_data",
            )) {
                None => None,
                Some(j) => match decode_blob(&ms[j].1) {
                    Some(b) => Some(b),
                    None => {
                        return None;
                    },
                },
            };
            let fcall = match obj_get2(ms, &String::from_str("functionCall"), &String::from_str(
                "function_call",
            )) {
                None => None,
                Some(j) => match decode_function_call(&ms[j].1) {
                    Some(f) => Some(f),
                    None => {
                        return None;
                    },
                },
            };
            let fresp = match obj_get2(
                ms,
                &String::from_str("functionResponse"),
                &String::from_str("function_response"),
            ) {
                None => None,
                Some(j) => match decode_function_response(&ms[j].1) {
                    Some(f) => Some(f),
                    None => {
                        return None;
                    },
                },
            };
            let fdata = match obj_get2(ms, &String::from_str("fileData"), &String::from_str(
                "file_data",
            )) {
                None => None,
                Some(j) => match decode_file_data(&ms[j].1) {
                    Some(f) => Some(f),
                    None => {
                        return None;
                    },
                },
            };
            let ecode = match obj_get2(ms, &String::from_str("executableCode"), &String::from_str(
                "executable_code",
            )) {
                None => None,
                Some(j) => match decode_executable_code(&ms[j].1) {
                    Some(e) => Some(e),
                    None => {
                        return None;
                    },
                },
            };
            let cres = match obj_get2(
                ms,
                &String::from_str("codeExecutionResult"),
                &String::from_str("code_execution_result"),
            ) {
                None => None,
                Some(j) => match decode_code_execution_result(&ms[j].1) {
                    Some(c) => Some(c),
                    None => {
                        return None;
                    },
                },
            };
            let vmeta = match obj_get2(ms, &String::from_str("videoMetadata"), &String::from_str(
                "video_metadata",
            )) {
                None => None,
                Some(j) => match decode_video_metadata(&ms[j].1) {
                    Some(m) => Some(m),
                    None => {
                        return None;
                    },
                },
            };
            Some(
                Part {
                    text,
                    inline_data: inline,
                    function_call: fcall,
                    function_response: fresp,
                    file_data: fdata,
                    executable_code: ecode,
                    code_execution_result: cres,
                    video_metadata: vmeta,
                },
            )
        },
        _ => None,
    }
}

/// Reads the parts at or after `i`, failing if any fails.
fn decode_parts<T: TypedText>(es: &Vec<JsonValue>, i: usize) -> (r: Option<Vec<Part<T>>>)
    requires
        i <= es@.len(),
    ensures
        match r {
            Some(ps) => spec_parts::<T>(
                view_elems(es@).subrange(i as int, es@.len() as int),
            ) == Some(parts_view(ps@)),
            None => spec_parts::<T>(
                view_elems(es@).subrange(i as int, es@.len() as int),
            ) is None,
        },
    decreases es@.len() - i,
{
    proof {
        lemma_view_elems(es@);
    }
    let ghost sub = view_elems(es@).subrange(i as int, es@.len() as int);
    if i >= es.len() {
        let empty: Vec<Part<T>> = Vec::new();
        proof {
            assert(sub =~= Seq::<JVal>::empty());
            assert(parts_view(empty@) =~= Seq::<PartView<T::V>>::empty());
        }
        return Some(empty);
    }
    proof {
        assert(sub[0] == es@[i as int]@);
    }
    let p = match decode_part::<T>(&es[i]) {
        Some(p) => p,
        None => {
            return None;
        },
    };
    proof {
        assert(sub.drop_first() =~= view_elems(es@).subrange(i + 1 as int, es@.len() as int));
    }
    match decode_parts::<T>(es, i + 1) {
        Some(rest0) => {
            let ghost rest_v = parts_view(rest0@);
            let mut rest = rest0;
            rest.insert(0, p);
            proof {
                assert forall|x: int| 0 <= x < rest@.len() implies parts_view(rest@)[x] == (
                seq![p@] + rest_v)[x] by {
                    if x > 0 {
                        assert(rest@[x] == rest0@[x - 1]);
                    } else {
                        assert(rest@[0] == p);
                    }
                }
                assert(parts_view(rest@) =~= seq![p@] + rest_v);
            }
            Some(rest)
        },
        None => None,
    }
}

/// Reads a content block.
pub fn decode_content<T: TypedText>(v: &JsonValue) -> (r: Option<Content<T>>)
    ensures
        match r {
            Some(c) => spec_content::<T>(v@) == Some(c@),
            None => spec_content::<T>(v@) is None,
        },
{
    match v {
        JsonValue::Obj(ms) => {
            let role = match obj_get1(ms, &String::from_str("role")) {
                None => None,
                Some(j) => match role_from_json(&ms[j].1) {
                    Some(ro) => Some(ro),
                    None => {
                        return None;
                    },
                },
            };
            let pj = match obj_get1(ms, &String::from_str("parts")) {
                Some(j) => j,
                None => {
                    return None;
                },
            };
            match &ms[pj].1 {
                JsonValue::Arr(es) => {
                    proof {
                        lemma_view_elems(es@);
                        assert(view_elems(es@).subrange(0, es@.len() as int) =~= view_elems(es@));
                    }
                    match decode_parts::<T>(es, 0) {
                        Some(parts) => {
                            let c = Content { role, parts };
                            proof {
                                assert(c@.parts =~= parts_view(c.parts@));
                            }
                            Some(c)
                        },
                        None => None,
                    }
                },
                _ => None,
            }
        },
        _ => None,
    }
}

/// Reads one safety rating.
fn decode_safety_rating(v: &JsonValue) -> (r: Option<SafetyRating>)
    ensures
        match r {
            Some(s) => spec_safety_rating(v@) == Some(s@),
            None => spec_safety_rating(v@) is None,
        },
{
    match v {
        JsonValue::Obj(ms) => {
            let cj = match obj_get1(ms, &String::from_str("category")) {
                Some(j) => j,
                None => {
                    return None;
                },
            };
            let category = match &ms[cj].1 {
                JsonValue::Str(c) => c.clone(),
                _ => {
                    return None;
                },
            };
            let pj = match obj_get1(ms, &String::from_str("probability")) {
                Some(j) => j,
                None => {
                    return None;
                },
            };
            let probability = match &ms[pj].1 {
                JsonValue::Str(p) => p.clone(),
                _ => {
                    return None;
                },
            };
            let blocked = match obj_get1(ms, &String::from_str("blocked")) {
                None => false,
                Some(j) => match &ms[j].1 {
                    JsonValue::Bool(b) => *b,
                    _ => {
                        return None;
                    },
                },
            };
            Some(SafetyRating { category, probability, blocked })
        },
        _ => None,
    }
}

/// Reads the safety ratings at or after `i`.
fn decode_safety_ratings(es: &Vec<JsonValue>, i: usize) -> (r: Option<Vec<SafetyRating>>)
    requires
        i <= es@.len(),
    ensures
        match r {
            Some(rs) => spec_safety_ratings(
                view_elems(es@).subrange(i as int, es@.len() as int),
            ) == Some(ratings_view(rs@)),
            None => spec_safety_ratings(
                view_elems(es@).subrange(i as int, es@.len() as int),
            ) is None,
        },
    decreases es@.len() - i,
{
    proof {
        lemma_view_elems(es@);
    }
    let ghost sub = view_elems(es@).subrange(i as int, es@.len() as int);
    if i >= es.len() {
        let empty: Vec<SafetyRating> = Vec::new();
        proof {
            assert(sub =~= Seq::<JVal>::empty());
            assert(ratings_view(empty@) =~= Seq::<SafetyRatingView>::empty());
        }
        return Some(empty);
    }
    proof {
        assert(sub[0] == es@[i as int]@);
    }
    let s = match decode_safety_rating(&es[i]) {
        Some(s) => s,
        None => {
            return None;
        },
    };
    proof {
        assert(sub.drop_first() =~= view_elems(es@).subrange(i + 1 as int, es@.len() as int));
    }
    match decode_safety_ratings(es, i + 1) {
        Some(rest0) => {
            let ghost rest_v = ratings_view(rest0@);
            let mut rest = rest0;
            rest.insert(0, s);
            proof {
                assert forall|x: int| 0 <= x < rest@.len() implies ratings_view(rest@)[x] == (
                seq![s@] + rest_v)[x] by {
                    if x > 0 {
                        assert(rest@[x] == rest0@[x - 1]);
                    } else {
                        assert(rest@[0] == s);
                    }
                }
                assert(ratings_view(rest@) =~= seq![s@] + rest_v);
            }
            Some(rest)
        },
        None => None,
    }
}

/// One alternative completion: its content, why generation stopped,
/// and its safety ratings.
#[derive(Debug)]
pub struct Candidate<T = String> {
    pub content: Content<T>,
    pub finish_reason: Option<String>,
    pub safety_ratings: Vec<SafetyRating>,
}

impl<T: View> View for Candidate<T> {
    type V = CandidateView<T::V>;

    open spec fn view(&self) -> CandidateView<T::V> {
        CandidateView {
            content: self.content@,
            finish_reason: match self.finish_reason {
                Some(s) => Some(s@),
                None => None,
            },
            safety_ratings: Seq::new(
                self.safety_ratings@.len(),
                |i: int| self.safety_ratings@[i]@,
            ),
        }
    }
}

/// Feedback about the prompt.
#[derive(Debug)]
pub struct PromptFeedback {
    pub block_reason: Option<String>,
    pub safety_ratings: Vec<SafetyRating>,
}

impl View for PromptFeedback {
    type V = PromptFeedbackView;

    open spec fn view(&self) -> PromptFeedbackView {
        PromptFeedbackView {
            block_reason: match self.block_reason {
                Some(s) => Some(s@),
                None => None,
            },
            safety_ratings: Seq::new(
                self.safety_ratings@.len(),
                |i: int| self.safety_ratings@[i]@,
            ),
        }
    }
}

/// Token usage counters.
#[derive(Debug)]
pub struct UsageMetadata {
    pub prompt_token_count: Option<i32>,
    pub candidates_token_count: Option<i32>,
    pub total_token_count: Option<i32>,
}

impl View for UsageMetadata {
    type V = UsageMetadataView;

    open spec fn view(&self) -> UsageMetadataView {
        UsageMetadataView {
            prompt_token_count: self.prompt_token_count,
            candidates_token_count: self.candidates_token_count,
            total_token_count: self.total_token_count,
        }
    }
}

/// The decoded response envelope.
#[derive(Debug)]
pub struct GenerateContentResponse<T = String> {
    pub candidates: Vec<Candidate<T>>,
    pub prompt_feedback: Option<PromptFeedback>,
    pub usage_metadata: Option<UsageMetadata>,
}

impl<T: View> View for GenerateContentResponse<T> {
    type V = GenerateContentResponseView<T::V>;

    open spec fn view(&self) -> GenerateContentResponseView<T::V> {
        GenerateContentResponseView {
            candidates: Seq::new(self.candidates@.len(), |i: int| self.candidates@[i]@),
            prompt_feedback: match self.prompt_feedback {
                Some(f) => Some(f@),
                None => None,
            },
            usage_metadata: match self.usage_metadata {
                Some(u) => Some(u@),
                None => None,
            },
        }
    }
}

/// The abstract values of a sequence of candidates.
pub open spec fn candidates_view<T: View>(cs: Seq<Candidate<T>>) -> Seq<CandidateView<T::V>> {
    Seq::new(cs.len(), |i: int| cs[i]@)
}

/// Reads one candidate.
pub fn decode_candidate<T: TypedText>(v: &JsonValue) -> (r: Option<Candidate<T>>)
    ensures
        match r {
            Some(c) => spec_candidate::<T>(v@) == Some(c@),
            None => spec_candidate::<T>(v@) is None,
        },
{
    match v {
        JsonValue::Obj(ms) => {
            let cj = match obj_get1(ms, &String::from_str("content")) {
                Some(j) => j,
                None => {
                    return None;
                },
            };
            let content = match decode_content::<T>(&ms[cj].1) {
                Some(c) => c,
                None => {
                    return None;
                },
            };
            let finish_reason = match obj_get2(
                ms,
                &String::from_str("finishReason"),
                &String::from_str("finish_reason"),
            ) {
                None => None,
                Some(j) => match &ms[j].1 {
                    JsonValue::Str(s) => Some(s.clone()),
                    _ => {
                        return None;
                    },
                },
            };
            let safety_ratings = match obj_get2(
                ms,
                &String::from_str("safetyRatings"),
                &String::from_str("safety_ratings"),
            ) {
                None => {
                    let empty: Vec<SafetyRating> = Vec::new();
                    proof {
                        assert(ratings_view(empty@) =~= Seq::<SafetyRatingView>::empty());
                    }
                    empty
                },
                Some(j) => match &ms[j].1 {
                    JsonValue::Arr(es) => {
                        proof {
                            lemma_view_elems(es@);
                            assert(view_elems(es@).subrange(0, es@.len() as int) =~= view_elems(
                                es@,
                            ));
                        }
                        match decode_safety_ratings(es, 0) {
                            Some(rs) => rs,
                            None => {
                                return None;
                            },
                        }
                    },
                    _ => {
                        return None;
                    },
                },
            };
            let c = Candidate { content, finish_reason, safety_ratings };
            proof {
                assert(c@.safety_ratings =~= ratings_view(c.safety_ratings@));
            }
            Some(c)
        },
        _ => None,
    }
}

/// Reads the candidates at or after `i`.
fn decode_candidates<T: TypedText>(es: &Vec<JsonValue>, i: usize) -> (r: Option<
    Vec<Candidate<T>>,
>)
    requires
        i <= es@.len(),
    ensures
        match r {
            Some(cs) => spec_candidates::<T>(
                view_elems(es@).subrange(i as int, es@.len() as int),
            ) == Some(candidates_view(cs@)),
            None => spec_candidates::<T>(
                view_elems(es@).subrange(i as int, es@.len() as int),
            ) is None,
        },
    decreases es@.len() - i,
{
    proof {
        lemma_view_elems(es@);
    }
    let ghost sub = view_elems(es@).subrange(i as int, es@.len() as int);
    if i >= es.len() {
        let empty: Vec<Candidate<T>> = Vec::new();
        proof {
            assert(sub =~= Seq::<JVal>::empty());
            assert(candidates_view(empty@) =~= Seq::<CandidateView<T::V>>::empty());
        }
        return Some(empty);
    }
    proof {
        assert(sub[0] == es@[i as int]@);
    }
    let c = match decode_candidate::<T>(&es[i]) {
        Some(c) => c,
        None => {
            return None;
        },
    };
    proof {
        assert(sub.drop_first() =~= view_elems(es@).subrange(i + 1 as int, es@.len() as int));
    }
    match decode_candidates::<T>(es, i + 1) {
        Some(rest0) => {
            let ghost rest_v = candidates_view(rest0@);
            let mut rest = rest0;
            rest.insert(0, c);
            proof {
                assert forall|x: int| 0 <= x < rest@.len() implies candidates_view(rest@)[x] == (
                seq![c@] + rest_v)[x] by {
                    if x > 0 {
                        assert(rest@[x] == rest0@[x - 1]);
                    } else {
                        assert(rest@[0] == c);
                    }
                }
                assert(candidates_view(rest@) =~= seq![c@] + rest_v);
            }
            Some(rest)
        },
        None => None,
    }
}

/// Reads the prompt feedback.
fn decode_prompt_feedback(v: &JsonValue) -> (r: Option<PromptFeedback>)
    ensures
        match r {
            Some(f) => spec_prompt_feedback(v@) == Some(f@),
            None => spec_prompt_feedback(v@) is None,
        },
{
    match v {
        JsonValue::Obj(ms) => {
            let block_reason = match obj_get2(
                ms,
                &String::from_str("blockReason"),
                &String::from_str("block_reason"),
            ) {
                None => None,
                Some(j) => match &ms[j].1 {
                    JsonValue::Str(s) => Some(s.clone()),
                    _ => {
                        return None;
                    },
                },
            };
            let safety_ratings = match obj_get2(
                ms,
                &String::from_str("safetyRatings"),
                &String::from_str("safety_ratings"),
            ) {
                None => {
                    let empty: Vec<SafetyRating> = Vec::new();
                    proof {
                        assert(ratings_view(empty@) =~= Seq::<SafetyRatingView>::empty());
                    }
                    empty
                },
                Some(j) => match &ms[j].1 {
                    JsonValue::Arr(es) => {
                        proof {
                            lemma_view_elems(es@);
                            assert(view_elems(es@).subrange(0, es@.len() as int) =~= view_elems(
                                es@,
                            ));
                        }
                        match decode_safety_ratings(es, 0) {
                            Some(rs) => rs,
                            None => {
                                return None;
                            },
                        }
                    },
                    _ => {
                        return None;
                    },
                },
            };
            let f = PromptFeedback { block_reason, safety_ratings };
            proof {
                assert(f@.safety_ratings =~= ratings_view(f.safety_ratings@));
            }
            Some(f)
        },
        _ => None,
    }
}

/// Reads the token-usage counters.
fn decode_usage_metadata(v: &JsonValue) -> (r: Option<UsageMetadata>)
    ensures
        match r {
            Some(u) => spec_usage_metadata(v@) == Some(u@),
            None => spec_usage_metadata(v@) is None,
        },
{
    match v {
        JsonValue::Obj(ms) => {
            let p = match obj_get2(
                ms,
                &String::from_str("promptTokenCount"),
                &String::from_str("prompt_token_count"),
            ) {
                None => None,
                Some(j) => match i32_from_json(&ms[j].1) {
                    Some(n) => Some(n),
                    None => {
                        return None;
                    },
                },
            };
            let c = match obj_get2(
                ms,
                &String::from_str("candidatesTokenCount"),
                &String::from_str("candidates_token_count"),
            ) {
                None => None,
                Some(j) => match i32_from_json(&ms[j].1) {
                    Some(n) => Some(n),
                    None => {
                        return None;
                    },
                },
            };
            let t = match obj_get2(
                ms,
                &String::from_str("totalTokenCount"),
                &String::from_str("total_token_count"),
            ) {
                None => None,
                Some(j) => match i32_from_json(&ms[j].1) {
                    Some(n) => Some(n),
                    None => {
                        return None;
                    },
                },
            };
            Some(
                UsageMetadata {
                    prompt_token_count: p,
                    candidates_token_count: c,
                    total_token_count: t,
                },
            )
        },
        _ => None,
    }
}

impl<T: TypedText> GenerateContentResponse<T> {
    /// Decodes a whole response body from its wire text, exactly as
    /// [`spec_decode_response`] describes.  A failure anywhere in the
    /// body — a malformed document, a wrong shape, or the typed text
    /// of any part not decoding — fails the whole envelope.
    pub fn decode_json(body: &str) -> (r: Result<GenerateContentResponse<T>, CodecError>)
        ensures
            (match r {
                Ok(resp) => spec_decode_response::<T>(body@) == Some(resp@),
                Err(e) => spec_decode_response::<T>(body@) is None && e
                    == CodecError::DeserializationError,
            }),
    {
        let parsed = match parse_json(body) {
            Some(v) => v,
            None => {
                return Err(CodecError::DeserializationError);
            },
        };
        match &parsed {
            JsonValue::Obj(ms) => {
                let candidates = match obj_get1(ms, &String::from_str("candidates")) {
                    None => {
                        let empty: Vec<Candidate<T>> = Vec::new();
                        proof {
                            assert(candidates_view(empty@) =~= Seq::<CandidateView<T::V>>::empty());
                        }
                        empty
                    },
                    Some(j) => match &ms[j].1 {
                        JsonValue::Arr(es) => {
                            proof {
                                lemma_view_elems(es@);
                                assert(view_elems(es@).subrange(0, es@.len() as int)
                                    =~= view_elems(es@));
                            }
                            match decode_candidates::<T>(es, 0) {
                                Some(cs) => cs,
                                None => {
                                    return Err(CodecError::DeserializationError);
                                },
                            }
                        },
                        _ => {
                            return Err(CodecError::DeserializationError);
                        },
                    },
                };
                let prompt_feedback = match obj_get2(
                    ms,
                    &String::from_str("promptFeedback"),
                    &String::from_str("prompt_feedback"),
                ) {
                    None => None,
                    Some(j) => match decode_prompt_feedback(&ms[j].1) {
                        Some(f) => Some(f),
                        None => {
                            return Err(CodecError::DeserializationError);
                        },
                    },
                };
                let usage_metadata = match obj_get2(
                    ms,
                    &String::from_str("usageMetadata"),
                    &String::from_str("usage_metadata"),
                ) {
                    None => None,
                    Some(j) => match decode_usage_metadata(&ms[j].1) {
                        Some(u) => Some(u),
                        None => {
                            return Err(CodecError::DeserializationError);
                        },
                    },
                };
                let resp = GenerateContentResponse { candidates, prompt_feedback, usage_metadata };
                proof {
                    assert(resp@.candidates =~= candidates_view(resp.candidates@));
                }
                Ok(resp)
            },
            _ => Err(CodecError::DeserializationError),
        }
    }
}

impl<T> GenerateContentResponse<T> {
    /// The first candidate, if any.
    pub fn first_candidate(&self) -> (r: Option<&Candidate<T>>)
        ensures
            match r {
                Some(c) => self.candidates@.len() > 0 && *c == self.candidates@[0],
                None => self.candidates@.len() == 0,
            },
    {
        if self.candidates.len() > 0 {
            Some(&self.candidates[0])
        } else {
            None
        }
    }

    /// The first candidate's content, if any.
    pub fn first_content(&self) -> (r: Option<&Content<T>>)
        ensures
            match r {
                Some(c) => self.candidates@.len() > 0 && *c == self.candidates@[0].content,
                None => self.candidates@.len() == 0,
            },
    {
        match self.first_candidate() {
            Some(c) => Some(&c.content),
            None => None,
        }
    }

    /// The first candidate's first text, if any.
    pub fn first_text(&self) -> (r: Option<&T>)
        ensures
            match r {
                Some(t) => self.candidates@.len() > 0 && self.candidates@[0].content.parts@.len()
                    > 0 && (self.candidates@[0].content.parts@[0].text matches Some(js) && *t
                    == js.spec_inner()),
                None => self.candidates@.len() == 0 || self.candidates@[0].content.parts@.len()
                    == 0 || self.candidates@[0].content.parts@[0].text is None,
            },
    {
        match self.first_content() {
            Some(c) => c.first_text(),
            None => None,
        }
    }
}

} // verus!
