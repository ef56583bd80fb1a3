//! The wire form of requests.
//!
//! Each shape is lowered to a JSON value whose members carry the
//! lower-camel-case wire keys; absent optional fields are omitted.
//! The `*_jval` functions are the specification; the emitters
//! produce exactly those values, and [`GenerateContentRequest::to_json`]
//! prints the whole request.

use vstd::prelude::*;
use vstd::string::StringExecFns;

use crate::content::{
    role_name, Blob, BlobView, CodeExecutionResult, CodeExecutionResultView, Content, ContentView,
    ExecutableCode, ExecutableCodeView, FileData, FileDataView, FunctionCall, FunctionCallView,
    FunctionResponse, FunctionResponseView, Part, PartView, VideoMetadata, VideoMetadataView,
};
use crate::json::{
    lemma_view_elems_push, lemma_view_members, lemma_view_members_push, view_elems, view_members,
    JVal, JsonNumber, JsonValue,
};
use crate::json_text::jprint;
use crate::numeral::{dec_token_int, i64_to_digits, lemma_dec_token_int_token};
use crate::request::{
    mime_name, response_mime_name, GenerateContentRequest, GenerationConfigCore, SafetySetting,
    SafetySettingView, SchemaSlot,
};

verus! {

/// A singleton member list when the value is present, empty when not.
pub open spec fn maybe_member(k: Seq<char>, v: Option<JVal>) -> Seq<(Seq<char>, JVal)> {
    match v {
        Some(x) => seq![(k, x)],
        None => Seq::empty(),
    }
}

/// The wire value of inline media bytes.
pub open spec fn blob_jval(b: BlobView) -> JVal {
    JVal::Obj(
        seq![("mimeType"@, JVal::Str(mime_name(b.mime_type))), ("data"@, JVal::Str(b.data))],
    )
}

/// The wire value of a function call.
pub open spec fn function_call_jval(f: FunctionCallView) -> JVal {
    JVal::Obj(seq![("name"@, JVal::Str(f.name))] + maybe_member("args"@, f.args))
}

/// The wire value of a function response.
pub open spec fn function_response_jval(f: FunctionResponseView) -> JVal {
    JVal::Obj(seq![("name"@, JVal::Str(f.name)), ("response"@, f.response)])
}

/// The wire value of URI-based data.
pub open spec fn file_data_jval(f: FileDataView) -> JVal {
    JVal::Obj(
        maybe_member(
            "mimeType"@,
            match f.mime_type {
                Some(m) => Some(JVal::Str(mime_name(m))),
                None => None,
            },
        ) + seq![("fileUri"@, JVal::Str(f.file_uri))],
    )
}

/// The wire value of an executable-code payload.
pub open spec fn executable_code_jval(e: ExecutableCodeView) -> JVal {
    JVal::Obj(seq![("language"@, JVal::Str(e.language)), ("code"@, JVal::Str(e.code))])
}

/// The wire value of a code-execution result.
pub open spec fn code_execution_result_jval(c: CodeExecutionResultView) -> JVal {
    JVal::Obj(
        seq![("outcome"@, JVal::Str(c.outcome))] + maybe_member(
            "output"@,
            match c.output {
                Some(o) => Some(JVal::Str(o)),
                None => None,
            },
        ),
    )
}

/// The wire value of video metadata.
pub open spec fn video_metadata_jval(m: VideoMetadataView) -> JVal {
    JVal::Obj(
        maybe_member(
            "startOffset"@,
            match m.start_offset {
                Some(o) => Some(JVal::Str(o)),
                None => None,
            },
        ) + maybe_member(
            "endOffset"@,
            match m.end_offset {
                Some(o) => Some(JVal::Str(o)),
                None => None,
            },
        ) + maybe_member(
            "fps"@,
            match m.fps {
                Some(t) => Some(JVal::Num(t)),
                None => None,
            },
        ),
    )
}

/// The wire value of a safety setting.
pub open spec fn safety_setting_jval(s: SafetySettingView) -> JVal {
    JVal::Obj(
        seq![("category"@, JVal::Str(s.category)), ("threshold"@, JVal::Str(s.threshold))],
    )
}

/// The wire value of a list of strings.
pub open spec fn strings_jval(ss: Seq<String>) -> JVal {
    JVal::Arr(Seq::new(ss.len(), |i: int| JVal::Str(ss[i]@)))
}

/// The wire members of a part whose text is plain.
pub open spec fn part_members(p: PartView<Seq<char>>) -> Seq<(Seq<char>, JVal)> {
    maybe_member(
        "text"@,
        match p.text {
            Some(t) => Some(JVal::Str(t)),
            None => None,
        },
    ) + maybe_member(
        "inlineData"@,
        match p.inline_data {
            Some(b) => Some(blob_jval(b)),
            None => None,
        },
    ) + maybe_member(
        "functionCall"@,
        match p.function_call {
            Some(f) => Some(function_call_jval(f)),
            None => None,
        },
    ) + maybe_member(
        "functionResponse"@,
        match p.function_response {
            Some(f) => Some(function_response_jval(f)),
            None => None,
        },
    ) + maybe_member(
        "fileData"@,
        match p.file_data {
            Some(f) => Some(file_data_jval(f)),
            None => None,
        },
    ) + maybe_member(
        "executableCode"@,
        match p.executable_code {
            Some(e) => Some(executable_code_jval(e)),
            None => None,
        },
    ) + maybe_member(
        "codeExecutionResult"@,
        match p.code_execution_result {
            Some(c) => Some(code_execution_result_jval(c)),
            None => None,
        },
    ) + maybe_member(
        "videoMetadata"@,
        match p.video_metadata {
            Some(m) => Some(video_metadata_jval(m)),
            None => None,
        },
    )
}

/// The wire value of a part.
pub open spec fn part_jval(p: PartView<Seq<char>>) -> JVal {
    JVal::Obj(part_members(p))
}

/// The wire value of a content block.
pub open spec fn content_jval(c: ContentView<Seq<char>>) -> JVal {
    JVal::Obj(
        maybe_member(
            "role"@,
            match c.role {
                Some(r) => Some(JVal::Str(role_name(r))),
                None => None,
            },
        ) + seq![
            ("parts"@, JVal::Arr(Seq::new(c.parts.len(), |i: int| part_jval(c.parts[i])))),
        ],
    )
}

/// The wire members of a configuration.
pub open spec fn config_members(c: GenerationConfigCore) -> Seq<(Seq<char>, JVal)> {
    config_members_front(c) + config_members_back(c)
}

/// The first half of the configuration members.
pub open spec fn config_members_front(c: GenerationConfigCore) -> Seq<(Seq<char>, JVal)> {
    maybe_member(
        "stopSequences"@,
        match c.stop_sequences {
            Some(ss) => Some(strings_jval(ss@)),
            None => None,
        },
    ) + maybe_member(
        "responseMimeType"@,
        match c.response_mime_type {
            Some(m) => Some(JVal::Str(response_mime_name(m))),
            None => None,
        },
    ) + maybe_member(
        "responseSchema"@,
        match c.schema {
            SchemaSlot::OpenApi(v) => Some(v@),
            _ => None,
        },
    ) + maybe_member(
        "responseJsonSchema"@,
        match c.schema {
            SchemaSlot::JsonSchema(v) => Some(v@),
            _ => None,
        },
    ) + maybe_member(
        "responseModalities"@,
        match c.response_modalities {
            Some(ms) => Some(strings_jval(ms@)),
            None => None,
        },
    ) + maybe_member(
        "candidateCount"@,
        match c.candidate_count {
            Some(x) => Some(JVal::Num(dec_token_int(x as int))),
            None => None,
        },
    ) + maybe_member(
        "maxOutputTokens"@,
        match c.max_output_tokens {
            Some(x) => Some(JVal::Num(dec_token_int(x as int))),
            None => None,
        },
    ) + maybe_member(
        "temperature"@,
        match c.temperature {
            Some(n) => Some(JVal::Num(n@)),
            None => None,
        },
    ) + maybe_member(
        "topP"@,
        match c.top_p {
            Some(n) => Some(JVal::Num(n@)),
            None => None,
        },
    ) + maybe_member(
        "topK"@,
        match c.top_k {
            Some(x) => Some(JVal::Num(dec_token_int(x as int))),
            None => None,
        },
    )
}

/// The second half of the configuration members.
pub open spec fn config_members_back(c: GenerationConfigCore) -> Seq<(Seq<char>, JVal)> {
    maybe_member(
        "seed"@,
        match c.seed {
            Some(x) => Some(JVal::Num(dec_token_int(x as int))),
            None => None,
        },
    ) + maybe_member(
        "presencePenalty"@,
        match c.presence_penalty {
            Some(n) => Some(JVal::Num(n@)),
            None => None,
        },
    ) + maybe_member(
        "frequencyPenalty"@,
        match c.frequency_penalty {
            Some(n) => Some(JVal::Num(n@)),
            None => None,
        },
    ) + maybe_member(
        "responseLogprobs"@,
        match c.response_logprobs {
            Some(b) => Some(JVal::Bool(b)),
            None => None,
        },
    ) + maybe_member(
        "logprobs"@,
        match c.logprobs {
            Some(x) => Some(JVal::Num(dec_token_int(x as int))),
            None => None,
        },
    ) + maybe_member(
        "enableEnhancedCivicAnswers"@,
        match c.enable_enhanced_civic_answers {
            Some(b) => Some(JVal::Bool(b)),
            None => None,
        },
    ) + maybe_member(
        "speechConfig"@,
        match c.speech_config {
            Some(v) => Some(v@),
            None => None,
        },
    ) + maybe_member(
        "thinkingConfig"@,
        match c.thinking_config {
            Some(v) => Some(v@),
            None => None,
        },
    ) + maybe_member(
        "imageConfig"@,
        match c.image_config {
            Some(v) => Some(v@),
            None => None,
        },
    ) + maybe_member(
        "mediaResolution"@,
        match c.media_resolution {
            Some(s) => Some(JVal::Str(s@)),
            None => None,
        },
    )
}

/// The wire value of a whole request.
pub open spec fn request_jval<T>(r: GenerateContentRequest<T>) -> JVal {
    JVal::Obj(
        seq![
            (
                "contents"@,
                JVal::Arr(
                    Seq::new(r.contents@.len(), |i: int| content_jval(r.contents@[i]@)),
                ),
            ),
        ] + maybe_member(
            "generationConfig"@,
            match r.generation_config {
                Some(c) => Some(JVal::Obj(config_members(c.core))),
                None => None,
            },
        ) + maybe_member(
            "systemInstruction"@,
            match r.system_instruction {
                Some(c) => Some(content_jval(c@)),
                None => None,
            },
        ) + maybe_member(
            "safetySettings"@,
            match r.safety_settings {
                Some(ss) => Some(
                    JVal::Arr(Seq::new(ss@.len(), |i: int| safety_setting_jval(ss@[i]@))),
                ),
                None => None,
            },
        ),
    )
}

/// Appends one member and extends the ghost mirror.
fn push_member(ms: &mut Vec<(String, JsonValue)>, k: &'static str, v: JsonValue)
    ensures
        view_members(final(ms)@) == view_members(old(ms)@) + maybe_member(k@, Some(v@)),
{
    let ks = String::from_str(k);
    proof {
        lemma_view_members_push(ms@, (ks, v));
    }
    let ghost before = ms@;
    ms.push((ks, v));
    proof {
        assert(view_members(ms@) =~= view_members(before) + maybe_member(k@, Some(v@)));
    }
}

/// The JSON number of an `i32`.
fn i32_number(v: i32) -> (r: JsonNumber)
    ensures
        r@ == dec_token_int(v as int),
{
    let digits = i64_to_digits(v as i64);
    proof {
        lemma_dec_token_int_token(v as int);
    }
    match JsonNumber::from_chars(&digits) {
        Some(n) => n,
        None => {
            proof {
                assert(false);
            }
            vstd::pervasive::unreached()
        },
    }
}

/// Emits inline media bytes.
fn blob_to_json(b: &Blob) -> (r: JsonValue)
    ensures
        r@ == blob_jval(b@),
{
    let mut ms: Vec<(String, JsonValue)> = Vec::new();
    assert(view_members(ms@) =~= Seq::<(Seq<char>, JVal)>::empty());
    push_member(&mut ms, "mimeType", JsonValue::Str(String::from_str(b.mime_type.wire_name())));
    push_member(&mut ms, "data", JsonValue::Str(b.data.clone()));
    let ghost msv = ms@;
    let r = JsonValue::Obj(ms);
    proof {
        assert(view_members(msv) =~= blob_jval(b@)->Obj_0);
    }
    r
}

/// Emits a function call.
fn function_call_to_json(f: &FunctionCall) -> (r: JsonValue)
    ensures
        r@ == function_call_jval(f@),
{
    let mut ms: Vec<(String, JsonValue)> = Vec::new();
    assert(view_members(ms@) =~= Seq::<(Seq<char>, JVal)>::empty());
    push_member(&mut ms, "name", JsonValue::Str(f.name.clone()));
    match &f.args {
        Some(a) => {
            push_member(&mut ms, "args", a.clone_value());
        },
        None => {},
    }
    let ghost msv = ms@;
    let r = JsonValue::Obj(ms);
    proof {
        assert(view_members(msv) =~= function_call_jval(f@)->Obj_0);
    }
    r
}

/// Emits a function response.
fn function_response_to_json(f: &FunctionResponse) -> (r: JsonValue)
    ensures
        r@ == function_response_jval(f@),
{
    let mut ms: Vec<(String, JsonValue)> = Vec::new();
    assert(view_members(ms@) =~= Seq::<(Seq<char>, JVal)>::empty());
    push_member(&mut ms, "name", JsonValue::Str(f.name.clone()));
    push_member(&mut ms, "response", f.response.clone_value());
    let ghost msv = ms@;
    let r = JsonValue::Obj(ms);
    proof {
        assert(view_members(msv) =~= function_response_jval(f@)->Obj_0);
    }
    r
}

/// Emits URI-based data.
fn file_data_to_json(f: &FileData) -> (r: JsonValue)
    ensures
        r@ == file_data_jval(f@),
{
    let mut ms: Vec<(String, JsonValue)> = Vec::new();
    assert(view_members(ms@) =~= Seq::<(Seq<char>, JVal)>::empty());
    match &f.mime_type {
        Some(m) => {
            push_member(&mut ms, "mimeType", JsonValue::Str(String::from_str(m.wire_name())));
        },
        None => {},
    }
    push_member(&mut ms, "fileUri", JsonValue::Str(f.file_uri.clone()));
    let ghost msv = ms@;
    let r = JsonValue::Obj(ms);
    proof {
        assert(view_members(msv) =~= file_data_jval(f@)->Obj_0);
    }
    r
}

/// Emits an executable-code payload.
fn executable_code_to_json(e: &ExecutableCode) -> (r: JsonValue)
    ensures
        r@ == executable_code_jval(e@),
{
    let mut ms: Vec<(String, JsonValue)> = Vec::new();
    assert(view_members(ms@) =~= Seq::<(Seq<char>, JVal)>::empty());
    push_member(&mut ms, "language", JsonValue::Str(e.language.clone()));
    push_member(&mut ms, "code", JsonValue::Str(e.code.clone()));
    let ghost msv = ms@;
    let r = JsonValue::Obj(ms);
    proof {
        assert(view_members(msv) =~= executable_code_jval(e@)->Obj_0);
    }
    r
}

/// Emits a code-execution result.
fn code_execution_result_to_json(c: &CodeExecutionResult) -> (r: JsonValue)
    ensures
        r@ == code_execution_result_jval(c@),
{
    let mut ms: Vec<(String, JsonValue)> = Vec::new();
    assert(view_members(ms@) =~= Seq::<(Seq<char>, JVal)>::empty());
    push_member(&mut ms, "outcome", JsonValue::Str(c.outcome.clone()));
    match &c.output {
        Some(o) => {
            push_member(&mut ms, "output", JsonValue::Str(o.clone()));
        },
        None => {},
    }
    let ghost msv = ms@;
    let r = JsonValue::Obj(ms);
    proof {
        assert(view_members(msv) =~= code_execution_result_jval(c@)->Obj_0);
    }
    r
}

/// Emits video metadata.
fn video_metadata_to_json(m: &VideoMetadata) -> (r: JsonValue)
    ensures
        r@ == video_metadata_jval(m@),
{
    let mut ms: Vec<(String, JsonValue)> = Vec::new();
    assert(view_members(ms@) =~= Seq::<(Seq<char>, JVal)>::empty());
    match &m.start_offset {
        Some(o) => {
            push_member(&mut ms, "startOffset", JsonValue::Str(o.clone()));
        },
        None => {},
    }
    match &m.end_offset {
        Some(o) => {
            push_member(&mut ms, "endOffset", JsonValue::Str(o.clone()));
        },
        None => {},
    }
    match &m.fps {
        Some(f) => {
            push_member(&mut ms, "fps", JsonValue::Num(f.clone_number()));
        },
        None => {},
    }
    let ghost msv = ms@;
    let r = JsonValue::Obj(ms);
    proof {
        assert(view_members(msv) =~= video_metadata_jval(m@)->Obj_0);
    }
    r
}

/// Emits a safety setting.
fn safety_setting_to_json(s: &SafetySetting) -> (r: JsonValue)
    ensures
        r@ == safety_setting_jval(s@),
{
    let mut ms: Vec<(String, JsonValue)> = Vec::new();
    assert(view_members(ms@) =~= Seq::<(Seq<char>, JVal)>::empty());
    push_member(&mut ms, "category", JsonValue::Str(s.category.clone()));
    push_member(&mut ms, "threshold", JsonValue::Str(s.threshold.clone()));
    let ghost msv = ms@;
    let r = JsonValue::Obj(ms);
    proof {
        assert(view_members(msv) =~= safety_setting_jval(s@)->Obj_0);
    }
    r
}

/// Emits a list of strings.
fn strings_to_json(ss: &Vec<String>) -> (r: JsonValue)
    ensures
        r@ == strings_jval(ss@),
{
    let ghost target = Seq::new(ss@.len(), |i: int| JVal::Str(ss@[i]@));
    let mut es: Vec<JsonValue> = Vec::new();
    assert(view_elems(es@) =~= target.subrange(0, 0));
    let n = ss.len();
    let mut i: usize = 0;
    while i < n
        invariant
            i <= n,
            n == ss@.len(),
            target == Seq::new(ss@.len(), |k: int| JVal::Str(ss@[k]@)),
            view_elems(es@) == target.subrange(0, i as int),
        decreases n - i,
    {
        let e = JsonValue::Str(ss[i].clone());
        proof {
            lemma_view_elems_push(es@, e);
        }
        es.push(e);
        proof {
            assert(view_elems(es@) =~= target.subrange(0, i + 1 as int));
        }
        i = i + 1;
    }
    let ghost esv = es@;
    let r = JsonValue::Arr(es);
    proof {
        assert(target.subrange(0, n as int) =~= target);
        assert(view_elems(esv) == target);
    }
    r
}

/// Emits a part.
fn part_to_json(p: &Part<String>) -> (r: JsonValue)
    ensures
        r@ == part_jval(p@),
{
    let mut ms: Vec<(String, JsonValue)> = Vec::new();
    assert(view_members(ms@) =~= Seq::<(Seq<char>, JVal)>::empty());
    match &p.text {
        Some(js) => {
            proof {
                js.lemma_view();
            }
            push_member(&mut ms, "text", JsonValue::Str(js.inner().clone()));
        },
        None => {},
    }
    proof {
        assert(view_members(ms@) =~= maybe_member(
            "text"@,
            match p@.text {
                Some(t) => Some(JVal::Str(t)),
                None => None,
            },
        ));
    }
    match &p.inline_data {
        Some(b) => {
            push_member(&mut ms, "inlineData", blob_to_json(b));
        },
        None => {},
    }
    match &p.function_call {
        Some(f) => {
            push_member(&mut ms, "functionCall", function_call_to_json(f));
        },
        None => {},
    }
    match &p.function_response {
        Some(f) => {
            push_member(&mut ms, "functionResponse", function_response_to_json(f));
        },
        None => {},
    }
    match &p.file_data {
        Some(f) => {
            push_member(&mut ms, "fileData", file_data_to_json(f));
        },
        None => {},
    }
    match &p.executable_code {
        Some(e) => {
            push_member(&mut ms, "executableCode", executable_code_to_json(e));
        },
        None => {},
    }
    match &p.code_execution_result {
        Some(c) => {
            push_member(&mut ms, "codeExecutionResult", code_execution_result_to_json(c));
        },
        None => {},
    }
    match &p.video_metadata {
        Some(m) => {
            push_member(&mut ms, "videoMetadata", video_metadata_to_json(m));
        },
        None => {},
    }
    let ghost msv = ms@;
    let r = JsonValue::Obj(ms);
    proof {
        assert(view_members(msv) =~= part_members(p@));
    }
    r
}

/// Emits a content block.
fn content_to_json(c: &Content<String>) -> (r: JsonValue)
    ensures
        r@ == content_jval(c@),
{
    let mut ms: Vec<(String, JsonValue)> = Vec::new();
    assert(view_members(ms@) =~= Seq::<(Seq<char>, JVal)>::empty());
    match &c.role {
        Some(role) => {
            push_member(&mut ms, "role", JsonValue::Str(String::from_str(role.wire_name())));
        },
        None => {},
    }
    proof {
        assert(view_members(ms@) =~= maybe_member(
            "role"@,
            match c@.role {
                Some(r) => Some(JVal::Str(role_name(r))),
                None => None,
            },
        ));
    }
    let ghost target = Seq::new(c.parts@.len(), |i: int| part_jval(c.parts@[i]@));
    let mut es: Vec<JsonValue> = Vec::new();
    assert(view_elems(es@) =~= target.subrange(0, 0));
    let n = c.parts.len();
    let mut i: usize = 0;
    while i < n
        invariant
            i <= n,
            n == c.parts@.len(),
            target == Seq::new(c.parts@.len(), |k: int| part_jval(c.parts@[k]@)),
            view_elems(es@) == target.subrange(0, i as int),
        decreases n - i,
    {
        let e = part_to_json(&c.parts[i]);
        proof {
            lemma_view_elems_push(es@, e);
        }
        es.push(e);
        proof {
            assert(view_elems(es@) =~= target.subrange(0, i + 1 as int));
        }
        i = i + 1;
    }
    proof {
        assert(target.subrange(0, n as int) =~= target);
    }
    proof {
        assert(target =~= Seq::new(c@.parts.len(), |i: int| part_jval(c@.parts[i])));
    }
    push_member(&mut ms, "parts", JsonValue::Arr(es));
    let ghost msv = ms@;
    let r = JsonValue::Obj(ms);
    proof {
        assert(view_members(msv) =~= content_jval(c@)->Obj_0);
    }
    r
}

/// Emits the first half of a configuration's members.
#[verifier::rlimit(60)]
fn push_config_front(ms: &mut Vec<(String, JsonValue)>, c: &GenerationConfigCore)
    requires
        old(ms)@.len() == 0,
    ensures
        view_members(final(ms)@) == config_members_front(*c),
{
    proof {
        lemma_view_members(ms@);
        assert(view_members(ms@) =~= Seq::<(Seq<char>, JVal)>::empty());
    }
    match &c.stop_sequences {
        Some(ss) => {
            push_member(ms, "stopSequences", strings_to_json(ss));
        },
        None => {},
    }
    proof {
        assert(view_members(ms@) =~= maybe_member(
            "stopSequences"@,
            match c.stop_sequences {
                Some(ss) => Some(strings_jval(ss@)),
                None => None,
            },
        ));
    }
    match &c.response_mime_type {
        Some(m) => {
            push_member(ms, "responseMimeType", JsonValue::Str(String::from_str(m.wire_name())));
        },
        None => {},
    }
    match &c.schema {
        SchemaSlot::OpenApi(v) => {
            push_member(ms, "responseSchema", v.clone_value());
        },
        _ => {},
    }
    match &c.schema {
        SchemaSlot::JsonSchema(v) => {
            push_member(ms, "responseJsonSchema", v.clone_value());
        },
        _ => {},
    }
    match &c.response_modalities {
        Some(mo) => {
            push_member(ms, "responseModalities", strings_to_json(mo));
        },
        None => {},
    }
    match &c.candidate_count {
        Some(x) => {
            push_member(ms, "candidateCount", JsonValue::Num(i32_number(*x)));
        },
        None => {},
    }
    match &c.max_output_tokens {
        Some(x) => {
            push_member(ms, "maxOutputTokens", JsonValue::Num(i32_number(*x)));
        },
        None => {},
    }
    match &c.temperature {
        Some(n) => {
            push_member(ms, "temperature", JsonValue::Num(n.clone_number()));
        },
        None => {},
    }
    match &c.top_p {
        Some(n) => {
            push_member(ms, "topP", JsonValue::Num(n.clone_number()));
        },
        None => {},
    }
    match &c.top_k {
        Some(x) => {
            push_member(ms, "topK", JsonValue::Num(i32_number(*x)));
        },
        None => {},
    }
}

/// Emits the second half of a configuration's members.
#[verifier::rlimit(60)]
fn push_config_back(ms: &mut Vec<(String, JsonValue)>, c: &GenerationConfigCore)
    requires
        old(ms)@.len() == 0,
    ensures
        view_members(final(ms)@) == config_members_back(*c),
{
    proof {
        lemma_view_members(ms@);
        assert(view_members(ms@) =~= Seq::<(Seq<char>, JVal)>::empty());
    }
    match &c.seed {
        Some(x) => {
            push_member(ms, "seed", JsonValue::Num(i32_number(*x)));
        },
        None => {},
    }
    proof {
        assert(view_members(ms@) =~= maybe_member(
            "seed"@,
            match c.seed {
                Some(x) => Some(JVal::Num(dec_token_int(x as int))),
                None => None,
            },
        ));
    }
    match &c.presence_penalty {
        Some(n) => {
            push_member(ms, "presencePenalty", JsonValue::Num(n.clone_number()));
        },
        None => {},
    }
    match &c.frequency_penalty {
        Some(n) => {
            push_member(ms, "frequencyPenalty", JsonValue::Num(n.clone_number()));
        },
        None => {},
    }
    match &c.response_logprobs {
        Some(b) => {
            push_member(ms, "responseLogprobs", JsonValue::Bool(*b));
        },
        None => {},
    }
    match &c.logprobs {
        Some(x) => {
            push_member(ms, "logprobs", JsonValue::Num(i32_number(*x)));
        },
        None => {},
    }
    match &c.enable_enhanced_civic_answers {
        Some(b) => {
            push_member(ms, "enableEnhancedCivicAnswers", JsonValue::Bool(*b));
        },
        None => {},
    }
    match &c.speech_config {
        Some(v) => {
            push_member(ms, "speechConfig", v.clone_value());
        },
        None => {},
    }
    match &c.thinking_config {
        Some(v) => {
            push_member(ms, "thinkingConfig", v.clone_value());
        },
        None => {},
    }
    match &c.image_config {
        Some(v) => {
            push_member(ms, "imageConfig", v.clone_value());
        },
        None => {},
    }
    match &c.media_resolution {
        Some(s) => {
            push_member(ms, "mediaResolution", JsonValue::Str(s.clone()));
        },
        None => {},
    }
}

/// Emits a configuration.
fn config_to_json(c: &GenerationConfigCore) -> (r: JsonValue)
    ensures
        r@ == JVal::Obj(config_members(*c)),
{
    let mut ms: Vec<(String, JsonValue)> = Vec::new();
    push_config_front(&mut ms, c);
    let mut back: Vec<(String, JsonValue)> = Vec::new();
    push_config_back(&mut back, c);
    let ghost front_v = ms@;
    let ghost back_v = back@;
    ms.append(&mut back);
    proof {
        crate::json::lemma_view_members_concat(front_v, back_v);
    }
    let ghost msv = ms@;
    let r = JsonValue::Obj(ms);
    proof {
        assert(view_members(msv) == config_members(*c));
    }
    r
}

impl<T> GenerateContentRequest<T> {
    /// The request as a JSON value.
    pub fn to_json_value(&self) -> (r: JsonValue)
        ensures
            r@ == request_jval(*self),
    {
        let mut ms: Vec<(String, JsonValue)> = Vec::new();
        assert(view_members(ms@) =~= Seq::<(Seq<char>, JVal)>::empty());
        let ghost target = Seq::new(self.contents@.len(), |i: int| content_jval(self.contents@[i]@));
        let mut es: Vec<JsonValue> = Vec::new();
        assert(view_elems(es@) =~= target.subrange(0, 0));
        let n = self.contents.len();
        let mut i: usize = 0;
        while i < n
            invariant
                i <= n,
                n == self.contents@.len(),
                target == Seq::new(self.contents@.len(), |k: int| content_jval(self.contents@[k]@)),
                view_elems(es@) == target.subrange(0, i as int),
            decreases n - i,
        {
            let e = content_to_json(&self.contents[i]);
            proof {
                lemma_view_elems_push(es@, e);
            }
            es.push(e);
            proof {
                assert(view_elems(es@) =~= target.subrange(0, i + 1 as int));
            }
            i = i + 1;
        }
        proof {
            assert(target.subrange(0, n as int) =~= target);
        }
        proof {
            assert(target =~= Seq::new(
                self.contents@.len(),
                |i: int| content_jval(self.contents@[i]@),
            ));
        }
        push_member(&mut ms, "contents", JsonValue::Arr(es));
        proof {
            assert(view_members(ms@) =~= seq![
                (
                    "contents"@,
                    JVal::Arr(
                        Seq::new(self.contents@.len(), |i: int| content_jval(self.contents@[i]@)),
                    ),
                ),
            ]);
        }
        match &self.generation_config {
            Some(cfg) => {
                push_member(&mut ms, "generationConfig", config_to_json(&cfg.core));
            },
            None => {},
        }
        match &self.system_instruction {
            Some(c) => {
                push_member(&mut ms, "systemInstruction", content_to_json(c));
            },
            None => {},
        }
        match &self.safety_settings {
            Some(ss) => {
                let ghost starget = Seq::new(ss@.len(), |i: int| safety_setting_jval(ss@[i]@));
                let mut ses: Vec<JsonValue> = Vec::new();
                assert(view_elems(ses@) =~= starget.subrange(0, 0));
                let sn = ss.len();
                let mut j: usize = 0;
                while j < sn
                    invariant
                        j <= sn,
                        sn == ss@.len(),
                        starget == Seq::new(ss@.len(), |k: int| safety_setting_jval(ss@[k]@)),
                        view_elems(ses@) == starget.subrange(0, j as int),
                    decreases sn - j,
                {
                    let e = safety_setting_to_json(&ss[j]);
                    proof {
                        lemma_view_elems_push(ses@, e);
                    }
                    ses.push(e);
                    proof {
                        assert(view_elems(ses@) =~= starget.subrange(0, j + 1 as int));
                    }
                    j = j + 1;
                }
                proof {
                    assert(starget.subrange(0, sn as int) =~= starget);
                }
                push_member(&mut ms, "safetySettings", JsonValue::Arr(ses));
            },
            None => {},
        }
        let ghost msv = ms@;
        let r = JsonValue::Obj(ms);
        proof {
            assert(view_members(msv) =~= request_jval(*self)->Obj_0);
        }
        r
    }

    /// The request as JSON text, ready to send.
    pub fn to_json(&self) -> (r: String)
        ensures
            r@ == jprint(request_jval(*self)),
    {
        let v = self.to_json_value();
        v.to_text()
    }
}

} // verus!
