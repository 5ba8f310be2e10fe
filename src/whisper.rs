//! The upstream transcription client's logic: the outbound request, as plain
//! values, and the interpretation of the upstream reply.
use crate::error::AppError;
use crate::routes::transcribe::{alias_code, normalize_language};
use crate::text::{lower_of, trimmed};
use crate::upload::{opt_view, UploadRequest};
use vstd::prelude::*;

verus! {

/// The upstream transcription endpoint.
pub const WHISPER_URL: &'static str = "https://api.openai.com/v1/audio/transcriptions";

/// The upstream model identifier.
pub const WHISPER_MODEL: &'static str = "whisper-1";

/// The response format asked of the upstream service.
pub const RESPONSE_FORMAT: &'static str = "json";

/// The bound on one upstream call, in seconds.
pub const TIMEOUT_SECS: u64 = 30;

/// The content of one part of the outbound multipart form.
#[derive(Debug, Clone)]
pub enum PartBody {
    Text(String),
    File { bytes: Vec<u8>, filename: String, mime_type: String },
}

/// One named part of the outbound multipart form.
#[derive(Debug, Clone)]
pub struct FormPart {
    pub name: String,
    pub body: PartBody,
}

/// Everything needed to send one upstream request.
#[derive(Debug, Clone)]
pub struct UpstreamRequest {
    pub url: String,
    /// The value of the `Authorization` header.
    pub authorization: String,
    pub parts: Vec<FormPart>,
    pub timeout_secs: u64,
}

/// Whether `p` is a text part with the given name and value.
pub open spec fn is_text_part(p: FormPart, name: Seq<char>, value: Seq<char>) -> bool {
    &&& p.name@ == name
    &&& p.body matches PartBody::Text(v) && v@ == value
}

/// Whether `parts` is the form for `upload` with the language code `language`:
/// the audio, the model, the response format, and the language only if there
/// is one.
pub open spec fn is_form_for(
    parts: Seq<FormPart>,
    upload: UploadRequest,
    language: Option<Seq<char>>,
) -> bool {
    &&& parts.len() == (if language is Some {
        4int
    } else {
        3int
    })
    &&& parts[0].name@ == "file"@
    &&& parts[0].body matches PartBody::File { bytes, filename, mime_type } && bytes@
        == upload.audio_bytes@ && filename@ == upload.filename@ && mime_type@
        == upload.mime_type@
    &&& is_text_part(parts[1], "model"@, WHISPER_MODEL@)
    &&& is_text_part(parts[2], "response_format"@, RESPONSE_FORMAT@)
    &&& language matches Some(l) ==> is_text_part(parts[3], "language"@, l)
}

/// Whether some part of `parts` is named `language`.
pub open spec fn has_language_part(parts: Seq<FormPart>) -> bool {
    exists|i: int| 0 <= i < parts.len() && (#[trigger] parts[i]).name@ == "language"@
}

/// None of the three fixed parts of a form is named `language`.
pub proof fn lemma_fixed_parts_not_language(parts: Seq<FormPart>)
    requires
        parts.len() == 3,
        parts[0].name@ == "file"@,
        parts[1].name@ == "model"@,
        parts[2].name@ == "response_format"@,
    ensures
        !has_language_part(parts),
{
    reveal_strlit("file");
    reveal_strlit("model");
    reveal_strlit("response_format");
    reveal_strlit("language");
    assert forall|i: int| 0 <= i < parts.len() implies (#[trigger] parts[i]).name@
        != "language"@ by {
        if i == 0 {
            assert(parts[0].name@[1] != "language"@[1]);
        } else {
            assert(parts[i].name@.len() != "language"@.len());
        }
    }
}

/// Builds the outbound form for `upload`, with a `language` part exactly when
/// a language code is given.
pub fn upstream_form(upload: UploadRequest, language: Option<&str>) -> (r: Vec<FormPart>)
    ensures
        is_form_for(
            r@,
            upload,
            match language {
                Some(l) => Some(l@),
                None => None,
            },
        ),
        has_language_part(r@) <==> language is Some,
{
    let mut parts: Vec<FormPart> = Vec::new();
    parts.push(
        FormPart {
            name: String::from_str("file"),
            body: PartBody::File {
                bytes: upload.audio_bytes,
                filename: upload.filename,
                mime_type: upload.mime_type,
            },
        },
    );
    parts.push(
        FormPart {
            name: String::from_str("model"),
            body: PartBody::Text(String::from_str(WHISPER_MODEL)),
        },
    );
    parts.push(
        FormPart {
            name: String::from_str("response_format"),
            body: PartBody::Text(String::from_str(RESPONSE_FORMAT)),
        },
    );
    match language {
        Some(l) => {
            parts.push(
                FormPart {
                    name: String::from_str("language"),
                    body: PartBody::Text(String::from_str(l)),
                },
            );
            assert(parts@[3].name@ == "language"@);
        },
        None => {
            proof {
                lemma_fixed_parts_not_language(parts@);
            }
        },
    }
    parts
}

/// The language code for an optional hint.
pub open spec fn hint_code(hint: Option<String>) -> Option<Seq<char>> {
    match hint {
        Some(h) => alias_code(trimmed(lower_of(h@))),
        None => None,
    }
}

/// Whether `req` is the upstream request for `upload` with API key `key`.
pub open spec fn is_request_for(req: UpstreamRequest, upload: UploadRequest, key: Seq<char>) -> bool {
    &&& req.url@ == WHISPER_URL@
    &&& req.authorization@ == "Bearer "@ + key
    &&& req.timeout_secs == TIMEOUT_SECS
    &&& is_form_for(req.parts@, upload, hint_code(upload.language_hint))
    &&& has_language_part(req.parts@) <==> hint_code(upload.language_hint) is Some
}

/// Whether reqwest accepts `s` as the MIME type of a form part.
pub uninterp spec fn mime_accepted(s: Seq<char>) -> bool;

/// Relies on reqwest's `multipart::Part::mime_str`: it succeeds exactly when
/// the text parses as a MIME type, and otherwise gives reqwest's error.
#[verifier::external_body]
fn check_mime(s: &str) -> (r: Result<(), String>)
    ensures
        r is Ok <==> mime_accepted(s@),
{
    match reqwest::multipart::Part::bytes(Vec::<u8>::new()).mime_str(s) {
        Ok(_) => Ok(()),
        Err(e) => Err(e.to_string()),
    }
}

/// Builds the upstream request for a decoded upload: the audio, the model,
/// the response format and, if the hint names a known language, its code;
/// a bearer token made from `api_key`; the fixed endpoint and time bound.
/// Fails with `Internal` when the upload's content type is no MIME type.
pub fn build_upstream_request(upload: UploadRequest, api_key: &str) -> (r: Result<
    UpstreamRequest,
    AppError,
>)
    ensures
        r is Err <==> !mime_accepted(upload.mime_type@),
        r matches Err(e) ==> e is Internal,
        r matches Ok(req) ==> is_request_for(req, upload, api_key@),
{
    match check_mime(upload.mime_type.as_str()) {
        Err(m) => {
            return Err(AppError::Internal(m));
        },
        Ok(_) => {},
    }
    let language = match &upload.language_hint {
        Some(h) => normalize_language(h.as_str()),
        None => None,
    };
    let authorization = String::from_str("Bearer ").concat(api_key);
    let parts = upstream_form(upload, language);
    Ok(
        UpstreamRequest {
            url: String::from_str(WHISPER_URL),
            authorization,
            parts,
            timeout_secs: TIMEOUT_SECS,
        },
    )
}

/// What came back from one upstream call.
#[derive(Debug)]
pub enum UpstreamOutcome {
    /// The call failed before any reply (DNS, connect, timeout); the message.
    Unreachable(String),
    /// A reply: its status and its body text, or the message of the failure
    /// to read the body.
    Replied { status: u16, body: Result<String, String> },
}

/// The body text of a reply, or empty text when it could not be read.
pub open spec fn body_text(body: Result<String, String>) -> Seq<char> {
    match body {
        Ok(t) => t@,
        Err(_) => Seq::empty(),
    }
}

/// Whether a status is a success (2xx).
pub open spec fn is_success(status: u16) -> bool {
    200 <= status && status < 300
}

/// What serde_json finds in a body: `None` when it is no JSON, else the
/// member named `key` when that is a string.
pub uninterp spec fn json_string_member(body: Seq<char>, key: Seq<char>) -> Option<
    Option<Seq<char>>,
>;

/// Relies on `serde_json::from_str` into a `serde_json::Value`: it fails
/// exactly when the text is no JSON document; the member named `key` is then
/// read when it is a string.
#[verifier::external_body]
fn parse_string_member(body: &str, key: &str) -> (r: Result<Option<String>, String>)
    ensures
        match r {
            Ok(t) => json_string_member(body@, key@) == Some(opt_view(t)),
            Err(_) => json_string_member(body@, key@) is None,
        },
{
    match serde_json::from_str::<serde_json::Value>(body) {
        Ok(v) => Ok(v.get(key).and_then(|t| t.as_str()).map(|t| t.to_string())),
        Err(e) => Err(e.to_string()),
    }
}

/// The transcript carried by a parsed reply body: the `text` member, or empty
/// text when there is none; `UpstreamMalformedResponse` when the body was no
/// JSON.
pub fn transcript_of(parsed: Result<Option<String>, String>) -> (r: Result<String, AppError>)
    ensures
        match parsed {
            Ok(Some(t)) => r == Ok::<String, AppError>(t),
            Ok(None) => r matches Ok(x) && x@.len() == 0,
            Err(m) => r == Err::<String, AppError>(AppError::UpstreamMalformedResponse(m)),
        },
{
    match parsed {
        Ok(Some(t)) => Ok(t),
        Ok(None) => Ok(String::new()),
        Err(m) => Err(AppError::UpstreamMalformedResponse(m)),
    }
}

/// Interprets one upstream call: the transcript on a success status with a
/// JSON body (empty when the body has no string `text`), else the failure.
pub fn read_transcript(outcome: UpstreamOutcome) -> (r: Result<String, AppError>)
    ensures
        outcome matches UpstreamOutcome::Unreachable(m) ==> r == Err::<String, AppError>(
            AppError::UpstreamUnreachable(m),
        ),
        outcome matches UpstreamOutcome::Replied { status, body } ==> {
            if !is_success(status) {
                r matches Err(AppError::UpstreamRejected { status: s, body: b }) && s == status
                    && b@ == body_text(body)
            } else {
                match body {
                    Err(m) => r == Err::<String, AppError>(AppError::UpstreamMalformedResponse(m)),
                    Ok(t) => match json_string_member(t@, "text"@) {
                        None => r matches Err(AppError::UpstreamMalformedResponse(_)),
                        Some(Some(x)) => r matches Ok(y) && y@ == x,
                        Some(None) => r matches Ok(y) && y@.len() == 0,
                    },
                }
            }
        },
{
    match outcome {
        UpstreamOutcome::Unreachable(m) => Err(AppError::UpstreamUnreachable(m)),
        UpstreamOutcome::Replied { status, body } => {
            if !(200 <= status && status < 300) {
                let text = match body {
                    Ok(t) => t,
                    Err(_) => String::new(),
                };
                Err(AppError::UpstreamRejected { status, body: text })
            } else {
                match body {
                    Err(m) => Err(AppError::UpstreamMalformedResponse(m)),
                    Ok(t) => transcript_of(parse_string_member(t.as_str(), "text")),
                }
            }
        },
    }
}

} // verus!
