//! The failures of a request, and how each is shown to the caller.
use crate::reply::{json_member, json_member_body, HttpReply};
use crate::text::{decimal, decimal_string};
use vstd::prelude::*;

verus! {

/// Why a request failed.
#[derive(Debug, Clone, PartialEq, Eq)]
pub enum AppError {
    /// The upload had no `file` field, or an empty one.
    MissingAudio,
    /// The multipart body could not be read; holds the parser's message.
    MalformedUpload(String),
    /// The upstream service could not be reached (DNS, connect, timeout).
    UpstreamUnreachable(String),
    /// The upstream service answered with a non-success status.
    UpstreamRejected { status: u16, body: String },
    /// The upstream reply could not be read as JSON.
    UpstreamMalformedResponse(String),
    /// Anything unclassified.
    Internal(String),
}

/// The reason phrase that `reqwest::StatusCode` shows for a status code.
pub uninterp spec fn reason_phrase(code: u16) -> Seq<char>;

/// Relies on `reqwest::StatusCode` (from the `http` crate): `from_u16` accepts
/// 100..=999, and `Display` writes the number, a space and the canonical reason
/// (or a fixed text for codes without one).
#[verifier::external_body]
fn status_line(code: u16) -> (r: String)
    requires
        100 <= code <= 999,
    ensures
        r@ == decimal(code as nat) + seq![' '] + reason_phrase(code),
{
    match reqwest::StatusCode::from_u16(code) {
        Ok(s) => s.to_string(),
        Err(_) => String::new(),
    }
}

/// How a status code is shown in a message: number and reason phrase, or the
/// bare number when it is no HTTP status.
pub open spec fn status_text_of(code: u16) -> Seq<char> {
    if 100 <= code <= 999 {
        decimal(code as nat) + seq![' '] + reason_phrase(code)
    } else {
        decimal(code as nat)
    }
}

/// Renders a status code as [`status_text_of`] says.
pub fn status_text(code: u16) -> (r: String)
    ensures
        r@ == status_text_of(code),
{
    if 100 <= code && code <= 999 {
        status_line(code)
    } else {
        decimal_string(code)
    }
}

pub const MISSING_AUDIO_MESSAGE: &'static str = "Missing `file` field in multipart form";

pub const MULTIPART_PREFIX: &'static str = "Failed to read multipart form: ";

pub const UPSTREAM_PREFIX: &'static str = "OpenAI Whisper request failed: ";

pub const INTERNAL_PREFIX: &'static str = "Internal error: ";

/// The detail of a rejection: `HTTP <status>: <body>`.
pub open spec fn rejection_detail(status: u16, body: Seq<char>) -> Seq<char> {
    "HTTP "@ + status_text_of(status) + ": "@ + body
}

/// The message of a rejection by the upstream service.
pub open spec fn upstream_rejection_message(status: u16, body: Seq<char>) -> Seq<char> {
    UPSTREAM_PREFIX@ + rejection_detail(status, body)
}

/// The human-readable message of an error.
pub open spec fn error_message(e: AppError) -> Seq<char> {
    match e {
        AppError::MissingAudio => MISSING_AUDIO_MESSAGE@,
        AppError::MalformedUpload(m) => MULTIPART_PREFIX@ + m@,
        AppError::UpstreamUnreachable(m) => UPSTREAM_PREFIX@ + m@,
        AppError::UpstreamRejected { status, body } => upstream_rejection_message(status, body@),
        AppError::UpstreamMalformedResponse(m) => UPSTREAM_PREFIX@ + m@,
        AppError::Internal(m) => INTERNAL_PREFIX@ + m@,
    }
}

/// The HTTP status of an error: 400 for upload problems, 500 for the rest.
pub open spec fn error_status(e: AppError) -> u16 {
    match e {
        AppError::MissingAudio | AppError::MalformedUpload(_) => 400,
        _ => 500,
    }
}

impl AppError {
    /// The HTTP status that this error is reported with.
    pub fn status(&self) -> (r: u16)
        ensures
            r == error_status(*self),
    {
        match self {
            AppError::MissingAudio | AppError::MalformedUpload(_) => 400,
            _ => 500,
        }
    }

    /// The human-readable message of this error.
    pub fn message(&self) -> (r: String)
        ensures
            r@ == error_message(*self),
    {
        match self {
            AppError::MissingAudio => String::from_str(MISSING_AUDIO_MESSAGE),
            AppError::MalformedUpload(m) => String::from_str(MULTIPART_PREFIX).concat(m.as_str()),
            AppError::UpstreamUnreachable(m) => String::from_str(UPSTREAM_PREFIX).concat(
                m.as_str(),
            ),
            AppError::UpstreamRejected { status, body } => {
                let mut r = String::from_str(UPSTREAM_PREFIX);
                r.append("HTTP ");
                let s = status_text(*status);
                r.append(s.as_str());
                r.append(": ");
                r.append(body.as_str());
                assert(r@ =~= error_message(*self));
                r
            },
            AppError::UpstreamMalformedResponse(m) => String::from_str(UPSTREAM_PREFIX).concat(
                m.as_str(),
            ),
            AppError::Internal(m) => String::from_str(INTERNAL_PREFIX).concat(m.as_str()),
        }
    }

    /// The reply that reports this error: its status, and `{"error":<message>}`.
    pub fn into_response(&self) -> (r: HttpReply)
        ensures
            r.status == error_status(*self),
            r.body@ == json_member_body("error"@, error_message(*self)),
    {
        let m = self.message();
        HttpReply { status: self.status(), body: json_member("error", m.as_str()) }
    }
}

} // verus!
