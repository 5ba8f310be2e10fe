//! The transcription endpoint's decisions: language normalisation and the
//! mapping of the outcome to a reply.
use crate::error::{
    error_message, error_status, status_text_of, upstream_rejection_message, AppError,
    MISSING_AUDIO_MESSAGE, UPSTREAM_PREFIX,
};
use crate::reply::{json_member_body, transcript_reply, HttpReply};
use crate::text::{
    contains_run, decimal, is_ws, lower_of, lowercase, str_eq, trim_end, trim_start, trim_ws,
    trimmed,
};
use crate::upload::{finish_outcome, UploadDecoder};
use crate::whisper::{
    body_text, build_upstream_request, has_language_part, is_request_for, is_success,
    json_string_member, lemma_fixed_parts_not_language, mime_accepted, read_transcript,
    UpstreamOutcome, UpstreamRequest, WHISPER_URL,
};
use vstd::prelude::*;

verus! {

/// The language code for an already lower-cased and trimmed label, if the
/// label is a known alias.
pub open spec fn alias_code(s: Seq<char>) -> Option<Seq<char>> {
    if s == "norwegian"@ || s == "no"@ || s == "nb"@ || s == "nb-no"@ {
        Some("no"@)
    } else if s == "english"@ || s == "en"@ || s == "en-us"@ || s == "en-gb"@ {
        Some("en"@)
    } else {
        None
    }
}

/// Whether `r` is what [`alias_code`] gives for `s`.
pub open spec fn code_matches(r: Option<&'static str>, s: Seq<char>) -> bool {
    match r {
        Some(c) => alias_code(s) == Some(c@),
        None => alias_code(s) is None,
    }
}

/// Maps a lower-cased label to its language code, ignoring surrounding
/// whitespace; `None` for an unknown label.
pub fn language_code(lowered: &str) -> (r: Option<&'static str>)
    ensures
        code_matches(r, trimmed(lowered@)),
{
    let s = trim_ws(lowered);
    if str_eq(s, "norwegian") || str_eq(s, "no") || str_eq(s, "nb") || str_eq(s, "nb-no") {
        Some("no")
    } else if str_eq(s, "english") || str_eq(s, "en") || str_eq(s, "en-us") || str_eq(
        s,
        "en-gb",
    ) {
        Some("en")
    } else {
        None
    }
}

/// Maps a free-form language label to a language code, ignoring case and
/// surrounding whitespace; `None` lets the upstream service detect the language.
pub fn normalize_language(raw: &str) -> (r: Option<&'static str>)
    ensures
        code_matches(r, trimmed(lower_of(raw@))),
{
    let lower = lowercase(raw);
    language_code(lower.as_str())
}

proof fn lemma_trim_start_ws_prefix(p: Seq<char>, s: Seq<char>)
    requires
        forall|i: int| 0 <= i < p.len() ==> is_ws(#[trigger] p[i]),
    ensures
        trim_start(p + s) == trim_start(s),
    decreases p.len(),
{
    if p.len() > 0 {
        assert((p + s).drop_first() =~= p.drop_first() + s);
        assert(is_ws(p[0]));
        lemma_trim_start_ws_prefix(p.drop_first(), s);
    } else {
        assert(p + s =~= s);
    }
}

proof fn lemma_trim_end_ws_suffix(s: Seq<char>, q: Seq<char>)
    requires
        forall|i: int| 0 <= i < q.len() ==> is_ws(#[trigger] q[i]),
    ensures
        trim_end(s + q) == trim_end(s),
    decreases q.len(),
{
    if q.len() > 0 {
        assert((s + q).drop_last() =~= s + q.drop_last());
        assert(is_ws(q[q.len() - 1]));
        lemma_trim_end_ws_suffix(s, q.drop_last());
    } else {
        assert(s + q =~= s);
    }
}

proof fn lemma_trim_end_ws_prefix_kept(s: Seq<char>, q: Seq<char>)
    requires
        s.len() > 0,
        !is_ws(s[0]),
        forall|i: int| 0 <= i < q.len() ==> is_ws(#[trigger] q[i]),
    ensures
        trim_start(s + q) == s + q,
{
    assert((s + q)[0] == s[0]);
}

/// Surrounding whitespace never changes how a known alias is normalised:
/// for every alias `a` and whitespace runs `p` and `q`, the label `p + a + q`
/// maps to the same code as `a`.
pub proof fn lemma_padded_alias(a: Seq<char>, p: Seq<char>, q: Seq<char>)
    requires
        alias_code(a) is Some,
        forall|i: int| 0 <= i < p.len() ==> is_ws(#[trigger] p[i]),
        forall|i: int| 0 <= i < q.len() ==> is_ws(#[trigger] q[i]),
    ensures
        alias_code(trimmed(p + a + q)) == alias_code(a),
{
    reveal_strlit("norwegian");
    reveal_strlit("no");
    reveal_strlit("nb");
    reveal_strlit("nb-no");
    reveal_strlit("english");
    reveal_strlit("en");
    reveal_strlit("en-us");
    reveal_strlit("en-gb");
    assert(a.len() > 0 && !is_ws(a[0]) && !is_ws(a.last()));
    assert(p + a + q =~= p + (a + q));
    lemma_trim_start_ws_prefix(p, a + q);
    lemma_trim_end_ws_prefix_kept(a, q);
    lemma_trim_end_ws_suffix(a, q);
    assert(trim_end(a) == a);
}

/// The status of the reply to a request's result.
pub open spec fn reply_status(result: Result<String, AppError>) -> u16 {
    match result {
        Ok(_) => 200,
        Err(e) => error_status(e),
    }
}

/// The body of the reply to a request's result.
pub open spec fn reply_body(result: Result<String, AppError>) -> Seq<char> {
    match result {
        Ok(t) => json_member_body("text"@, t@),
        Err(e) => json_member_body("error"@, error_message(e)),
    }
}

/// The reply to a request's result: 200 with `{"text":...}`, or the error's
/// status with `{"error":...}`.
pub fn respond(result: Result<String, AppError>) -> (r: HttpReply)
    ensures
        r.status == reply_status(result),
        r.body@ == reply_body(result),
{
    match result {
        Ok(t) => transcript_reply(t.as_str()),
        Err(e) => e.into_response(),
    }
}

/// What the transcription endpoint learns, one step at a time.
#[derive(Debug)]
pub enum TranscribeEvent {
    /// The multipart body could not be read; the parser's message.
    UploadUnreadable(String),
    /// The multipart body was read to its end; the decoder's final state.
    UploadComplete(UploadDecoder),
    /// The upstream call that was asked for has ended.
    UpstreamDone(UpstreamOutcome),
}

/// What the transcription endpoint does next.
#[derive(Debug)]
pub enum TranscribeAction {
    /// Send this request upstream, then report the outcome as `UpstreamDone`.
    Forward(UpstreamRequest),
    /// Answer the caller with this reply; the request is over.
    Reply(HttpReply),
}

/// Whether `a` is the reply that reports `e`.
pub open spec fn is_error_reply(a: TranscribeAction, e: AppError) -> bool {
    a matches TranscribeAction::Reply(rep) && rep.status == error_status(e) && rep.body@
        == json_member_body("error"@, error_message(e))
}

/// Whether `a` is the success reply carrying `text`.
pub open spec fn is_text_reply(a: TranscribeAction, text: Seq<char>) -> bool {
    a matches TranscribeAction::Reply(rep) && rep.status == 200 && rep.body@ == json_member_body(
        "text"@,
        text,
    )
}

/// Whether `a` is the right next step after `event`, with API key `key`.
pub open spec fn handled(event: TranscribeEvent, key: Seq<char>, a: TranscribeAction) -> bool {
    match event {
        TranscribeEvent::UploadUnreadable(m) => is_error_reply(a, AppError::MalformedUpload(m)),
        TranscribeEvent::UploadComplete(d) => match finish_outcome(d) {
            Err(e) => is_error_reply(a, e),
            Ok(u) => if mime_accepted(u.mime_type@) {
                a matches TranscribeAction::Forward(req) && is_request_for(req, u, key)
            } else {
                a matches TranscribeAction::Reply(rep) && rep.status == 500
            },
        },
        TranscribeEvent::UpstreamDone(o) => match o {
            UpstreamOutcome::Unreachable(m) => is_error_reply(a, AppError::UpstreamUnreachable(m)),
            UpstreamOutcome::Replied { status, body } => if !is_success(status) {
                a matches TranscribeAction::Reply(rep) && rep.status == 500 && rep.body@
                    == json_member_body("error"@, upstream_rejection_message(status, body_text(body)))
            } else {
                match body {
                    Err(m) => is_error_reply(a, AppError::UpstreamMalformedResponse(m)),
                    Ok(t) => match json_string_member(t@, "text"@) {
                        None => a matches TranscribeAction::Reply(rep) && rep.status == 500,
                        Some(Some(x)) => is_text_reply(a, x),
                        Some(None) => is_text_reply(a, Seq::empty()),
                    },
                }
            },
        },
    }
}

/// Decides the next step of a transcription request: a decoded upload is
/// forwarded upstream, an upstream outcome is answered with the transcript,
/// and every failure is answered with its error reply.
pub fn handler(event: TranscribeEvent, api_key: &str) -> (r: TranscribeAction)
    ensures
        handled(event, api_key@, r),
{
    match event {
        TranscribeEvent::UploadUnreadable(m) => TranscribeAction::Reply(
            AppError::MalformedUpload(m).into_response(),
        ),
        TranscribeEvent::UploadComplete(d) => match d.finish() {
            Err(e) => TranscribeAction::Reply(e.into_response()),
            Ok(u) => match build_upstream_request(u, api_key) {
                Ok(req) => TranscribeAction::Forward(req),
                Err(e) => TranscribeAction::Reply(e.into_response()),
            },
        },
        TranscribeEvent::UpstreamDone(o) => TranscribeAction::Reply(respond(read_transcript(o))),
    }
}

/// An upload without a `file` field is refused as a bad request, whatever
/// other fields came with it: the reply is 400 with the missing-field
/// message, and nothing is sent upstream.
pub proof fn lemma_missing_file_is_bad_request(
    d: UploadDecoder,
    key: Seq<char>,
    a: TranscribeAction,
)
    requires
        d.audio_bytes is None,
        handled(TranscribeEvent::UploadComplete(d), key, a),
    ensures
        a matches TranscribeAction::Reply(rep) && rep.status == 400 && rep.body@
            == json_member_body("error"@, MISSING_AUDIO_MESSAGE@),
{
}

/// An upload with audio and without a `language` field is forwarded to the
/// endpoint with exactly the parts file, model and response_format, and no
/// `language` part.
pub proof fn lemma_no_language_field_no_language_part(
    d: UploadDecoder,
    key: Seq<char>,
    a: TranscribeAction,
)
    requires
        d.audio_bytes matches Some(b) && b@.len() > 0,
        d.language_hint is None,
        mime_accepted(d.mime_type@),
        handled(TranscribeEvent::UploadComplete(d), key, a),
    ensures
        a matches TranscribeAction::Forward(req) && req.url@ == WHISPER_URL@ && req.parts@.len()
            == 3 && req.parts@[0].name@ == "file"@ && req.parts@[1].name@ == "model"@
            && req.parts@[2].name@ == "response_format"@ && !has_language_part(req.parts@),
{
    let req = a->Forward_0;
    lemma_fixed_parts_not_language(req.parts@);
}

/// A rejection by the upstream service is never answered with a success: the
/// reply is 500, and its message holds the upstream status code and the
/// upstream body (empty when it could not be read).
pub proof fn lemma_rejection_reported(
    status: u16,
    body: Result<String, String>,
    key: Seq<char>,
    a: TranscribeAction,
)
    requires
        !is_success(status),
        handled(
            TranscribeEvent::UpstreamDone(UpstreamOutcome::Replied { status, body }),
            key,
            a,
        ),
    ensures
        a matches TranscribeAction::Reply(rep) && rep.status == 500 && rep.body@
            == json_member_body("error"@, upstream_rejection_message(status, body_text(body))),
        contains_run(upstream_rejection_message(status, body_text(body)), decimal(status as nat)),
        contains_run(upstream_rejection_message(status, body_text(body)), body_text(body)),
{
    let b = body_text(body);
    let m = upstream_rejection_message(status, b);
    let d = decimal(status as nat);
    let st = status_text_of(status);
    assert(m == UPSTREAM_PREFIX@ + ("HTTP "@ + st + ": "@ + b));
    let i: int = (UPSTREAM_PREFIX@.len() + "HTTP "@.len()) as int;
    assert(m.subrange(i, i + d.len()) =~= d);
    let j: int = m.len() - b.len();
    assert(m.subrange(j, j + b.len()) =~= b);
}

} // verus!
