use lytt_bridge::config::Config;
use lytt_bridge::error::{status_text, AppError};
use lytt_bridge::reply::{json_member, transcript_reply};
use lytt_bridge::routes::health;
use lytt_bridge::routes::transcribe::{
    handler, language_code, normalize_language, respond, TranscribeAction, TranscribeEvent,
};
use lytt_bridge::text::{decimal_string, str_eq, trim_ws};
use lytt_bridge::upload::{classify_field, FieldKind, UploadDecoder, UploadRequest};
use lytt_bridge::whisper::{
    build_upstream_request, read_transcript, transcript_of, upstream_form, PartBody,
    UpstreamOutcome, UpstreamRequest, TIMEOUT_SECS, WHISPER_URL,
};

fn config(key: &str) -> Config {
    Config { openai_api_key: key.to_string(), host: "127.0.0.1".to_string(), port: 3000 }
}

fn upload(language: Option<&str>) -> UploadRequest {
    UploadRequest {
        audio_bytes: vec![1, 2, 3],
        filename: "clip.webm".to_string(),
        mime_type: "audio/webm".to_string(),
        language_hint: language.map(|l| l.to_string()),
    }
}

fn part_names(req: &UpstreamRequest) -> Vec<String> {
    req.parts.iter().map(|p| p.name.clone()).collect()
}

fn text_value(req: &UpstreamRequest, name: &str) -> Option<String> {
    req.parts.iter().find(|p| p.name == name).and_then(|p| match &p.body {
        PartBody::Text(t) => Some(t.clone()),
        PartBody::File { .. } => None,
    })
}

#[test]
fn normalize_recognises_norwegian_aliases() {
    for raw in ["norwegian", "no", "nb", "nb-no", "Norwegian", "NB-NO", "  nb \n", "\tNO"] {
        assert_eq!(normalize_language(raw), Some("no"), "{raw:?}");
    }
}

#[test]
fn normalize_recognises_english_aliases() {
    for raw in ["english", "en", "en-us", "en-gb", "ENGLISH", " En-Us ", "en-GB\r\n"] {
        assert_eq!(normalize_language(raw), Some("en"), "{raw:?}");
    }
}

#[test]
fn normalize_unknown_gives_no_hint() {
    for raw in ["", "   ", "fr", "german", "n o", "nb_no", "en-au", "norsk"] {
        assert_eq!(normalize_language(raw), None, "{raw:?}");
    }
}

#[test]
fn language_code_trims_but_does_not_fold() {
    assert_eq!(language_code("\u{3000}en-us "), Some("en"));
    assert_eq!(language_code("EN"), None);
}

#[test]
fn validate_refuses_blank_key() {
    let e = config("").validate().unwrap_err();
    assert_eq!(e, "OPENAI_API_KEY is required. Set it in your shell or in lytt-bridge/.env");
    assert!(config(" \t\n").validate().is_err());
    assert_eq!(config(" sk-test ").validate(), Ok(()));
}

#[test]
fn addr_joins_host_and_port() {
    assert_eq!(config("k").addr(), "127.0.0.1:3000");
    let c = Config { openai_api_key: "k".to_string(), host: "0.0.0.0".to_string(), port: 65535 };
    assert_eq!(c.addr(), "0.0.0.0:65535");
    let c = Config { openai_api_key: "k".to_string(), host: "::1".to_string(), port: 0 };
    assert_eq!(c.addr(), "::1:0");
}

#[test]
fn decimal_and_equality_helpers() {
    assert_eq!(decimal_string(0), "0");
    assert_eq!(decimal_string(7), "7");
    assert_eq!(decimal_string(1040), "1040");
    assert!(str_eq("ab", "ab"));
    assert!(!str_eq("ab", "abc"));
    assert!(!str_eq("ab", "aB"));
}

#[test]
fn status_text_shows_code_and_reason() {
    assert_eq!(status_text(404), "404 Not Found");
    assert_eq!(status_text(503), "503 Service Unavailable");
    assert_eq!(status_text(42), "42");
}

#[test]
fn error_statuses() {
    assert_eq!(AppError::MissingAudio.status(), 400);
    assert_eq!(AppError::MalformedUpload("x".to_string()).status(), 400);
    assert_eq!(AppError::UpstreamUnreachable("x".to_string()).status(), 500);
    assert_eq!(AppError::UpstreamRejected { status: 401, body: String::new() }.status(), 500);
    assert_eq!(AppError::UpstreamMalformedResponse("x".to_string()).status(), 500);
    assert_eq!(AppError::Internal("x".to_string()).status(), 500);
}

#[test]
fn error_messages() {
    assert_eq!(AppError::MissingAudio.message(), "Missing `file` field in multipart form");
    assert_eq!(
        AppError::MalformedUpload("bad boundary".to_string()).message(),
        "Failed to read multipart form: bad boundary"
    );
    assert_eq!(
        AppError::UpstreamUnreachable("timed out".to_string()).message(),
        "OpenAI Whisper request failed: timed out"
    );
    assert_eq!(
        AppError::UpstreamRejected { status: 401, body: "no key".to_string() }.message(),
        "OpenAI Whisper request failed: HTTP 401 Unauthorized: no key"
    );
    assert_eq!(
        AppError::UpstreamMalformedResponse("eof".to_string()).message(),
        "OpenAI Whisper request failed: eof"
    );
    assert_eq!(AppError::Internal("boom".to_string()).message(), "Internal error: boom");
}

#[test]
fn missing_audio_reply_is_bad_request() {
    let r = AppError::MissingAudio.into_response();
    assert_eq!(r.status, 400);
    assert_eq!(r.body, "{\"error\":\"Missing `file` field in multipart form\"}");
}

#[test]
fn json_member_escapes() {
    assert_eq!(json_member("text", "a\"b\\c\nd\te\u{1}f\u{7f}é"), "{\"text\":\"a\\\"b\\\\c\\nd\\te\\u0001f\u{7f}é\"}");
    let r = transcript_reply("");
    assert_eq!(r.status, 200);
    assert_eq!(r.body, "{\"text\":\"\"}");
}

#[test]
fn classify_fields_by_name() {
    assert_eq!(classify_field(Some("file")), FieldKind::Audio);
    assert_eq!(classify_field(Some("language")), FieldKind::Language);
    assert_eq!(classify_field(Some("File")), FieldKind::Other);
    assert_eq!(classify_field(Some("extra")), FieldKind::Other);
    assert_eq!(classify_field(None), FieldKind::Other);
}

#[test]
fn decoder_without_file_fails() {
    let d = UploadDecoder::new();
    assert_eq!(d.finish().unwrap_err(), AppError::MissingAudio);
    let mut d = UploadDecoder::new();
    d.accept_language("Norwegian".to_string());
    let e = d.finish().unwrap_err();
    assert_eq!(e, AppError::MissingAudio);
    assert_eq!(e.into_response().status, 400);
}

#[test]
fn decoder_with_empty_file_fails() {
    let mut d = UploadDecoder::new();
    d.accept_audio(None, None, Vec::new());
    assert_eq!(d.finish().unwrap_err(), AppError::MissingAudio);
}

#[test]
fn decoder_defaults_name_and_type() {
    let mut d = UploadDecoder::new();
    d.accept_audio(None, None, vec![9, 8]);
    let u = d.finish().unwrap();
    assert_eq!(u.audio_bytes, vec![9, 8]);
    assert_eq!(u.filename, "recording.webm");
    assert_eq!(u.mime_type, "audio/webm");
    assert_eq!(u.language_hint, None);
}

#[test]
fn decoder_keeps_declared_fields() {
    let mut d = UploadDecoder::new();
    d.accept_language("en".to_string());
    d.accept_audio(Some("a.mp4".to_string()), Some("audio/mp4".to_string()), vec![1]);
    let u = d.finish().unwrap();
    assert_eq!(u.filename, "a.mp4");
    assert_eq!(u.mime_type, "audio/mp4");
    assert_eq!(u.language_hint, Some("en".to_string()));
}

#[test]
fn request_without_language_has_no_language_part() {
    let req = build_upstream_request(upload(None), "sk-1").unwrap();
    assert_eq!(part_names(&req), vec!["file", "model", "response_format"]);
    assert_eq!(text_value(&req, "model").as_deref(), Some("whisper-1"));
    assert_eq!(text_value(&req, "response_format").as_deref(), Some("json"));
    assert_eq!(req.url, WHISPER_URL);
    assert_eq!(req.authorization, "Bearer sk-1");
    assert_eq!(req.timeout_secs, TIMEOUT_SECS);
    match &req.parts[0].body {
        PartBody::File { bytes, filename, mime_type } => {
            assert_eq!(bytes, &vec![1, 2, 3]);
            assert_eq!(filename, "clip.webm");
            assert_eq!(mime_type, "audio/webm");
        }
        PartBody::Text(_) => panic!("the first part carries the audio"),
    }
}

#[test]
fn request_with_norwegian_sends_no() {
    let req = build_upstream_request(upload(Some("Norwegian")), "k").unwrap();
    assert_eq!(part_names(&req), vec!["file", "model", "response_format", "language"]);
    assert_eq!(text_value(&req, "language").as_deref(), Some("no"));
}

#[test]
fn request_with_unknown_language_has_no_language_part() {
    let req = build_upstream_request(upload(Some("klingon")), "k").unwrap();
    assert_eq!(part_names(&req).len(), 3);
    let parts = upstream_form(upload(None), Some("en"));
    assert_eq!(parts.len(), 4);
}

#[test]
fn request_with_bad_mime_type_fails() {
    let mut u = upload(None);
    u.mime_type = "not a mime type".to_string();
    let e = build_upstream_request(u, "k").unwrap_err();
    assert!(matches!(e, AppError::Internal(_)));
    assert_eq!(e.status(), 500);
}

#[test]
fn unreachable_upstream_is_server_error() {
    let e = read_transcript(UpstreamOutcome::Unreachable("connection refused".to_string()))
        .unwrap_err();
    assert_eq!(e, AppError::UpstreamUnreachable("connection refused".to_string()));
    assert_eq!(respond(Err(e)).status, 500);
}

#[test]
fn rejected_upstream_reports_status_and_body() {
    let outcome = UpstreamOutcome::Replied {
        status: 429,
        body: Ok("{\"error\":\"rate limited\"}".to_string()),
    };
    let result = read_transcript(outcome);
    assert_eq!(
        result,
        Err(AppError::UpstreamRejected {
            status: 429,
            body: "{\"error\":\"rate limited\"}".to_string()
        })
    );
    let reply = respond(result);
    assert_eq!(reply.status, 500);
    assert!(reply.body.contains("429"));
    assert!(reply.body.contains("rate limited"));
}

#[test]
fn rejected_upstream_with_unreadable_body() {
    let outcome = UpstreamOutcome::Replied { status: 502, body: Err("reset".to_string()) };
    assert_eq!(
        read_transcript(outcome),
        Err(AppError::UpstreamRejected { status: 502, body: String::new() })
    );
}

#[test]
fn transcript_is_relayed() {
    let outcome = UpstreamOutcome::Replied {
        status: 200,
        body: Ok("{\"text\":\"hello world\"}".to_string()),
    };
    let result = read_transcript(outcome);
    assert_eq!(result, Ok("hello world".to_string()));
    let reply = respond(result);
    assert_eq!(reply.status, 200);
    assert_eq!(reply.body, "{\"text\":\"hello world\"}");
}

#[test]
fn missing_text_gives_empty_transcript() {
    let outcome = UpstreamOutcome::Replied { status: 200, body: Ok("{}".to_string()) };
    let reply = respond(read_transcript(outcome));
    assert_eq!(reply.status, 200);
    assert_eq!(reply.body, "{\"text\":\"\"}");
    let outcome = UpstreamOutcome::Replied { status: 200, body: Ok("{\"text\":5}".to_string()) };
    assert_eq!(read_transcript(outcome), Ok(String::new()));
}

#[test]
fn malformed_upstream_reply_is_server_error() {
    let outcome = UpstreamOutcome::Replied { status: 200, body: Ok("not json".to_string()) };
    let e = read_transcript(outcome).unwrap_err();
    assert!(matches!(e, AppError::UpstreamMalformedResponse(_)));
    assert_eq!(respond(Err(e)).status, 500);
    let outcome = UpstreamOutcome::Replied { status: 204, body: Err("cut".to_string()) };
    assert_eq!(
        read_transcript(outcome),
        Err(AppError::UpstreamMalformedResponse("cut".to_string()))
    );
}

#[test]
fn transcript_of_parsed_values() {
    assert_eq!(transcript_of(Ok(Some("hi".to_string()))), Ok("hi".to_string()));
    assert_eq!(transcript_of(Ok(None)), Ok(String::new()));
    assert_eq!(
        transcript_of(Err("e".to_string())),
        Err(AppError::UpstreamMalformedResponse("e".to_string()))
    );
}

#[test]
fn health_is_always_ok() {
    let r = health::handler("0.1.0");
    assert_eq!(r.status, 200);
    assert_eq!(r.body, "{\"ok\":true,\"service\":\"lytt-bridge\",\"version\":\"0.1.0\"}");
}

fn reply_of(action: TranscribeAction) -> (u16, String) {
    match action {
        TranscribeAction::Reply(r) => (r.status, r.body),
        TranscribeAction::Forward(_) => panic!("expected a reply"),
    }
}

fn forwarded(action: TranscribeAction) -> UpstreamRequest {
    match action {
        TranscribeAction::Forward(req) => req,
        TranscribeAction::Reply(r) => panic!("expected a request, got {} {}", r.status, r.body),
    }
}

#[test]
fn trim_removes_unicode_whitespace() {
    assert_eq!(trim_ws(" \t a b \u{3000}\n"), "a b");
    assert_eq!(trim_ws("\u{85}\u{a0}"), "");
    assert_eq!(trim_ws(""), "");
    assert_eq!(trim_ws("x\u{200b}"), "x\u{200b}");
}

#[test]
fn handler_without_file_is_bad_request() {
    let mut d = UploadDecoder::new();
    d.accept_language("english".to_string());
    let (status, body) = reply_of(handler(TranscribeEvent::UploadComplete(d), "k"));
    assert_eq!(status, 400);
    assert_eq!(body, "{\"error\":\"Missing `file` field in multipart form\"}");
    let (status, _) = reply_of(handler(TranscribeEvent::UploadComplete(UploadDecoder::new()), "k"));
    assert_eq!(status, 400);
}

#[test]
fn handler_unreadable_upload_is_bad_request() {
    let (status, body) =
        reply_of(handler(TranscribeEvent::UploadUnreadable("bad boundary".to_string()), "k"));
    assert_eq!(status, 400);
    assert_eq!(body, "{\"error\":\"Failed to read multipart form: bad boundary\"}");
}

#[test]
fn handler_forwards_without_language_part() {
    let mut d = UploadDecoder::new();
    d.accept_audio(Some("a.webm".to_string()), None, vec![7, 7]);
    let req = forwarded(handler(TranscribeEvent::UploadComplete(d), "sk-9"));
    assert_eq!(req.url, "https://api.openai.com/v1/audio/transcriptions");
    assert_eq!(req.authorization, "Bearer sk-9");
    assert_eq!(part_names(&req), vec!["file", "model", "response_format"]);
}

#[test]
fn handler_forwards_norwegian_as_no() {
    let mut d = UploadDecoder::new();
    d.accept_audio(None, None, vec![1]);
    d.accept_language("Norwegian".to_string());
    let req = forwarded(handler(TranscribeEvent::UploadComplete(d), "k"));
    assert_eq!(text_value(&req, "language").as_deref(), Some("no"));
}

#[test]
fn handler_bad_content_type_is_server_error() {
    let mut d = UploadDecoder::new();
    d.accept_audio(None, Some("no mime here".to_string()), vec![1]);
    let (status, _) = reply_of(handler(TranscribeEvent::UploadComplete(d), "k"));
    assert_eq!(status, 500);
}

#[test]
fn handler_upstream_rejection_is_server_error() {
    let outcome = UpstreamOutcome::Replied { status: 401, body: Ok("bad key".to_string()) };
    let (status, body) = reply_of(handler(TranscribeEvent::UpstreamDone(outcome), "k"));
    assert_eq!(status, 500);
    assert_eq!(body, "{\"error\":\"OpenAI Whisper request failed: HTTP 401 Unauthorized: bad key\"}");
}

#[test]
fn handler_relays_transcript() {
    let outcome = UpstreamOutcome::Replied {
        status: 200,
        body: Ok("{\"text\":\"hello world\"}".to_string()),
    };
    let (status, body) = reply_of(handler(TranscribeEvent::UpstreamDone(outcome), "k"));
    assert_eq!(status, 200);
    assert_eq!(body, "{\"text\":\"hello world\"}");
}

#[test]
fn handler_missing_text_gives_empty_transcript() {
    let outcome = UpstreamOutcome::Replied {
        status: 200,
        body: Ok("{\"transcript\":\"hello\"}".to_string()),
    };
    let (status, body) = reply_of(handler(TranscribeEvent::UpstreamDone(outcome), "k"));
    assert_eq!(status, 200);
    assert_eq!(body, "{\"text\":\"\"}");
}

#[test]
fn handler_unreachable_upstream_is_server_error() {
    let outcome = UpstreamOutcome::Unreachable("dns".to_string());
    let (status, body) = reply_of(handler(TranscribeEvent::UpstreamDone(outcome), "k"));
    assert_eq!(status, 500);
    assert_eq!(body, "{\"error\":\"OpenAI Whisper request failed: dns\"}");
}
