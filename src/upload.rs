//! Decoding of an incoming multipart upload, one field at a time.
//!
//! The caller pulls the fields from the request body; for each it asks
//! [`classify_field`] what the field is, reads the field's content only when
//! it is wanted, and hands it to the [`UploadDecoder`]. At the end of the
//! stream [`UploadDecoder::finish`] yields the upload or the failure.
use crate::error::AppError;
use vstd::prelude::*;

verus! {

/// The file name assumed when the audio field declares none.
pub const DEFAULT_FILENAME: &'static str = "recording.webm";

/// The content type assumed when the audio field declares none.
pub const DEFAULT_MIME_TYPE: &'static str = "audio/webm";

/// What a multipart field is to the decoder.
#[derive(Debug, Clone, Copy, PartialEq, Eq)]
pub enum FieldKind {
    /// The `file` field: read its bytes.
    Audio,
    /// The `language` field: read its text.
    Language,
    /// Anything else: skip it.
    Other,
}

/// The kind of a field with the given name.
pub open spec fn field_kind(name: Option<Seq<char>>) -> FieldKind {
    if name == Some("file"@) {
        FieldKind::Audio
    } else if name == Some("language"@) {
        FieldKind::Language
    } else {
        FieldKind::Other
    }
}

/// Classifies a field by its name.
pub fn classify_field(name: Option<&str>) -> (r: FieldKind)
    ensures
        r == field_kind(
            match name {
                Some(n) => Some(n@),
                None => None,
            },
        ),
{
    match name {
        Some(n) => {
            if crate::text::str_eq(n, "file") {
                FieldKind::Audio
            } else if crate::text::str_eq(n, "language") {
                FieldKind::Language
            } else {
                proof {
                    assert(Some(n@) != Some("file"@));
                }
                FieldKind::Other
            }
        },
        None => FieldKind::Other,
    }
}

/// A decoded upload, ready to forward.
#[derive(Debug, Clone)]
pub struct UploadRequest {
    pub audio_bytes: Vec<u8>,
    pub filename: String,
    pub mime_type: String,
    pub language_hint: Option<String>,
}

/// What has been gathered from the fields seen so far.
#[derive(Debug, Clone)]
pub struct UploadDecoder {
    pub audio_bytes: Option<Vec<u8>>,
    pub filename: String,
    pub mime_type: String,
    pub language_hint: Option<String>,
}

/// The view of an optional string.
pub open spec fn opt_view(o: Option<String>) -> Option<Seq<char>> {
    match o {
        Some(s) => Some(s@),
        None => None,
    }
}

/// The result of ending the stream in a given decoder state.
pub open spec fn finish_outcome(d: UploadDecoder) -> Result<UploadRequest, AppError> {
    match d.audio_bytes {
        Some(bytes) => if bytes@.len() > 0 {
            Ok(
                UploadRequest {
                    audio_bytes: bytes,
                    filename: d.filename,
                    mime_type: d.mime_type,
                    language_hint: d.language_hint,
                },
            )
        } else {
            Err(AppError::MissingAudio)
        },
        None => Err(AppError::MissingAudio),
    }
}

impl UploadDecoder {
    /// A decoder that has seen no field.
    pub fn new() -> (r: UploadDecoder)
        ensures
            r.audio_bytes is None,
            r.filename@ == DEFAULT_FILENAME@,
            r.mime_type@ == DEFAULT_MIME_TYPE@,
            r.language_hint is None,
    {
        UploadDecoder {
            audio_bytes: None,
            filename: String::from_str(DEFAULT_FILENAME),
            mime_type: String::from_str(DEFAULT_MIME_TYPE),
            language_hint: None,
        }
    }

    /// Takes in the `file` field: its declared file name and content type
    /// (defaults where absent) and its bytes. A later `file` field replaces
    /// an earlier one.
    pub fn accept_audio(
        &mut self,
        file_name: Option<String>,
        content_type: Option<String>,
        bytes: Vec<u8>,
    )
        ensures
            final(self).audio_bytes == Some(bytes),
            final(self).filename@ == (match file_name {
                Some(f) => f@,
                None => DEFAULT_FILENAME@,
            }),
            final(self).mime_type@ == (match content_type {
                Some(c) => c@,
                None => DEFAULT_MIME_TYPE@,
            }),
            final(self).language_hint == old(self).language_hint,
    {
        self.filename = match file_name {
            Some(f) => f,
            None => String::from_str(DEFAULT_FILENAME),
        };
        self.mime_type = match content_type {
            Some(c) => c,
            None => String::from_str(DEFAULT_MIME_TYPE),
        };
        self.audio_bytes = Some(bytes);
    }

    /// Takes in the text of the `language` field. A later one replaces an
    /// earlier one.
    pub fn accept_language(&mut self, text: String)
        ensures
            final(self).language_hint == Some(text),
            final(self).audio_bytes == old(self).audio_bytes,
            final(self).filename == old(self).filename,
            final(self).mime_type == old(self).mime_type,
    {
        self.language_hint = Some(text);
    }

    /// Ends the stream: the upload, or `MissingAudio` when no `file` field
    /// with content was seen.
    pub fn finish(self) -> (r: Result<UploadRequest, AppError>)
        ensures
            r == finish_outcome(self),
    {
        match self.audio_bytes {
            Some(bytes) => {
                if bytes.len() == 0 {
                    Err(AppError::MissingAudio)
                } else {
                    Ok(
                        UploadRequest {
                            audio_bytes: bytes,
                            filename: self.filename,
                            mime_type: self.mime_type,
                            language_hint: self.language_hint,
                        },
                    )
                }
            },
            None => Err(AppError::MissingAudio),
        }
    }
}

} // verus!
