//! Request-translation core of a local relay that forwards audio uploads to a
//! transcription service: language normalisation, upload decoding, the
//! upstream request plan, upstream reply interpretation and the JSON replies.
pub mod config;
pub mod error;
pub mod reply;
pub mod routes;
pub mod text;
pub mod upload;
pub mod whisper;
