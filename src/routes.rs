//! The two endpoints: health and transcription.
pub mod health;
pub mod transcribe;
