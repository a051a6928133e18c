//! Text-to-speech: model kinds, backends and voice parameters.
pub mod config;

use vstd::prelude::*;

verus! {

/// The voice of a synthesis request.
#[derive(Debug)]
pub enum TtsVoiceParams {
    /// A named voice (preset).
    Named(String),
    /// A speaker id; the backends that have no speaker table use their default voice.
    Sid(i32),
    /// Cloning from a reference recording and its transcript.
    Reference { wav_path: String, reference_text: String },
}

} // verus!
