//! The TTS model kinds and backends, and the parts of a resolved TTS
//! configuration that backend selection and the audio.cpp sidecar read.
use vstd::prelude::*;
use vstd::string::*;

use crate::text::{owned, str_eq};

verus! {

/// TTS model family.
#[derive(Debug, Clone, Copy, PartialEq, Eq, Structural)]
pub enum TtsModelKind {
    /// sherpa-onnx ZipVoice (the one sherpa kind in the catalogue).
    Zipvoice,
    Kitten,
    Supertonic,
    Pocket,
    /// audio.cpp OmniVoice.
    Omnivoice,
    /// audio.cpp VoxCPM2.
    Voxcpm2,
    /// audio.cpp Qwen3-TTS 0.6B Base.
    Qwen3Tts06,
    /// audio.cpp Qwen3-TTS 1.7B Base.
    Qwen3Tts17,
}

pub open spec fn tts_kind_name(k: TtsModelKind) -> Seq<char> {
    match k {
        TtsModelKind::Zipvoice => "zipvoice"@,
        TtsModelKind::Kitten => "kitten"@,
        TtsModelKind::Supertonic => "supertonic"@,
        TtsModelKind::Pocket => "pocket"@,
        TtsModelKind::Omnivoice => "omnivoice"@,
        TtsModelKind::Voxcpm2 => "voxcpm2"@,
        TtsModelKind::Qwen3Tts06 => "qwen3_tts06"@,
        TtsModelKind::Qwen3Tts17 => "qwen3_tts17"@,
    }
}

impl TtsModelKind {
    /// snake_case name.
    pub fn as_str(&self) -> (r: &'static str)
        ensures
            r@ == tts_kind_name(*self),
    {
        match self {
            TtsModelKind::Zipvoice => "zipvoice",
            TtsModelKind::Kitten => "kitten",
            TtsModelKind::Supertonic => "supertonic",
            TtsModelKind::Pocket => "pocket",
            TtsModelKind::Omnivoice => "omnivoice",
            TtsModelKind::Voxcpm2 => "voxcpm2",
            TtsModelKind::Qwen3Tts06 => "qwen3_tts06",
            TtsModelKind::Qwen3Tts17 => "qwen3_tts17",
        }
    }
}

/// TTS engine backend.
#[derive(Debug, Clone, Copy, PartialEq, Eq, Structural)]
pub enum TtsBackendKind {
    Sherpa,
    Audiocpp,
}

pub open spec fn parse_tts_backend(s: Seq<char>) -> Option<TtsBackendKind> {
    if s == "sherpa"@ {
        Some(TtsBackendKind::Sherpa)
    } else if s == "audiocpp"@ {
        Some(TtsBackendKind::Audiocpp)
    } else {
        None
    }
}

impl TtsBackendKind {
    pub fn as_str(&self) -> (r: &'static str)
        ensures
            r@ == match *self {
                TtsBackendKind::Sherpa => "sherpa"@,
                TtsBackendKind::Audiocpp => "audiocpp"@,
            },
    {
        match self {
            TtsBackendKind::Sherpa => "sherpa",
            TtsBackendKind::Audiocpp => "audiocpp",
        }
    }

    pub fn parse_str(s: &str) -> (r: Option<Self>)
        ensures
            r == parse_tts_backend(s@),
    {
        if str_eq(s, "sherpa") {
            Some(TtsBackendKind::Sherpa)
        } else if str_eq(s, "audiocpp") {
            Some(TtsBackendKind::Audiocpp)
        } else {
            None
        }
    }
}

/// The parts of the resolved TTS configuration that backend selection and
/// the audio.cpp sidecar read.
#[derive(Debug)]
pub struct ResolvedTtsConfig {
    pub backend: TtsBackendKind,
    pub model_type: TtsModelKind,
    pub model_dir: String,
    /// audio.cpp engine binary override (`None`: located automatically).
    pub engine_path: Option<String>,
    /// Inference device of the engine.
    pub provider: String,
    pub num_threads: i32,
}

impl Default for ResolvedTtsConfig {
    /// sherpa backend, ZipVoice, no engine override, cpu with two threads.
    fn default() -> (r: Self)
        ensures
            r.backend == TtsBackendKind::Sherpa,
            r.model_type == TtsModelKind::Zipvoice,
            r.model_dir@ == Seq::<char>::empty(),
            r.engine_path is None,
            r.provider@ == "cpu"@,
            r.num_threads == 2,
    {
        ResolvedTtsConfig {
            backend: TtsBackendKind::Sherpa,
            model_type: TtsModelKind::Zipvoice,
            model_dir: String::new(),
            engine_path: None,
            provider: owned("cpu"),
            num_threads: 2,
        }
    }
}

} // verus!
