//! Static description of the ASR model families that the audio.cpp sidecar serves.
use vstd::prelude::*;

use crate::asr::config::AsrModelKind;
use crate::listing::DirListing;

verus! {

/// One audio.cpp ASR model family.
#[derive(Debug, Clone, Copy)]
pub struct AudiocppAsrFamilyDesc {
    /// Server config `models[].id`, and the request's `model`.
    pub model_id: &'static str,
    /// audio.cpp family name.
    pub family: &'static str,
    /// Main GGUF file, relative to the model directory.
    pub gguf_file: &'static str,
    /// Files that the preflight and the registry require.
    pub required_files: &'static [&'static str],
    /// Default inference backend (an explicit `[asr].provider` wins).
    pub default_provider: &'static str,
    /// Install command shown when files are missing.
    pub registry_hint: &'static str,
}

/// The Qwen3-ASR 0.6B q8_0 record (single GGUF file, Metal by default).
pub open spec fn is_qwen3_asr_06b(d: AudiocppAsrFamilyDesc) -> bool {
    &&& d.model_id@ == "qwen3-asr-0.6b"@
    &&& d.family@ == "qwen3_asr"@
    &&& d.gguf_file@ == "qwen3-asr-0.6b-q8_0.gguf"@
    &&& d.required_files@.len() == 1
    &&& d.required_files@[0]@ == "qwen3-asr-0.6b-q8_0.gguf"@
    &&& d.default_provider@ == "metal"@
    &&& d.registry_hint@ == "zapmomo asr install-model --registry-id asr-qwen3-0.6b-audiocpp"@
}

pub const QWEN3_ASR_06B_GGUF: &'static str = "qwen3-asr-0.6b-q8_0.gguf";

pub const QWEN3_ASR_06B_REQUIRED_FILES: [&'static str; 1] = [QWEN3_ASR_06B_GGUF];

/// Qwen3-ASR 0.6B q8_0: automatic language identification over 29 languages,
/// no hotword support.
pub fn qwen3_asr_06b() -> (r: AudiocppAsrFamilyDesc)
    ensures
        is_qwen3_asr_06b(r),
{
    AudiocppAsrFamilyDesc {
        model_id: "qwen3-asr-0.6b",
        family: "qwen3_asr",
        gguf_file: QWEN3_ASR_06B_GGUF,
        required_files: &QWEN3_ASR_06B_REQUIRED_FILES,
        default_provider: "metal",
        registry_hint: "zapmomo asr install-model --registry-id asr-qwen3-0.6b-audiocpp",
    }
}

/// Only Qwen3-ASR has an audio.cpp family; every other kind is sherpa-only.
pub open spec fn has_asr_family(kind: AsrModelKind) -> bool {
    kind == AsrModelKind::Qwen3Asr
}

/// The audio.cpp record of a model kind (`None` for sherpa-only kinds).
pub fn asr_family_desc(kind: AsrModelKind) -> (r: Option<AudiocppAsrFamilyDesc>)
    ensures
        r is Some == has_asr_family(kind),
        r matches Some(d) ==> is_qwen3_asr_06b(d),
{
    match kind {
        AsrModelKind::Qwen3Asr => Some(qwen3_asr_06b()),
        _ => None,
    }
}

/// Probes a directory for the GGUF file of an audio.cpp ASR family.
pub fn detect_gguf_in_dir(dir: &DirListing) -> (r: Option<AudiocppAsrFamilyDesc>)
    ensures
        r is Some == dir.file_names().contains(QWEN3_ASR_06B_GGUF@),
        r matches Some(d) ==> is_qwen3_asr_06b(d),
{
    if dir.has_file(QWEN3_ASR_06B_GGUF) {
        Some(qwen3_asr_06b())
    } else {
        None
    }
}

} // verus!
