//! Static description of the TTS model families that the audio.cpp sidecar serves.
use vstd::prelude::*;
use vstd::string::*;

use crate::text::{owned, str_eq};
use crate::tts::config::TtsModelKind;

verus! {

/// How voice parameters map onto a request.
#[derive(Debug, Clone, Copy, PartialEq, Eq)]
pub enum VoiceSemantics {
    /// A fixed set of named voices (pocket): a named voice passes through, a
    /// speaker id takes the family's default voice (the payload), and a
    /// reference recording is refused.
    FixedNamed(&'static str),
    /// Reference-audio cloning (omnivoice, voxcpm2): a reference goes as
    /// `voice_ref` + `reference_text`; a named voice passes through when the
    /// family allows it; a speaker id omits the voice (server auto voice).
    ReferenceClone,
    /// Cloning that requires a reference (qwen3_tts Base): no auto voice.
    ReferenceCloneRequired,
}

/// One value of a JSON options object.
#[derive(Debug, Clone, Copy, PartialEq, Eq)]
pub enum OptionValue {
    Bool(bool),
    Int(i64),
    Text(&'static str),
}

/// One key of a JSON options object.
#[derive(Debug)]
pub struct OptionEntry {
    pub key: String,
    pub value: OptionValue,
}

/// One audio.cpp TTS model family.
#[derive(Debug, Clone, Copy)]
pub struct AudiocppFamilyDesc {
    /// Server config `models[].id`, and the request's `model`.
    pub model_id: &'static str,
    /// audio.cpp family name.
    pub family: &'static str,
    /// Main GGUF file, relative to the model directory.
    pub gguf_file: &'static str,
    /// Files that the preflight and the registry require.
    pub required_files: &'static [&'static str],
    /// Initial output sample rate (Hz).
    pub sample_rate: i32,
    pub voice_semantics: VoiceSemantics,
    /// Whether a named voice passes through (pocket and omnivoice).
    pub allows_named_voice: bool,
    /// Whether the family streams (server `mode`, request `stream_format`).
    pub supports_streaming: bool,
    /// Install command shown when files are missing.
    pub registry_hint: &'static str,
}

/// The fields of a family record.
pub open spec fn record_is(
    d: AudiocppFamilyDesc,
    model_id: Seq<char>,
    family: Seq<char>,
    gguf: Seq<char>,
    sample_rate: i32,
    semantics: VoiceSemantics,
    named: bool,
    streaming: bool,
    hint: Seq<char>,
) -> bool {
    &&& d.model_id@ == model_id
    &&& d.family@ == family
    &&& d.gguf_file@ == gguf
    &&& d.required_files@.len() == 1
    &&& d.required_files@[0]@ == gguf
    &&& d.sample_rate == sample_rate
    &&& d.voice_semantics == semantics
    &&& d.allows_named_voice == named
    &&& d.supports_streaming == streaming
    &&& d.registry_hint@ == hint
}

/// The voice every pocket request falls back to.
pub const POCKET_DEFAULT_VOICE: &'static str = "alba";

/// The record of each audio.cpp TTS kind.
pub open spec fn is_family_record(kind: TtsModelKind, d: AudiocppFamilyDesc) -> bool {
    match kind {
        TtsModelKind::Pocket => {
            &&& record_is(
                d,
                "pocket-tts-english"@,
                "pocket_tts"@,
                "pocket-tts-english-q8_0.gguf"@,
                24000,
                d.voice_semantics,
                true,
                false,
                "zapmomo tts install-model --registry-id tts-pocket-english-q8-audiocpp"@,
            )
            &&& d.voice_semantics matches VoiceSemantics::FixedNamed(v) && v@ == "alba"@
        },
        TtsModelKind::Omnivoice => record_is(
            d,
            "omnivoice"@,
            "omnivoice"@,
            "omnivoice-q8_0.gguf"@,
            24000,
            VoiceSemantics::ReferenceClone,
            true,
            true,
            "zapmomo tts install-model --registry-id tts-omnivoice-q8-audiocpp"@,
        ),
        TtsModelKind::Voxcpm2 => record_is(
            d,
            "voxcpm2"@,
            "voxcpm2"@,
            "voxcpm2-q8_0.gguf"@,
            48000,
            VoiceSemantics::ReferenceClone,
            false,
            true,
            "zapmomo tts install-model --registry-id tts-voxcpm2-q8-audiocpp"@,
        ),
        TtsModelKind::Qwen3Tts06 => record_is(
            d,
            "qwen3-tts-0.6b"@,
            "qwen3_tts"@,
            "qwen3-tts-12hz-0.6b-base-q8_0.gguf"@,
            24000,
            VoiceSemantics::ReferenceCloneRequired,
            false,
            false,
            "zapmomo tts install-model --registry-id tts-qwen3-06b-base-q8-audiocpp"@,
        ),
        TtsModelKind::Qwen3Tts17 => record_is(
            d,
            "qwen3-tts-1.7b"@,
            "qwen3_tts"@,
            "qwen3-tts-12hz-1.7b-base-q8_0_v2.gguf"@,
            24000,
            VoiceSemantics::ReferenceCloneRequired,
            false,
            false,
            "zapmomo tts install-model --registry-id tts-qwen3-17b-base-q8-audiocpp"@,
        ),
        _ => false,
    }
}

/// The kinds that the audio.cpp backend serves.
pub open spec fn has_tts_family(kind: TtsModelKind) -> bool {
    kind == TtsModelKind::Pocket || kind == TtsModelKind::Omnivoice || kind == TtsModelKind::Voxcpm2 || kind == TtsModelKind::Qwen3Tts06
        || kind == TtsModelKind::Qwen3Tts17
}

pub const POCKET_GGUF: &'static str = "pocket-tts-english-q8_0.gguf";

pub const POCKET_FILES: [&'static str; 1] = [POCKET_GGUF];

pub const OMNIVOICE_GGUF: &'static str = "omnivoice-q8_0.gguf";

pub const OMNIVOICE_FILES: [&'static str; 1] = [OMNIVOICE_GGUF];

pub const VOXCPM2_GGUF: &'static str = "voxcpm2-q8_0.gguf";

pub const VOXCPM2_FILES: [&'static str; 1] = [VOXCPM2_GGUF];

pub const QWEN3_TTS_06B_GGUF: &'static str = "qwen3-tts-12hz-0.6b-base-q8_0.gguf";

pub const QWEN3_TTS_06B_FILES: [&'static str; 1] = [QWEN3_TTS_06B_GGUF];

pub const QWEN3_TTS_17B_GGUF: &'static str = "qwen3-tts-12hz-1.7b-base-q8_0_v2.gguf";

pub const QWEN3_TTS_17B_FILES: [&'static str; 1] = [QWEN3_TTS_17B_GGUF];

/// Pocket TTS (English) q8_0: a fixed set of named voices, 24 kHz, no streaming.
pub fn pocket() -> (r: AudiocppFamilyDesc)
    ensures
        is_family_record(TtsModelKind::Pocket, r),
{
    AudiocppFamilyDesc {
        model_id: "pocket-tts-english",
        family: "pocket_tts",
        gguf_file: POCKET_GGUF,
        required_files: &POCKET_FILES,
        sample_rate: 24000,
        voice_semantics: VoiceSemantics::FixedNamed(POCKET_DEFAULT_VOICE),
        allows_named_voice: true,
        supports_streaming: false,
        registry_hint: "zapmomo tts install-model --registry-id tts-pocket-english-q8-audiocpp",
    }
}

/// OmniVoice q8_0: zero-shot cloning over 600+ languages, 24 kHz, streams.
pub fn omnivoice() -> (r: AudiocppFamilyDesc)
    ensures
        is_family_record(TtsModelKind::Omnivoice, r),
{
    AudiocppFamilyDesc {
        model_id: "omnivoice",
        family: "omnivoice",
        gguf_file: OMNIVOICE_GGUF,
        required_files: &OMNIVOICE_FILES,
        sample_rate: 24000,
        voice_semantics: VoiceSemantics::ReferenceClone,
        allows_named_voice: true,
        supports_streaming: true,
        registry_hint: "zapmomo tts install-model --registry-id tts-omnivoice-q8-audiocpp",
    }
}

/// VoxCPM2 q8_0: 48 kHz, frame-level streaming, speaker reference only.
pub fn voxcpm2() -> (r: AudiocppFamilyDesc)
    ensures
        is_family_record(TtsModelKind::Voxcpm2, r),
{
    AudiocppFamilyDesc {
        model_id: "voxcpm2",
        family: "voxcpm2",
        gguf_file: VOXCPM2_GGUF,
        required_files: &VOXCPM2_FILES,
        sample_rate: 48000,
        voice_semantics: VoiceSemantics::ReferenceClone,
        allows_named_voice: false,
        supports_streaming: true,
        registry_hint: "zapmomo tts install-model --registry-id tts-voxcpm2-q8-audiocpp",
    }
}

/// Qwen3-TTS 0.6B Base q8_0: cloning requires a reference, no streaming.
pub fn qwen3_tts_06b() -> (r: AudiocppFamilyDesc)
    ensures
        is_family_record(TtsModelKind::Qwen3Tts06, r),
{
    AudiocppFamilyDesc {
        model_id: "qwen3-tts-0.6b",
        family: "qwen3_tts",
        gguf_file: QWEN3_TTS_06B_GGUF,
        required_files: &QWEN3_TTS_06B_FILES,
        sample_rate: 24000,
        voice_semantics: VoiceSemantics::ReferenceCloneRequired,
        allows_named_voice: false,
        supports_streaming: false,
        registry_hint: "zapmomo tts install-model --registry-id tts-qwen3-06b-base-q8-audiocpp",
    }
}

/// Qwen3-TTS 1.7B Base q8_0 (the `_v2` repack): as the 0.6B variant.
pub fn qwen3_tts_17b() -> (r: AudiocppFamilyDesc)
    ensures
        is_family_record(TtsModelKind::Qwen3Tts17, r),
{
    AudiocppFamilyDesc {
        model_id: "qwen3-tts-1.7b",
        family: "qwen3_tts",
        gguf_file: QWEN3_TTS_17B_GGUF,
        required_files: &QWEN3_TTS_17B_FILES,
        sample_rate: 24000,
        voice_semantics: VoiceSemantics::ReferenceCloneRequired,
        allows_named_voice: false,
        supports_streaming: false,
        registry_hint: "zapmomo tts install-model --registry-id tts-qwen3-17b-base-q8-audiocpp",
    }
}

/// The audio.cpp record of a TTS kind (`None` for sherpa-only kinds).
pub fn family_desc(kind: TtsModelKind) -> (r: Option<AudiocppFamilyDesc>)
    ensures
        r is Some == has_tts_family(kind),
        r matches Some(d) ==> is_family_record(kind, d),
{
    match kind {
        TtsModelKind::Pocket => Some(pocket()),
        TtsModelKind::Omnivoice => Some(omnivoice()),
        TtsModelKind::Voxcpm2 => Some(voxcpm2()),
        TtsModelKind::Qwen3Tts06 => Some(qwen3_tts_06b()),
        TtsModelKind::Qwen3Tts17 => Some(qwen3_tts_17b()),
        _ => None,
    }
}

/// The family-specific request options: voxcpm2 needs `retry_badcase: false`.
pub open spec fn request_options_of(family: Seq<char>) -> Seq<(Seq<char>, OptionValue)> {
    if family == "voxcpm2"@ {
        seq![("retry_badcase"@, OptionValue::Bool(false))]
    } else {
        seq![]
    }
}

pub open spec fn entries_view(v: Seq<OptionEntry>) -> Seq<(Seq<char>, OptionValue)> {
    v.map_values(|e: OptionEntry| (e.key@, e.value))
}

/// The family-specific server load options: pocket loads its English voice set.
pub open spec fn load_options_of(family: Seq<char>) -> Seq<(Seq<char>, OptionValue)> {
    if family == "pocket_tts"@ {
        seq![("language"@, OptionValue::Text("english"))]
    } else {
        seq![]
    }
}

impl AudiocppFamilyDesc {
    /// Server config `load_options`: `{"language": "english"}` for pocket,
    /// empty for the families whose options the server derives itself.
    pub fn load_options(&self) -> (r: Vec<OptionEntry>)
        ensures
            entries_view(r@) == load_options_of(self.family@),
    {
        let mut r: Vec<OptionEntry> = Vec::new();
        if str_eq(self.family, "pocket_tts") {
            r.push(OptionEntry { key: owned("language"), value: OptionValue::Text("english") });
        }
        assert(entries_view(r@) =~= load_options_of(self.family@));
        r
    }

    /// Request `options` that differ by family (sent by both request paths).
    pub fn request_options(&self) -> (r: Vec<OptionEntry>)
        ensures
            entries_view(r@) == request_options_of(self.family@),
    {
        let mut r: Vec<OptionEntry> = Vec::new();
        if str_eq(self.family, "voxcpm2") {
            r.push(OptionEntry { key: owned("retry_badcase"), value: OptionValue::Bool(false) });
        }
        assert(entries_view(r@) =~= request_options_of(self.family@));
        r
    }
}

/// The request `model` / server `models[].id` of each audio.cpp TTS kind.
pub open spec fn tts_model_id(kind: TtsModelKind) -> Seq<char> {
    match kind {
        TtsModelKind::Pocket => "pocket-tts-english"@,
        TtsModelKind::Omnivoice => "omnivoice"@,
        TtsModelKind::Voxcpm2 => "voxcpm2"@,
        TtsModelKind::Qwen3Tts06 => "qwen3-tts-0.6b"@,
        TtsModelKind::Qwen3Tts17 => "qwen3-tts-1.7b"@,
        _ => Seq::empty(),
    }
}

/// The audio.cpp family name of each audio.cpp TTS kind.
pub open spec fn tts_family_name(kind: TtsModelKind) -> Seq<char> {
    match kind {
        TtsModelKind::Pocket => "pocket_tts"@,
        TtsModelKind::Omnivoice => "omnivoice"@,
        TtsModelKind::Voxcpm2 => "voxcpm2"@,
        TtsModelKind::Qwen3Tts06 => "qwen3_tts"@,
        TtsModelKind::Qwen3Tts17 => "qwen3_tts"@,
        _ => Seq::empty(),
    }
}

/// The main GGUF file of each audio.cpp TTS kind.
pub open spec fn tts_gguf_file(kind: TtsModelKind) -> Seq<char> {
    match kind {
        TtsModelKind::Pocket => "pocket-tts-english-q8_0.gguf"@,
        TtsModelKind::Omnivoice => "omnivoice-q8_0.gguf"@,
        TtsModelKind::Voxcpm2 => "voxcpm2-q8_0.gguf"@,
        TtsModelKind::Qwen3Tts06 => "qwen3-tts-12hz-0.6b-base-q8_0.gguf"@,
        TtsModelKind::Qwen3Tts17 => "qwen3-tts-12hz-1.7b-base-q8_0_v2.gguf"@,
        _ => Seq::empty(),
    }
}

/// Whether the family streams (omnivoice and voxcpm2 do).
pub open spec fn tts_streams(kind: TtsModelKind) -> bool {
    kind == TtsModelKind::Omnivoice || kind == TtsModelKind::Voxcpm2
}

/// A copy of an options list.
pub fn clone_entries(v: &Vec<OptionEntry>) -> (r: Vec<OptionEntry>)
    ensures
        entries_view(r@) == entries_view(v@),
{
    let mut out: Vec<OptionEntry> = Vec::new();
    let mut i: usize = 0;
    while i < v.len()
        invariant
            0 <= i <= v.len(),
            entries_view(out@) == entries_view(v@.take(i as int)),
        decreases v.len() - i,
    {
        let ghost before = out@;
        out.push(OptionEntry { key: v[i].key.clone(), value: v[i].value });
        proof {
            assert(entries_view(out@) =~= entries_view(before).push((v@[i as int].key@, v@[i as int].value)));
            assert(v@.take(i + 1) =~= v@.take(i as int).push(v@[i as int]));
            assert(entries_view(v@.take(i + 1)) =~= entries_view(v@.take(i as int)).push(
                (v@[i as int].key@, v@[i as int].value),
            ));
        }
        i = i + 1;
    }
    assert(v@.take(v@.len() as int) =~= v@);
    out
}

} // verus!
