//! The command line's data and decisions: the subcommands that carry no
//! floating-point argument, and how command-line overrides reshape a
//! resolved configuration.
use vstd::prelude::*;
use vstd::string::*;

use crate::asr::config::{kind_is_streaming, model_kind_name, AsrModelKind, ResolvedAsrConfig};
use crate::audiocpp::families::{family_desc, has_tts_family, tts_family_name, VoiceSemantics};
use crate::text::{concat3, join_path, opt_view, path_join};
use crate::tts::config::{parse_tts_backend, tts_kind_name, ResolvedTtsConfig, TtsBackendKind, TtsModelKind};

verus! {

/// The version of the program (semver).
pub const VERSION: &'static str = "0.1.0";

/// KWS subcommands.
#[derive(Debug)]
pub enum KwsCmd {
    /// Listen to the microphone and detect wake words.
    Run { model_dir: Option<String>, keywords: Option<String>, device: Option<String>, duration: Option<u64> },
    /// Detect keywords in a wav file (no microphone needed).
    Test { wav: Option<String>, model_dir: Option<String>, keywords: Option<String> },
    /// List the microphone input devices.
    Devices,
    /// Download and install the wake-word model.
    InstallModel { model_dir: Option<String>, force: bool },
}

/// ASR subcommands.
#[derive(Debug)]
pub enum AsrCmd {
    /// Listen to the microphone and transcribe.
    Run { model_dir: Option<String>, device: Option<String>, duration: Option<u64>, hotwords: Option<String> },
    /// Transcribe a wav file.
    Test {
        wav: Option<String>,
        model_dir: Option<String>,
        hotwords: Option<String>,
        language: Option<String>,
        use_itn: Option<bool>,
    },
    /// List the microphone input devices.
    Devices,
    /// Download and install the ASR model (and the punctuation model).
    InstallModel { model_dir: Option<String>, force: bool },
    /// Hands-free continuous dictation (offline models only).
    Dictate {
        model_dir: Option<String>,
        device: Option<String>,
        duration: Option<u64>,
        language: Option<String>,
        use_itn: Option<bool>,
    },
}

/// LLM subcommands.
#[derive(Debug)]
pub enum LlmCmd {
    /// Check the provider configuration.
    Load,
    /// One streamed chat turn.
    Chat { text: String },
}

/// The error for an unknown `--backend`.
pub open spec fn unknown_tts_backend_message(v: Seq<char>) -> Seq<char> {
    "未知 TTS 后端: "@ + v + "（支持 sherpa / audiocpp）"@
}

/// `--backend` / `--engine-path` on a resolved TTS configuration. An
/// explicit backend also resets the model kind to ZipVoice (a persisted kind
/// may belong to the other backend). An unknown backend is an error and
/// leaves the configuration as it was.
pub fn apply_backend_override(
    cfg: &mut ResolvedTtsConfig,
    backend: Option<String>,
    engine_path: Option<String>,
) -> (r: Result<(), String>)
    ensures
        match backend {
            Some(v) => match parse_tts_backend(v@) {
                None => r matches Err(e) && e@ == unknown_tts_backend_message(v@) && *final(cfg) == *old(cfg),
                Some(b) => r is Ok && final(cfg).backend == b && final(cfg).model_type == TtsModelKind::Zipvoice,
            },
            None => r is Ok && final(cfg).backend == old(cfg).backend && final(cfg).model_type == old(
                cfg,
            ).model_type,
        },
        r is Ok ==> {
            &&& opt_view(final(cfg).engine_path) == match engine_path {
                Some(p) => Some(p@),
                None => opt_view(old(cfg).engine_path),
            }
            &&& final(cfg).model_dir == old(cfg).model_dir
            &&& final(cfg).provider == old(cfg).provider
            &&& final(cfg).num_threads == old(cfg).num_threads
        },
{
    if let Some(v) = &backend {
        match TtsBackendKind::parse_str(v.as_str()) {
            Some(b) => {
                cfg.backend = b;
                cfg.model_type = TtsModelKind::Zipvoice;
            },
            None => {
                return Err(concat3("未知 TTS 后端: ", v.as_str(), "（支持 sherpa / audiocpp）"));
            },
        }
    }
    if let Some(p) = engine_path {
        cfg.engine_path = Some(p);
    }
    Ok(())
}

/// Whether to tell the user that Qwen3-ASR ignores `--language`/`--use-itn`
/// (it identifies the language itself and punctuates natively).
pub open spec fn qwen3_ignores_flags(kind: AsrModelKind, language: bool, use_itn: bool) -> bool {
    kind == AsrModelKind::Qwen3Asr && (language || use_itn)
}

/// Applies the ASR command-line overrides (each given flag replaces the
/// resolved value) and tells whether the Qwen3-ASR hint is due.
pub fn apply_asr_overrides(
    cfg: &mut ResolvedAsrConfig,
    hotwords: Option<String>,
    language: Option<String>,
    use_itn: Option<bool>,
) -> (hint: bool)
    ensures
        hint == qwen3_ignores_flags(old(cfg).model_type, language is Some, use_itn is Some),
        opt_view(final(cfg).hotwords) == match hotwords {
            Some(h) => Some(h@),
            None => opt_view(old(cfg).hotwords),
        },
        opt_view(final(cfg).language) == match language {
            Some(l) => Some(l@),
            None => opt_view(old(cfg).language),
        },
        final(cfg).use_itn == match use_itn {
            Some(u) => Some(u),
            None => old(cfg).use_itn,
        },
        final(cfg).model_type == old(cfg).model_type,
        final(cfg).model_dir == old(cfg).model_dir,
        final(cfg).backend == old(cfg).backend,
{
    let hint = cfg.model_type == AsrModelKind::Qwen3Asr && (language.is_some() || use_itn.is_some());
    if hotwords.is_some() {
        cfg.hotwords = hotwords;
    }
    if language.is_some() {
        cfg.language = language;
    }
    if use_itn.is_some() {
        cfg.use_itn = use_itn;
    }
    hint
}

/// The error when dictation meets a streaming model (dictation is offline-only).
pub open spec fn dictate_refusal(kind: AsrModelKind) -> Seq<char> {
    "当前模型类型 "@ + model_kind_name(kind)
        + " 不支持免提听写（离线模型专用）。请先安装并设为当前 SenseVoice/Whisper/Qwen3-ASR 模型。"@
}

pub fn check_dictate_kind(kind: AsrModelKind) -> (r: Result<(), String>)
    ensures
        match r {
            Ok(()) => !kind_is_streaming(kind),
            Err(e) => kind_is_streaming(kind) && e@ == dictate_refusal(kind),
        },
{
    if kind.is_streaming() {
        Err(
            concat3(
                "当前模型类型 ",
                kind.as_str(),
                " 不支持免提听写（离线模型专用）。请先安装并设为当前 SenseVoice/Whisper/Qwen3-ASR 模型。",
            ),
        )
    } else {
        Ok(())
    }
}

/// The error when `asr test` has no wav and the model ships no sample.
pub fn missing_test_wav_message(model_dir: &str) -> (r: String)
    ensures
        r@ == "未指定 --wav 且 "@ + model_dir@ + " 下没有 test_wavs/*.wav 示例音频"@,
{
    concat3("未指定 --wav 且 ", model_dir, " 下没有 test_wavs/*.wav 示例音频")
}

/// The sample that `kws test` reads by default: `<model_dir>/test_wavs/zh_3.wav`.
pub fn kws_default_test_wav(model_dir: &str) -> (r: String)
    ensures
        r@ == path_join(model_dir@, "test_wavs/zh_3.wav"@),
{
    join_path(model_dir, "test_wavs/zh_3.wav")
}

/// What `tts voices` prints for an audio.cpp family (cloning models list no
/// built-in voices); a sherpa-only kind is an error.
pub open spec fn audiocpp_voices_text(kind: TtsModelKind) -> Result<Seq<char>, Seq<char>> {
    if !has_tts_family(kind) {
        Err("模型类型 "@ + tts_kind_name(kind) + " 不支持 audiocpp 后端"@)
    } else if kind == TtsModelKind::Pocket {
        Ok(
            "audiocpp 后端（"@ + tts_family_name(kind)
                + "）为固定音色模型：用 --voice 指定具名音色（未指定时为 alba），不支持参考音频克隆"@,
        )
    } else if kind == TtsModelKind::Qwen3Tts06 || kind == TtsModelKind::Qwen3Tts17 {
        Ok(
            "audiocpp 后端（"@ + tts_family_name(kind)
                + "）为必须克隆音色模型：必须用 --reference-wav 指定参考音频（--voice/音色库 id 也可）\n（Base 版无 auto voice 兜底，不可省略参考音色）"@,
        )
    } else {
        Ok(
            "audiocpp 后端（"@ + tts_family_name(kind)
                + "）为克隆模型：用 --reference-wav/--voice 指定参考音色\n（自定义音色库可用 `zapmomo tts voices` 管理，未指定时走 auto voice）"@,
        )
    }
}

pub fn audiocpp_voices_hint(kind: TtsModelKind) -> (r: Result<String, String>)
    ensures
        match (r, audiocpp_voices_text(kind)) {
            (Ok(a), Ok(b)) => a@ == b,
            (Err(a), Err(b)) => a@ == b,
            _ => false,
        },
{
    let desc = match family_desc(kind) {
        Some(d) => d,
        None => {
            return Err(concat3("模型类型 ", kind.as_str(), " 不支持 audiocpp 后端"));
        },
    };
    match desc.voice_semantics {
        VoiceSemantics::FixedNamed(_) => Ok(
            concat3(
                "audiocpp 后端（",
                desc.family,
                "）为固定音色模型：用 --voice 指定具名音色（未指定时为 alba），不支持参考音频克隆",
            ),
        ),
        VoiceSemantics::ReferenceClone => Ok(
            concat3(
                "audiocpp 后端（",
                desc.family,
                "）为克隆模型：用 --reference-wav/--voice 指定参考音色\n（自定义音色库可用 `zapmomo tts voices` 管理，未指定时走 auto voice）",
            ),
        ),
        VoiceSemantics::ReferenceCloneRequired => Ok(
            concat3(
                "audiocpp 后端（",
                desc.family,
                "）为必须克隆音色模型：必须用 --reference-wav 指定参考音频（--voice/音色库 id 也可）\n（Base 版无 auto voice 兜底，不可省略参考音色）",
            ),
        ),
    }
}

} // verus!
