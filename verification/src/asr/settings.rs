//! The `[asr]` table of the settings file, and the parameter patch that the
//! settings panel applies to it.
use vstd::prelude::*;

use crate::asr::config::{AsrBackendKind, AsrModelKind};
use crate::text::{
    concat2, decimal, decimal_string, i32_decimal_string, opt_view, owned, signed_decimal, str_eq,
    trim, trim_str,
};

verus! {

/// The `[asr]` settings as the logic reads them. Paths are text whose
/// `${env.VAR}` references are already expanded; every field is optional.
/// (The endpoint rules and the blank penalty are real numbers and are kept
/// by the application beside this table.)
#[derive(Debug)]
pub struct AsrSettings {
    pub enabled: Option<bool>,
    pub model_type: Option<AsrModelKind>,
    pub backend: Option<String>,
    pub engine_path: Option<String>,
    pub model_dir: Option<String>,
    pub encoder: Option<String>,
    pub decoder: Option<String>,
    pub joiner: Option<String>,
    pub tokens: Option<String>,
    pub language: Option<String>,
    pub use_itn: Option<bool>,
    pub provider: Option<String>,
    pub num_threads: Option<i32>,
    pub chunk_size: Option<usize>,
    pub sample_rate: Option<i32>,
    pub decoding_method: Option<String>,
    pub enable_endpoint: Option<bool>,
    pub hotwords: Option<String>,
    pub enable_punctuation: Option<bool>,
    pub punctuation_model: Option<String>,
    pub debug: Option<bool>,
}

/// The table with nothing configured.
pub open spec fn empty_settings() -> AsrSettings {
    AsrSettings {
        enabled: None,
        model_type: None,
        backend: None,
        engine_path: None,
        model_dir: None,
        encoder: None,
        decoder: None,
        joiner: None,
        tokens: None,
        language: None,
        use_itn: None,
        provider: None,
        num_threads: None,
        chunk_size: None,
        sample_rate: None,
        decoding_method: None,
        enable_endpoint: None,
        hotwords: None,
        enable_punctuation: None,
        punctuation_model: None,
        debug: None,
    }
}

/// A missing table reads as the empty table.
pub open spec fn settings_or_empty(s: Option<&AsrSettings>) -> AsrSettings {
    match s {
        Some(x) => *x,
        None => empty_settings(),
    }
}

impl AsrSettings {
    /// The table with nothing configured.
    pub fn new() -> (r: Self)
        ensures
            r == empty_settings(),
    {
        AsrSettings {
            enabled: None,
            model_type: None,
            backend: None,
            engine_path: None,
            model_dir: None,
            encoder: None,
            decoder: None,
            joiner: None,
            tokens: None,
            language: None,
            use_itn: None,
            provider: None,
            num_threads: None,
            chunk_size: None,
            sample_rate: None,
            decoding_method: None,
            enable_endpoint: None,
            hotwords: None,
            enable_punctuation: None,
            punctuation_model: None,
            debug: None,
        }
    }
}

/// The parameters that the settings panel may change (`None` leaves a value
/// as it is). The endpoint rules and the blank penalty, which are real
/// numbers, are checked and written by the application beside this patch:
/// [`AsrParamsPatch::validate`] runs before those checks, and
/// [`patch_policy`] says whether the blank penalty is written.
#[derive(Debug)]
pub struct AsrParamsPatch {
    pub num_threads: Option<i32>,
    pub chunk_size: Option<usize>,
    pub enable_endpoint: Option<bool>,
    pub hotwords: Option<String>,
    pub enable_punctuation: Option<bool>,
    /// Transcription language (an empty text clears it: automatic detection).
    pub language: Option<String>,
    pub use_itn: Option<bool>,
    pub debug: Option<bool>,
}

impl Default for AsrSettings {
    /// The table with nothing configured.
    fn default() -> (r: Self)
        ensures
            r == empty_settings(),
    {
        AsrSettings::new()
    }
}

/// The patch that changes nothing.
pub open spec fn empty_patch() -> AsrParamsPatch {
    AsrParamsPatch {
        num_threads: None,
        chunk_size: None,
        enable_endpoint: None,
        hotwords: None,
        enable_punctuation: None,
        language: None,
        use_itn: None,
        debug: None,
    }
}

impl Default for AsrParamsPatch {
    /// The patch that changes nothing.
    fn default() -> (r: Self)
        ensures
            r == empty_patch(),
    {
        AsrParamsPatch {
            num_threads: None,
            chunk_size: None,
            enable_endpoint: None,
            hotwords: None,
            enable_punctuation: None,
            language: None,
            use_itn: None,
            debug: None,
        }
    }
}

/// Which family-specific fields a patch may write for these settings.
#[derive(Debug, Clone, Copy, PartialEq, Eq, Structural)]
pub struct PatchPolicy {
    /// Transducer-only; paraformer and Qwen3-ASR skip it.
    pub blank_penalty: bool,
    /// Paraformer and the audio.cpp backend skip hotwords.
    pub hotwords: bool,
    /// Qwen3-ASR under sherpa detects the language itself and skips it.
    pub language: bool,
    /// Qwen3-ASR skips inverse text normalisation.
    pub use_itn: bool,
}

pub open spec fn spec_patch_policy(s: AsrSettings) -> PatchPolicy {
    let paraformer = s.model_type == Some(AsrModelKind::Paraformer);
    let qwen3 = s.model_type == Some(AsrModelKind::Qwen3Asr);
    let audiocpp = s.backend is Some && s.backend.unwrap()@ == "audiocpp"@;
    PatchPolicy {
        blank_penalty: !(paraformer || qwen3),
        hotwords: !(paraformer || audiocpp),
        language: !(qwen3 && !audiocpp),
        use_itn: !qwen3,
    }
}

/// The family-specific write policy for the current settings.
pub fn patch_policy(asr: &AsrSettings) -> (r: PatchPolicy)
    ensures
        r == spec_patch_policy(*asr),
{
    let paraformer = asr.model_type == Some(AsrModelKind::Paraformer);
    let qwen3 = asr.model_type == Some(AsrModelKind::Qwen3Asr);
    let audiocpp = match &asr.backend {
        Some(b) => str_eq(b.as_str(), AsrBackendKind::Audiocpp.as_str()),
        None => false,
    };
    PatchPolicy {
        blank_penalty: !(paraformer || qwen3),
        hotwords: !(paraformer || audiocpp),
        language: !(qwen3 && !audiocpp),
        use_itn: !qwen3,
    }
}

/// A text parameter as stored: trimmed, and absent when nothing but whitespace.
pub open spec fn normalized_text(v: Seq<char>) -> Option<Seq<char>> {
    if trim(v).len() == 0 {
        None
    } else {
        Some(trim(v))
    }
}

pub fn normalize_text(v: &str) -> (r: Option<String>)
    ensures
        opt_view(r) == normalized_text(v@),
{
    let t = trim_str(v);
    if t.unicode_len() == 0 {
        None
    } else {
        Some(owned(t))
    }
}

pub open spec fn threads_in_range(v: i32) -> bool {
    1 <= v <= 32
}

pub open spec fn chunk_in_range(v: usize) -> bool {
    400 <= v <= 16000
}

/// The first range error of the patch (thread count, then chunk size).
pub open spec fn patch_error(p: AsrParamsPatch) -> Option<Seq<char>> {
    if p.num_threads is Some && !threads_in_range(p.num_threads.unwrap()) {
        Some("线程数需在 1~32，当前 "@ + signed_decimal(p.num_threads.unwrap() as int))
    } else if p.chunk_size is Some && !chunk_in_range(p.chunk_size.unwrap()) {
        Some("采样块大小需在 400~16000（@16k），当前 "@ + decimal(p.chunk_size.unwrap() as nat))
    } else {
        None
    }
}

/// The settings after a valid patch: each given value written, the
/// family-specific ones only where the policy allows.
pub open spec fn patched(p: AsrParamsPatch, old: AsrSettings, new: AsrSettings) -> bool {
    let pol = spec_patch_policy(old);
    &&& new.num_threads == if p.num_threads is Some { p.num_threads } else { old.num_threads }
    &&& new.chunk_size == if p.chunk_size is Some { p.chunk_size } else { old.chunk_size }
    &&& new.enable_endpoint == if p.enable_endpoint is Some { p.enable_endpoint } else { old.enable_endpoint }
    &&& new.enable_punctuation == if p.enable_punctuation is Some { p.enable_punctuation } else { old.enable_punctuation }
    &&& new.debug == if p.debug is Some { p.debug } else { old.debug }
    &&& new.use_itn == if p.use_itn is Some && pol.use_itn { p.use_itn } else { old.use_itn }
    &&& opt_view(new.hotwords) == if p.hotwords is Some && pol.hotwords {
        normalized_text(p.hotwords.unwrap()@)
    } else {
        opt_view(old.hotwords)
    }
    &&& opt_view(new.language) == if p.language is Some && pol.language {
        normalized_text(p.language.unwrap()@)
    } else {
        opt_view(old.language)
    }
    &&& new.enabled == old.enabled
    &&& new.model_type == old.model_type
    &&& new.backend == old.backend
    &&& new.engine_path == old.engine_path
    &&& new.model_dir == old.model_dir
    &&& new.encoder == old.encoder
    &&& new.decoder == old.decoder
    &&& new.joiner == old.joiner
    &&& new.tokens == old.tokens
    &&& new.provider == old.provider
    &&& new.sample_rate == old.sample_rate
    &&& new.decoding_method == old.decoding_method
    &&& new.punctuation_model == old.punctuation_model
}

impl AsrParamsPatch {
    /// Checks the ranges: 1..=32 threads, 400..=16000 samples per chunk.
    pub fn validate(&self) -> (r: Result<(), String>)
        ensures
            match patch_error(*self) {
                Some(m) => r matches Err(e) && e@ == m,
                None => r is Ok,
            },
    {
        if let Some(v) = self.num_threads {
            if !(1 <= v && v <= 32) {
                let n = i32_decimal_string(v);
                return Err(concat2("线程数需在 1~32，当前 ", n.as_str()));
            }
        }
        if let Some(v) = self.chunk_size {
            if !(400 <= v && v <= 16000) {
                let n = decimal_string(v as u64);
                return Err(concat2("采样块大小需在 400~16000（@16k），当前 ", n.as_str()));
            }
        }
        Ok(())
    }

    /// Validates the whole patch first, then writes it: on an error nothing
    /// is written.
    pub fn apply_to(&self, asr: &mut AsrSettings) -> (r: Result<(), String>)
        ensures
            match patch_error(*self) {
                Some(m) => r matches Err(e) && e@ == m && *final(asr) == *old(asr),
                None => r is Ok && patched(*self, *old(asr), *final(asr)),
            },
    {
        self.validate()?;
        let pol = patch_policy(asr);
        if let Some(v) = self.num_threads {
            asr.num_threads = Some(v);
        }
        if let Some(v) = self.chunk_size {
            asr.chunk_size = Some(v);
        }
        if let Some(v) = self.enable_endpoint {
            asr.enable_endpoint = Some(v);
        }
        if let Some(v) = &self.hotwords {
            if pol.hotwords {
                asr.hotwords = normalize_text(v.as_str());
            }
        }
        if let Some(v) = self.enable_punctuation {
            asr.enable_punctuation = Some(v);
        }
        if let Some(v) = &self.language {
            if pol.language {
                asr.language = normalize_text(v.as_str());
            }
        }
        if let Some(v) = self.use_itn {
            if pol.use_itn {
                asr.use_itn = Some(v);
            }
        }
        if let Some(v) = self.debug {
            asr.debug = Some(v);
        }
        Ok(())
    }
}


/// A blank language or hotword list in the patch clears the stored one (the
/// language back to automatic detection); any other text is stored trimmed.
/// Either only where the family's policy takes the field.
pub proof fn lemma_patch_blank_text_clears(p: AsrParamsPatch, old: AsrSettings, new: AsrSettings)
    requires
        patched(p, old, new),
    ensures
        p.language is Some && spec_patch_policy(old).language ==> {
            &&& trim(p.language.unwrap()@).len() == 0 ==> new.language is None
            &&& trim(p.language.unwrap()@).len() > 0 ==> opt_view(new.language) == Some(
                trim(p.language.unwrap()@),
            )
        },
        p.hotwords is Some && spec_patch_policy(old).hotwords ==> {
            &&& trim(p.hotwords.unwrap()@).len() == 0 ==> new.hotwords is None
            &&& trim(p.hotwords.unwrap()@).len() > 0 ==> opt_view(new.hotwords) == Some(
                trim(p.hotwords.unwrap()@),
            )
        },
{
}

} // verus!
