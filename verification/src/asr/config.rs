//! ASR configuration: model kinds, backends, per-kind file sets and the
//! probing of a model directory for a complete model.
use vstd::prelude::*;
use vstd::string::*;

use crate::asr::settings::{settings_or_empty, AsrSettings};
use crate::audiocpp::asr_families::{asr_family_desc, detect_gguf_in_dir, QWEN3_ASR_06B_GGUF};
use crate::listing::DirListing;
use crate::text::{
    clone_opt, concat3, is_absolute, join_path, path_is_absolute, path_join, concat2, contains_seq, contains_str, ends_with, filter_map_names, fold_least, has_prefix,
    has_suffix, lemma_filter_map_push, lemma_filter_names_members, lemma_least_opt_member,
    lemma_least_state_opt, lemma_views_take_push, least_opt,
    least_state, opt_view, owned, starts_with, str_eq, strip_suffix, views,
};

verus! {

/// Default zipformer encoder (int8), decoder (fp32), joiner (int8) and tokens.
pub const DEFAULT_ENCODER: &'static str = "encoder-epoch-99-avg-1.int8.onnx";

pub const DEFAULT_DECODER: &'static str = "decoder-epoch-99-avg-1.onnx";

pub const DEFAULT_JOINER: &'static str = "joiner-epoch-99-avg-1.int8.onnx";

pub const DEFAULT_TOKENS: &'static str = "tokens.txt";

/// The punctuation model file.
pub const DEFAULT_PUNCT_MODEL: &'static str = "model.onnx";

/// SenseVoice main model (int8 variant).
pub const SENSEVOICE_MODEL: &'static str = "model.int8.onnx";

pub const WHISPER_TINY_ENCODER: &'static str = "tiny-encoder.onnx";

pub const WHISPER_TINY_DECODER: &'static str = "tiny-decoder.onnx";

pub const WHISPER_TINY_TOKENS: &'static str = "tiny-tokens.txt";

pub const WHISPER_BASE_ENCODER: &'static str = "base-encoder.onnx";

pub const WHISPER_BASE_DECODER: &'static str = "base-decoder.onnx";

pub const WHISPER_BASE_TOKENS: &'static str = "base-tokens.txt";

/// Streaming paraformer files (bare names, int8 variant).
pub const PARAFORMER_ENCODER: &'static str = "encoder.int8.onnx";

pub const PARAFORMER_DECODER: &'static str = "decoder.int8.onnx";

/// Qwen3-ASR convolutional front end (fixed name, no int8 variant).
pub const QWEN3_CONV_FRONTEND: &'static str = "conv_frontend.onnx";

/// Qwen3-ASR tokenizer directory (there is no tokens.txt).
pub const QWEN3_TOKENIZER_DIR: &'static str = "tokenizer";

pub const REQUIRED_FILES: [&'static str; 4] = [DEFAULT_ENCODER, DEFAULT_DECODER, DEFAULT_JOINER, DEFAULT_TOKENS];

pub const PUNCT_REQUIRED_FILES: [&'static str; 1] = [DEFAULT_PUNCT_MODEL];

pub const SENSEVOICE_REQUIRED_FILES: [&'static str; 2] = [SENSEVOICE_MODEL, DEFAULT_TOKENS];

pub const WHISPER_TINY_REQUIRED_FILES: [&'static str; 3] = [
    WHISPER_TINY_ENCODER,
    WHISPER_TINY_DECODER,
    WHISPER_TINY_TOKENS,
];

pub const WHISPER_BASE_REQUIRED_FILES: [&'static str; 3] = [
    WHISPER_BASE_ENCODER,
    WHISPER_BASE_DECODER,
    WHISPER_BASE_TOKENS,
];

pub const PARAFORMER_REQUIRED_FILES: [&'static str; 3] = [PARAFORMER_ENCODER, PARAFORMER_DECODER, DEFAULT_TOKENS];

/// Qwen3-ASR install set: the tokenizer directory is listed by its three files.
pub const QWEN3_REQUIRED_FILES: [&'static str; 6] = [
    QWEN3_CONV_FRONTEND,
    "encoder.int8.onnx",
    "decoder.int8.onnx",
    "tokenizer/vocab.json",
    "tokenizer/merges.txt",
    "tokenizer/tokenizer_config.json",
];

/// ASR model family.
#[derive(Debug, Clone, Copy, PartialEq, Eq, Structural)]
pub enum AsrModelKind {
    /// Streaming zipformer transducer (encoder/decoder/joiner/tokens).
    Zipformer,
    /// Streaming paraformer (bare encoder/decoder + tokens).
    Paraformer,
    /// Offline SenseVoice (model + tokens).
    SenseVoice,
    /// Offline Whisper (`<size>-encoder/decoder/tokens`).
    Whisper,
    /// Offline Qwen3-ASR (conv front end + encoder/decoder + tokenizer dir).
    Qwen3Asr,
}

/// The snake_case name of a model kind.
pub open spec fn model_kind_name(k: AsrModelKind) -> Seq<char> {
    match k {
        AsrModelKind::Zipformer => "zipformer"@,
        AsrModelKind::Paraformer => "paraformer"@,
        AsrModelKind::SenseVoice => "sensevoice"@,
        AsrModelKind::Whisper => "whisper"@,
        AsrModelKind::Qwen3Asr => "qwen3_asr"@,
    }
}

/// The model kind whose snake_case name is `s`.
pub open spec fn parse_model_kind(s: Seq<char>) -> Option<AsrModelKind> {
    if s == "zipformer"@ {
        Some(AsrModelKind::Zipformer)
    } else if s == "paraformer"@ {
        Some(AsrModelKind::Paraformer)
    } else if s == "sensevoice"@ {
        Some(AsrModelKind::SenseVoice)
    } else if s == "whisper"@ {
        Some(AsrModelKind::Whisper)
    } else if s == "qwen3_asr"@ {
        Some(AsrModelKind::Qwen3Asr)
    } else {
        None
    }
}

pub open spec fn kind_is_streaming(k: AsrModelKind) -> bool {
    k == AsrModelKind::Zipformer || k == AsrModelKind::Paraformer
}

impl AsrModelKind {
    /// snake_case name (what the configuration stores).
    pub fn as_str(&self) -> (r: &'static str)
        ensures
            r@ == model_kind_name(*self),
    {
        match self {
            AsrModelKind::Zipformer => "zipformer",
            AsrModelKind::Paraformer => "paraformer",
            AsrModelKind::SenseVoice => "sensevoice",
            AsrModelKind::Whisper => "whisper",
            AsrModelKind::Qwen3Asr => "qwen3_asr",
        }
    }

    /// Parses a snake_case name; any other text gives `None`.
    pub fn parse_str(s: &str) -> (r: Option<Self>)
        ensures
            r == parse_model_kind(s@),
    {
        if str_eq(s, "zipformer") {
            Some(AsrModelKind::Zipformer)
        } else if str_eq(s, "paraformer") {
            Some(AsrModelKind::Paraformer)
        } else if str_eq(s, "sensevoice") {
            Some(AsrModelKind::SenseVoice)
        } else if str_eq(s, "whisper") {
            Some(AsrModelKind::Whisper)
        } else if str_eq(s, "qwen3_asr") {
            Some(AsrModelKind::Qwen3Asr)
        } else {
            None
        }
    }

    /// Streaming kinds (zipformer, paraformer) can run in a live session.
    pub fn is_streaming(&self) -> (r: bool)
        ensures
            r == kind_is_streaming(*self),
    {
        matches!(self, AsrModelKind::Zipformer | AsrModelKind::Paraformer)
    }

    /// Offline kinds only transcribe whole recordings.
    pub fn is_offline(&self) -> (r: bool)
        ensures
            r == !kind_is_streaming(*self),
    {
        !self.is_streaming()
    }
}

impl Default for AsrModelKind {
    fn default() -> (r: Self)
        ensures
            r == AsrModelKind::Zipformer,
    {
        AsrModelKind::Zipformer
    }
}

/// Every kind's name parses back to that kind, and no two kinds share a name.
pub proof fn lemma_model_kind_name_roundtrip(k: AsrModelKind)
    ensures
        parse_model_kind(model_kind_name(k)) == Some(k),
{
    reveal_strlit("zipformer");
    reveal_strlit("paraformer");
    reveal_strlit("sensevoice");
    reveal_strlit("whisper");
    reveal_strlit("qwen3_asr");
    assert("zipformer"@[0] == 'z');
    assert("paraformer"@[0] == 'p');
    assert("sensevoice"@[0] == 's');
    assert("whisper"@[0] == 'w');
    assert("qwen3_asr"@[0] == 'q');
}

/// ASR engine backend: in-process sherpa-onnx or the audio.cpp sidecar.
#[derive(Debug, Clone, Copy, PartialEq, Eq, Structural)]
pub enum AsrBackendKind {
    Sherpa,
    Audiocpp,
}

pub open spec fn backend_kind_name(k: AsrBackendKind) -> Seq<char> {
    match k {
        AsrBackendKind::Sherpa => "sherpa"@,
        AsrBackendKind::Audiocpp => "audiocpp"@,
    }
}

pub open spec fn parse_backend_kind(s: Seq<char>) -> Option<AsrBackendKind> {
    if s == "sherpa"@ {
        Some(AsrBackendKind::Sherpa)
    } else if s == "audiocpp"@ {
        Some(AsrBackendKind::Audiocpp)
    } else {
        None
    }
}

impl AsrBackendKind {
    pub fn as_str(&self) -> (r: &'static str)
        ensures
            r@ == backend_kind_name(*self),
    {
        match self {
            AsrBackendKind::Sherpa => "sherpa",
            AsrBackendKind::Audiocpp => "audiocpp",
        }
    }

    pub fn parse_str(s: &str) -> (r: Option<Self>)
        ensures
            r == parse_backend_kind(s@),
    {
        if str_eq(s, "sherpa") {
            Some(AsrBackendKind::Sherpa)
        } else if str_eq(s, "audiocpp") {
            Some(AsrBackendKind::Audiocpp)
        } else {
            None
        }
    }
}

impl Default for AsrBackendKind {
    fn default() -> (r: Self)
        ensures
            r == AsrBackendKind::Sherpa,
    {
        AsrBackendKind::Sherpa
    }
}

/// Every backend's name parses back to that backend.
pub proof fn lemma_backend_kind_name_roundtrip(k: AsrBackendKind)
    ensures
        parse_backend_kind(backend_kind_name(k)) == Some(k),
{
    reveal_strlit("sherpa");
    reveal_strlit("audiocpp");
    assert("sherpa"@[0] == 's');
    assert("audiocpp"@[0] == 'a');
}

/// The install set of each kind (Whisper: empty, its file names carry a size prefix).
pub open spec fn required_file_names(kind: AsrModelKind) -> Seq<Seq<char>> {
    match kind {
        AsrModelKind::Zipformer => seq![DEFAULT_ENCODER@, DEFAULT_DECODER@, DEFAULT_JOINER@, DEFAULT_TOKENS@],
        AsrModelKind::Paraformer => seq![PARAFORMER_ENCODER@, PARAFORMER_DECODER@, DEFAULT_TOKENS@],
        AsrModelKind::SenseVoice => seq![SENSEVOICE_MODEL@, DEFAULT_TOKENS@],
        AsrModelKind::Whisper => seq![],
        AsrModelKind::Qwen3Asr => seq![
            QWEN3_CONV_FRONTEND@,
            "encoder.int8.onnx"@,
            "decoder.int8.onnx"@,
            "tokenizer/vocab.json"@,
            "tokenizer/merges.txt"@,
            "tokenizer/tokenizer_config.json"@,
        ],
    }
}

pub open spec fn str_views(v: Seq<&str>) -> Seq<Seq<char>> {
    v.map_values(|s: &str| s@)
}

/// Files (relative to the model directory) that a finished install of `kind` holds.
pub fn required_files(kind: AsrModelKind) -> (r: &'static [&'static str])
    ensures
        str_views(r@) == required_file_names(kind),
{
    let r: &'static [&'static str] = match kind {
        AsrModelKind::Zipformer => &REQUIRED_FILES,
        AsrModelKind::Paraformer => &PARAFORMER_REQUIRED_FILES,
        AsrModelKind::SenseVoice => &SENSEVOICE_REQUIRED_FILES,
        AsrModelKind::Whisper => &[],
        AsrModelKind::Qwen3Asr => &QWEN3_REQUIRED_FILES,
    };
    assert(str_views(r@) =~= required_file_names(kind));
    r
}

// ---------------------------------------------------------------------------
// Probing a model directory
// ---------------------------------------------------------------------------

/// `{prefix}-*.onnx` file names.
pub open spec fn onnx_candidate(prefix: Seq<char>) -> spec_fn(Seq<char>) -> Option<Seq<char>> {
    |f: Seq<char>|
        if has_prefix(f, prefix + "-"@) && has_suffix(f, ".onnx"@) {
            Some(f)
        } else {
            None
        }
}

/// Names whose `.int8` marker agrees with the preference.
pub open spec fn int8_choice(prefer_int8: bool) -> spec_fn(Seq<char>) -> Option<Seq<char>> {
    |f: Seq<char>|
        if contains_seq(f, ".int8"@) == prefer_int8 {
            Some(f)
        } else {
            None
        }
}

/// The onnx file chosen for a component when the settings name none:
/// the default name if present; else the least `{prefix}-*.onnx` name whose
/// `.int8` marker matches the preference; else the least such name at all;
/// else the default name.
pub open spec fn detected_default_onnx(
    files: Seq<Seq<char>>,
    prefix: Seq<char>,
    fallback: Seq<char>,
    prefer_int8: bool,
) -> Seq<char> {
    if files.contains(fallback) {
        fallback
    } else {
        let cands = filter_map_names(files, onnx_candidate(prefix));
        match least_opt(filter_map_names(cands, int8_choice(prefer_int8))) {
            Some(r) => r,
            None => match least_opt(cands) {
                Some(r) => r,
                None => fallback,
            },
        }
    }
}

/// Default onnx file name of one component, chosen by the directory contents.
pub fn detect_default_onnx(dir: &DirListing, prefix: &str, fallback: &str, prefer_int8: bool) -> (r:
    String)
    ensures
        r@ == detected_default_onnx(dir.file_names(), prefix@, fallback@, prefer_int8),
{
    if dir.has_file(fallback) {
        return owned(fallback);
    }
    let dash = concat2(prefix, "-");
    let ghost cand_f = onnx_candidate(prefix@);
    let ghost pref_f = int8_choice(prefer_int8);
    let mut best_any: Option<String> = None;
    let mut best_pref: Option<String> = None;
    let n = dir.files.len();
    let mut i: usize = 0;
    while i < n
        invariant
            n == dir.files.len(),
            0 <= i <= n,
            dash@ == prefix@ + "-"@,
            cand_f == onnx_candidate(prefix@),
            pref_f == int8_choice(prefer_int8),
            least_state(best_any, filter_map_names(views(dir.files@.take(i as int)), cand_f)),
            least_state(
                best_pref,
                filter_map_names(filter_map_names(views(dir.files@.take(i as int)), cand_f), pref_f),
            ),
        decreases n - i,
    {
        let name = &dir.files[i];
        let ghost prev = views(dir.files@.take(i as int));
        let ghost cands = filter_map_names(prev, cand_f);
        proof {
            lemma_views_take_push(dir.files@, i as int);
            lemma_filter_map_push(prev, name@, cand_f);
        }
        if starts_with(name.as_str(), dash.as_str()) && ends_with(name.as_str(), ".onnx") {
            proof {
                lemma_filter_map_push(cands, name@, pref_f);
            }
            if contains_str(name.as_str(), ".int8") == prefer_int8 {
                best_pref = fold_least(best_pref, name.clone(), Ghost(filter_map_names(cands, pref_f)));
            }
            best_any = fold_least(best_any, name.clone(), Ghost(cands));
        }
        i = i + 1;
    }
    proof {
        assert(dir.files@.take(n as int) =~= dir.files@);
        lemma_least_state_opt(best_any, filter_map_names(dir.file_names(), cand_f));
        lemma_least_state_opt(
            best_pref,
            filter_map_names(filter_map_names(dir.file_names(), cand_f), pref_f),
        );
    }
    match best_pref {
        Some(b) => b,
        None => match best_any {
            Some(b) => b,
            None => owned(fallback),
        },
    }
}

/// The default-name probe per settings field: encoder and joiner prefer int8,
/// the decoder prefers fp32, other fields keep the fallback.
pub open spec fn detected_default_name(field: Seq<char>, files: Seq<Seq<char>>, fallback: Seq<char>) -> Seq<char> {
    if field == "encoder"@ {
        detected_default_onnx(files, "encoder"@, fallback, true)
    } else if field == "decoder"@ {
        detected_default_onnx(files, "decoder"@, fallback, false)
    } else if field == "joiner"@ {
        detected_default_onnx(files, "joiner"@, fallback, true)
    } else {
        fallback
    }
}

pub fn detect_default_name(field: &str, dir: &DirListing, fallback: &str) -> (r: String)
    ensures
        r@ == detected_default_name(field@, dir.file_names(), fallback@),
{
    if str_eq(field, "encoder") {
        detect_default_onnx(dir, "encoder", fallback, true)
    } else if str_eq(field, "decoder") {
        detect_default_onnx(dir, "decoder", fallback, false)
    } else if str_eq(field, "joiner") {
        detect_default_onnx(dir, "joiner", fallback, true)
    } else {
        owned(fallback)
    }
}

/// SenseVoice main model names: `model.onnx`, `model.int8.onnx`, `model-*.onnx`.
pub open spec fn model_onnx_candidate() -> spec_fn(Seq<char>) -> Option<Seq<char>> {
    |f: Seq<char>|
        if (f == "model.onnx"@ || f == "model.int8.onnx"@ || has_prefix(f, "model-"@)) && has_suffix(
            f,
            ".onnx"@,
        ) {
            Some(f)
        } else {
            None
        }
}

/// The least SenseVoice main-model name in the directory.
pub open spec fn detected_model_onnx(files: Seq<Seq<char>>) -> Option<Seq<char>> {
    least_opt(filter_map_names(files, model_onnx_candidate()))
}

pub fn detect_model_onnx(dir: &DirListing) -> (r: Option<String>)
    ensures
        opt_view(r) == detected_model_onnx(dir.file_names()),
{
    let ghost f = model_onnx_candidate();
    let mut best: Option<String> = None;
    let n = dir.files.len();
    let mut i: usize = 0;
    while i < n
        invariant
            n == dir.files.len(),
            0 <= i <= n,
            f == model_onnx_candidate(),
            least_state(best, filter_map_names(views(dir.files@.take(i as int)), f)),
        decreases n - i,
    {
        let name = &dir.files[i];
        let ghost prev = views(dir.files@.take(i as int));
        proof {
            lemma_views_take_push(dir.files@, i as int);
            lemma_filter_map_push(prev, name@, f);
        }
        let s = name.as_str();
        if (str_eq(s, "model.onnx") || str_eq(s, "model.int8.onnx") || starts_with(s, "model-"))
            && ends_with(s, ".onnx") {
            best = fold_least(best, name.clone(), Ghost(filter_map_names(prev, f)));
        }
        i = i + 1;
    }
    proof {
        assert(dir.files@.take(n as int) =~= dir.files@);
        lemma_least_state_opt(best, filter_map_names(dir.file_names(), f));
    }
    best
}

/// The whisper size prefix of a file name: `<p>-encoder.onnx` or else
/// `<p>-encoder.int8.onnx`, with `p` non-empty.
pub open spec fn whisper_prefix_of() -> spec_fn(Seq<char>) -> Option<Seq<char>> {
    |f: Seq<char>|
        if has_suffix(f, "-encoder.onnx"@) {
            let p = f.subrange(0, f.len() - "-encoder.onnx"@.len());
            if p.len() > 0 {
                Some(p)
            } else {
                None
            }
        } else if has_suffix(f, "-encoder.int8.onnx"@) {
            let p = f.subrange(0, f.len() - "-encoder.int8.onnx"@.len());
            if p.len() > 0 {
                Some(p)
            } else {
                None
            }
        } else {
            None
        }
}

/// The least whisper size prefix found in the directory.
pub open spec fn detected_whisper_prefix(files: Seq<Seq<char>>) -> Option<Seq<char>> {
    least_opt(filter_map_names(files, whisper_prefix_of()))
}

pub fn detect_whisper_prefix(dir: &DirListing) -> (r: Option<String>)
    ensures
        opt_view(r) == detected_whisper_prefix(dir.file_names()),
{
    let ghost f = whisper_prefix_of();
    let mut best: Option<String> = None;
    let n = dir.files.len();
    let mut i: usize = 0;
    while i < n
        invariant
            n == dir.files.len(),
            0 <= i <= n,
            f == whisper_prefix_of(),
            least_state(best, filter_map_names(views(dir.files@.take(i as int)), f)),
        decreases n - i,
    {
        let name = &dir.files[i];
        let ghost prev = views(dir.files@.take(i as int));
        proof {
            lemma_views_take_push(dir.files@, i as int);
            lemma_filter_map_push(prev, name@, f);
        }
        let stripped = match strip_suffix(name.as_str(), "-encoder.onnx") {
            Some(p) => Some(p),
            None => strip_suffix(name.as_str(), "-encoder.int8.onnx"),
        };
        if let Some(p) = stripped {
            if p.unicode_len() > 0 {
                best = fold_least(best, owned(p), Ghost(filter_map_names(prev, f)));
            }
        }
        i = i + 1;
    }
    proof {
        assert(dir.files@.take(n as int) =~= dir.files@);
        lemma_least_state_opt(best, filter_map_names(dir.file_names(), f));
    }
    best
}

/// Bare component file: `<component>.int8.onnx` when present, else `<component>.onnx`.
pub open spec fn detected_bare_int8_onnx(files: Seq<Seq<char>>, component: Seq<char>) -> Seq<char> {
    if files.contains(component + ".int8.onnx"@) {
        component + ".int8.onnx"@
    } else {
        component + ".onnx"@
    }
}

pub fn detect_bare_int8_onnx(dir: &DirListing, component: &str) -> (r: String)
    ensures
        r@ == detected_bare_int8_onnx(dir.file_names(), component@),
{
    let int8 = concat2(component, ".int8.onnx");
    if dir.has_file(int8.as_str()) {
        int8
    } else {
        concat2(component, ".onnx")
    }
}

pub open spec fn has_bare(files: Seq<Seq<char>>, component: Seq<char>) -> bool {
    files.contains(component + ".int8.onnx"@) || files.contains(component + ".onnx"@)
}

/// A streaming paraformer set: bare encoder and decoder (int8 or fp32) and tokens.
pub open spec fn paraformer_detected(files: Seq<Seq<char>>) -> bool {
    has_bare(files, "encoder"@) && has_bare(files, "decoder"@) && files.contains(DEFAULT_TOKENS@)
}

fn has_bare_file(dir: &DirListing, component: &str) -> (r: bool)
    ensures
        r == has_bare(dir.file_names(), component@),
{
    let a = concat2(component, ".int8.onnx");
    let b = concat2(component, ".onnx");
    dir.has_file(a.as_str()) || dir.has_file(b.as_str())
}

pub fn paraformer_files_detected(dir: &DirListing) -> (r: bool)
    ensures
        r == paraformer_detected(dir.file_names()),
{
    has_bare_file(dir, "encoder") && has_bare_file(dir, "decoder") && dir.has_file(DEFAULT_TOKENS)
}

/// A Qwen3-ASR set: conv front end, bare encoder and decoder, tokenizer directory.
pub open spec fn qwen3_detected(files: Seq<Seq<char>>, dirs: Seq<Seq<char>>) -> bool {
    files.contains(QWEN3_CONV_FRONTEND@) && has_bare(files, "encoder"@) && has_bare(files, "decoder"@)
        && dirs.contains(QWEN3_TOKENIZER_DIR@)
}

pub fn qwen3_files_detected(dir: &DirListing) -> (r: bool)
    ensures
        r == qwen3_detected(dir.file_names(), dir.dir_names()),
{
    dir.has_file(QWEN3_CONV_FRONTEND) && has_bare_file(dir, "encoder") && has_bare_file(dir, "decoder")
        && dir.has_dir(QWEN3_TOKENIZER_DIR)
}

/// The model kind a directory holds: Qwen3-ASR, then SenseVoice, then Whisper
/// (prefix with its decoder and tokens), then paraformer, else zipformer.
pub open spec fn detected_kind(files: Seq<Seq<char>>, dirs: Seq<Seq<char>>) -> AsrModelKind {
    if qwen3_detected(files, dirs) {
        AsrModelKind::Qwen3Asr
    } else if detected_model_onnx(files) is Some && files.contains(DEFAULT_TOKENS@) {
        AsrModelKind::SenseVoice
    } else if detected_whisper_prefix(files) is Some && files.contains(
        detected_whisper_prefix(files).unwrap() + "-decoder.onnx"@,
    ) && files.contains(detected_whisper_prefix(files).unwrap() + "-tokens.txt"@) {
        AsrModelKind::Whisper
    } else if paraformer_detected(files) {
        AsrModelKind::Paraformer
    } else {
        AsrModelKind::Zipformer
    }
}

/// Probes the model kind from the directory contents (used when the settings
/// name no kind).
pub fn detect_kind_from_dir(dir: &DirListing) -> (r: AsrModelKind)
    ensures
        r == detected_kind(dir.file_names(), dir.dir_names()),
{
    if qwen3_files_detected(dir) {
        return AsrModelKind::Qwen3Asr;
    }
    if detect_model_onnx(dir).is_some() && dir.has_file(DEFAULT_TOKENS) {
        return AsrModelKind::SenseVoice;
    }
    if let Some(prefix) = detect_whisper_prefix(dir) {
        let dec = concat2(prefix.as_str(), "-decoder.onnx");
        let tok = concat2(prefix.as_str(), "-tokens.txt");
        if dir.has_file(dec.as_str()) && dir.has_file(tok.as_str()) {
            return AsrModelKind::Whisper;
        }
    }
    if paraformer_files_detected(dir) {
        return AsrModelKind::Paraformer;
    }
    AsrModelKind::Zipformer
}

/// Whether the directory holds a complete set of files of the given kind.
pub open spec fn files_present_for_kind(
    files: Seq<Seq<char>>,
    dirs: Seq<Seq<char>>,
    kind: AsrModelKind,
) -> bool {
    match kind {
        AsrModelKind::Zipformer => files.contains(
            detected_default_onnx(files, "encoder"@, DEFAULT_ENCODER@, true),
        ) && files.contains(detected_default_onnx(files, "decoder"@, DEFAULT_DECODER@, false))
            && files.contains(detected_default_onnx(files, "joiner"@, DEFAULT_JOINER@, true))
            && files.contains(DEFAULT_TOKENS@),
        AsrModelKind::Paraformer => paraformer_detected(files),
        AsrModelKind::SenseVoice => detected_model_onnx(files) is Some && files.contains(
            DEFAULT_TOKENS@,
        ),
        AsrModelKind::Whisper => match detected_whisper_prefix(files) {
            Some(p) => files.contains(p + "-encoder.onnx"@) && files.contains(p + "-decoder.onnx"@)
                && files.contains(p + "-tokens.txt"@),
            None => false,
        },
        AsrModelKind::Qwen3Asr => qwen3_detected(files, dirs),
    }
}

pub fn asr_files_present_for_kind(dir: &DirListing, kind: AsrModelKind) -> (r: bool)
    ensures
        r == files_present_for_kind(dir.file_names(), dir.dir_names(), kind),
{
    match kind {
        AsrModelKind::Zipformer => {
            let enc = detect_default_onnx(dir, "encoder", DEFAULT_ENCODER, true);
            let dec = detect_default_onnx(dir, "decoder", DEFAULT_DECODER, false);
            let joi = detect_default_onnx(dir, "joiner", DEFAULT_JOINER, true);
            dir.has_file(enc.as_str()) && dir.has_file(dec.as_str()) && dir.has_file(joi.as_str())
                && dir.has_file(DEFAULT_TOKENS)
        },
        AsrModelKind::Paraformer => paraformer_files_detected(dir),
        AsrModelKind::SenseVoice => detect_model_onnx(dir).is_some() && dir.has_file(DEFAULT_TOKENS),
        AsrModelKind::Whisper => match detect_whisper_prefix(dir) {
            Some(p) => {
                let enc = concat2(p.as_str(), "-encoder.onnx");
                let dec = concat2(p.as_str(), "-decoder.onnx");
                let tok = concat2(p.as_str(), "-tokens.txt");
                dir.has_file(enc.as_str()) && dir.has_file(dec.as_str()) && dir.has_file(tok.as_str())
            },
            None => false,
        },
        AsrModelKind::Qwen3Asr => qwen3_files_detected(dir),
    }
}

/// Whether the directory holds a complete model of the kind it is probed to hold.
pub fn asr_files_present(dir: &DirListing) -> (r: bool)
    ensures
        r == files_present_for_kind(
            dir.file_names(),
            dir.dir_names(),
            detected_kind(dir.file_names(), dir.dir_names()),
        ),
{
    asr_files_present_for_kind(dir, detect_kind_from_dir(dir))
}

// ---------------------------------------------------------------------------
// Resolving the configuration
// ---------------------------------------------------------------------------

/// A configured path: an absolute path is kept, a relative one is anchored at `dir`.
pub open spec fn anchored(dir: Seq<char>, p: Seq<char>) -> Seq<char> {
    if is_absolute(p) {
        p
    } else {
        path_join(dir, p)
    }
}

/// A file of the model: the configured path (anchored at the model directory),
/// else the default name inside the model directory.
pub open spec fn file_path(model_dir: Seq<char>, value: Option<Seq<char>>, default_name: Seq<char>) -> Seq<
    char,
> {
    match value {
        Some(v) => anchored(model_dir, v),
        None => path_join(model_dir, default_name),
    }
}

fn anchor(dir: &str, p: &str) -> (r: String)
    ensures
        r@ == anchored(dir@, p@),
{
    if path_is_absolute(p) {
        owned(p)
    } else {
        join_path(dir, p)
    }
}

/// Path of a model file: the configured value if any, else `default_name`,
/// relative paths anchored at the model directory.
pub fn resolve_file(value: Option<&str>, default_name: &str, model_dir: &str) -> (r: String)
    ensures
        r@ == file_path(
            model_dir@,
            match value {
                Some(v) => Some(v@),
                None => None,
            },
            default_name@,
        ),
{
    match value {
        Some(v) => anchor(model_dir, v),
        None => join_path(model_dir, default_name),
    }
}

/// The model directory: the command line wins, then the settings (relative
/// paths anchored at the settings directory), then the default directory.
pub open spec fn resolved_model_dir(
    settings_dir: Option<Seq<char>>,
    cli: Option<Seq<char>>,
    base: Seq<char>,
    default_dir: Seq<char>,
) -> Seq<char> {
    match cli {
        Some(c) => c,
        None => match settings_dir {
            Some(d) => anchored(base, d),
            None => default_dir,
        },
    }
}

pub fn resolve_model_dir(
    settings_model_dir: Option<&str>,
    cli_model_dir: Option<&str>,
    settings_dir: &str,
    default_dir: &str,
) -> (r: String)
    ensures
        r@ == resolved_model_dir(
            match settings_model_dir {
                Some(v) => Some(v@),
                None => None,
            },
            match cli_model_dir {
                Some(v) => Some(v@),
                None => None,
            },
            settings_dir@,
            default_dir@,
        ),
{
    match cli_model_dir {
        Some(c) => owned(c),
        None => match settings_model_dir {
            Some(d) => anchor(settings_dir, d),
            None => owned(default_dir),
        },
    }
}

/// Default model directory: the user's install if it holds tokens, then the
/// install under the legacy data root, then the source tree's copy, else the
/// user's directory. The flags tell whether each holds `tokens.txt`.
pub fn choose_default_model_dir(
    user: &str,
    user_ready: bool,
    legacy: Option<&str>,
    legacy_ready: bool,
    repo: &str,
    repo_ready: bool,
) -> (r: String)
    ensures
        r@ == if user_ready {
            user@
        } else if legacy is Some && legacy_ready {
            legacy.unwrap()@
        } else if repo_ready {
            repo@
        } else {
            user@
        },
{
    if user_ready {
        owned(user)
    } else if legacy.is_some() && legacy_ready {
        owned(legacy.unwrap())
    } else if repo_ready {
        owned(repo)
    } else {
        owned(user)
    }
}

/// Directory name of the default (bilingual streaming zipformer) ASR model.
pub const ASR_MODEL_ASSET: &'static str = "sherpa-onnx-streaming-zipformer-bilingual-zh-en-2023-02-20";

/// The user's default model directory: `<home>/.zapmomo/models/<model>`.
pub open spec fn user_model_dir_of(home: Seq<char>) -> Seq<char> {
    path_join(path_join(home, ".zapmomo/models"@), ASR_MODEL_ASSET@)
}

pub fn user_default_model_dir(home: &str) -> (r: String)
    ensures
        r@ == user_model_dir_of(home@),
{
    let models = join_path(home, ".zapmomo/models");
    join_path(models.as_str(), ASR_MODEL_ASSET)
}

/// The default model directory: the user's directory when it holds the
/// model, else the same model under the former data root, else the
/// repository's `models/` (development), else the user's directory. Each
/// `*_ready` flag tells whether that directory holds `tokens.txt`.
pub fn default_model_dir(
    home: &str,
    user_ready: bool,
    legacy_root: Option<&str>,
    legacy_ready: bool,
    repo_root: &str,
    repo_ready: bool,
) -> (r: String)
    ensures
        r@ == if user_ready {
            user_model_dir_of(home@)
        } else if legacy_root is Some && legacy_ready {
            path_join(legacy_root.unwrap()@, ASR_MODEL_ASSET@)
        } else if repo_ready {
            path_join(path_join(repo_root@, "models"@), ASR_MODEL_ASSET@)
        } else {
            user_model_dir_of(home@)
        },
{
    let user = user_default_model_dir(home);
    let models = join_path(repo_root, "models");
    let repo = join_path(models.as_str(), ASR_MODEL_ASSET);
    match legacy_root {
        Some(l) => {
            let legacy = join_path(l, ASR_MODEL_ASSET);
            choose_default_model_dir(user.as_str(), user_ready, Some(legacy.as_str()), legacy_ready, repo.as_str(), repo_ready)
        },
        None => choose_default_model_dir(user.as_str(), user_ready, None, legacy_ready, repo.as_str(), repo_ready),
    }
}

/// Default punctuation-model directory: the user's directory if it holds the
/// model, else the legacy one if that does, else the user's directory.
pub fn choose_punctuation_dir(user: &str, user_ready: bool, legacy: Option<&str>, legacy_ready: bool) -> (r:
    String)
    ensures
        r@ == if user_ready {
            user@
        } else if legacy is Some && legacy_ready {
            legacy.unwrap()@
        } else {
            user@
        },
{
    if user_ready {
        owned(user)
    } else if legacy.is_some() && legacy_ready {
        owned(legacy.unwrap())
    } else {
        owned(user)
    }
}

/// The directories that the defaults come from.
#[derive(Debug)]
pub struct ResolveContext {
    /// Directory of the settings file (anchor of a relative `model_dir`).
    pub settings_dir: String,
    /// The default model directory (see [`choose_default_model_dir`]).
    pub default_model_dir: String,
    /// The default punctuation-model directory (see [`choose_punctuation_dir`]).
    pub punctuation_dir: String,
}

/// The resolved ASR configuration (the endpoint rules and blank penalty,
/// which are real numbers, are resolved by the application beside it).
#[derive(Debug)]
pub struct ResolvedAsrConfig {
    pub enabled: bool,
    pub model_type: AsrModelKind,
    pub backend: AsrBackendKind,
    pub engine_path: Option<String>,
    pub model_dir: String,
    /// SenseVoice main model / Qwen3-ASR conv front end.
    pub model: Option<String>,
    pub language: Option<String>,
    pub use_itn: Option<bool>,
    pub encoder: String,
    pub decoder: String,
    pub joiner: String,
    /// tokens file, or the tokenizer directory for Qwen3-ASR.
    pub tokens: String,
    pub provider: String,
    pub num_threads: i32,
    pub chunk_size: usize,
    pub sample_rate: i32,
    pub decoding_method: String,
    pub enable_endpoint: bool,
    pub hotwords: Option<String>,
    pub enable_punctuation: bool,
    pub punctuation_model: String,
    pub debug: bool,
}

/// The backend named by the settings (default sherpa); `None` when the name is unknown.
pub open spec fn resolved_backend(s: AsrSettings) -> Option<AsrBackendKind> {
    match s.backend {
        Some(v) => parse_backend_kind(v@),
        None => Some(AsrBackendKind::Sherpa),
    }
}

/// The model kind: the configured one, else Qwen3-ASR when the audio.cpp
/// backend finds its GGUF file, else the kind probed from the directory.
pub open spec fn resolved_kind(
    s: AsrSettings,
    backend: AsrBackendKind,
    files: Seq<Seq<char>>,
    dirs: Seq<Seq<char>>,
) -> AsrModelKind {
    match s.model_type {
        Some(k) => k,
        None => if backend == AsrBackendKind::Audiocpp && files.contains(QWEN3_ASR_06B_GGUF@) {
            AsrModelKind::Qwen3Asr
        } else {
            detected_kind(files, dirs)
        },
    }
}

/// Error text for an unknown backend name.
pub open spec fn unknown_backend_message(v: Seq<char>) -> Seq<char> {
    "未知 ASR 后端: "@ + v + "（支持 sherpa / audiocpp）"@
}

/// Error text for a model kind that the audio.cpp backend does not serve.
pub open spec fn unsupported_combo_message(kind: AsrModelKind) -> Seq<char> {
    "模型类型 "@ + model_kind_name(kind) + " 不支持 audiocpp 后端（请检查 [asr].model_type 与 backend 组合）"@
}

/// A settings file field, or the probed default name, as a path in the model directory.
pub open spec fn asr_file(
    value: Option<String>,
    field: Seq<char>,
    default_name: Seq<char>,
    model_dir: Seq<char>,
    files: Seq<Seq<char>>,
) -> Seq<char> {
    match value {
        Some(v) => anchored(model_dir, v@),
        None => path_join(model_dir, detected_default_name(field, files, default_name)),
    }
}

/// (model, encoder, decoder, joiner, tokens) of a resolved configuration.
pub open spec fn resolved_paths(
    s: AsrSettings,
    kind: AsrModelKind,
    backend: AsrBackendKind,
    model_dir: Seq<char>,
    default_dir: Seq<char>,
    files: Seq<Seq<char>>,
) -> (Option<Seq<char>>, Seq<char>, Seq<char>, Seq<char>, Seq<char>) {
    let enc0 = path_join(default_dir, DEFAULT_ENCODER@);
    let dec0 = path_join(default_dir, DEFAULT_DECODER@);
    let joi0 = path_join(default_dir, DEFAULT_JOINER@);
    let tok0 = path_join(default_dir, DEFAULT_TOKENS@);
    let tokens = asr_file(s.tokens, "tokens"@, DEFAULT_TOKENS@, model_dir, files);
    match kind {
        AsrModelKind::Zipformer => (
            None,
            asr_file(s.encoder, "encoder"@, DEFAULT_ENCODER@, model_dir, files),
            asr_file(s.decoder, "decoder"@, DEFAULT_DECODER@, model_dir, files),
            asr_file(s.joiner, "joiner"@, DEFAULT_JOINER@, model_dir, files),
            tokens,
        ),
        AsrModelKind::Paraformer => (
            None,
            file_path(model_dir, opt_view(s.encoder), detected_bare_int8_onnx(files, "encoder"@)),
            file_path(model_dir, opt_view(s.decoder), detected_bare_int8_onnx(files, "decoder"@)),
            joi0,
            tokens,
        ),
        AsrModelKind::SenseVoice => (
            Some(
                path_join(
                    model_dir,
                    match detected_model_onnx(files) {
                        Some(m) => m,
                        None => SENSEVOICE_MODEL@,
                    },
                ),
            ),
            enc0,
            dec0,
            joi0,
            tokens,
        ),
        AsrModelKind::Whisper => {
            let p = match detected_whisper_prefix(files) {
                Some(p) => p,
                None => "tiny"@,
            };
            (
                None,
                asr_file(s.encoder, "encoder"@, p + "-encoder.onnx"@, model_dir, files),
                asr_file(s.decoder, "decoder"@, p + "-decoder.onnx"@, model_dir, files),
                joi0,
                asr_file(s.tokens, "tokens"@, p + "-tokens.txt"@, model_dir, files),
            )
        },
        AsrModelKind::Qwen3Asr => if backend == AsrBackendKind::Audiocpp {
            (None, enc0, dec0, joi0, tok0)
        } else {
            (
                Some(path_join(model_dir, QWEN3_CONV_FRONTEND@)),
                file_path(model_dir, opt_view(s.encoder), detected_bare_int8_onnx(files, "encoder"@)),
                file_path(model_dir, opt_view(s.decoder), detected_bare_int8_onnx(files, "decoder"@)),
                joi0,
                file_path(model_dir, opt_view(s.tokens), QWEN3_TOKENIZER_DIR@),
            )
        },
    }
}

/// The inference provider: the configured one, else metal for the audio.cpp
/// Qwen3-ASR family, else cpu.
pub open spec fn resolved_provider(s: AsrSettings, backend: AsrBackendKind) -> Seq<char> {
    match s.provider {
        Some(p) => p@,
        None => if backend == AsrBackendKind::Audiocpp {
            "metal"@
        } else {
            "cpu"@
        },
    }
}

/// The punctuation model: the configured path (relative paths anchored at the
/// punctuation directory), else `model.onnx` in that directory.
pub open spec fn resolved_punctuation(s: AsrSettings, punct_dir: Seq<char>) -> Seq<char> {
    file_path(punct_dir, opt_view(s.punctuation_model), DEFAULT_PUNCT_MODEL@)
}

fn opt_ref(o: &Option<String>) -> (r: Option<&str>)
    ensures
        match r {
            Some(v) => o.is_some() && v@ == o.unwrap()@,
            None => o.is_none(),
        },
{
    match o {
        Some(v) => Some(v.as_str()),
        None => None,
    }
}

fn pick_file(
    value: &Option<String>,
    field: &str,
    default_name: &str,
    model_dir: &str,
    dir: &DirListing,
) -> (r: String)
    ensures
        r@ == asr_file(*value, field@, default_name@, model_dir@, dir.file_names()),
{
    match value {
        Some(v) => anchor(model_dir, v.as_str()),
        None => {
            let detected = detect_default_name(field, dir, default_name);
            join_path(model_dir, detected.as_str())
        },
    }
}

/// Merges the `[asr]` settings with the command-line model directory and the
/// defaults. `dir` lists the model directory that [`resolve_model_dir`] picks.
///
/// Fails exactly when the settings name an unknown backend, or when the
/// audio.cpp backend meets a model kind it does not serve.
pub fn resolve(
    settings: Option<&AsrSettings>,
    cli_model_dir: Option<&str>,
    ctx: &ResolveContext,
    dir: &DirListing,
) -> (r: Result<ResolvedAsrConfig, String>)
    ensures
        ({
            let s = settings_or_empty(settings);
            let files = dir.file_names();
            let dirs = dir.dir_names();
            let model_dir = resolved_model_dir(
                opt_view(s.model_dir),
                match cli_model_dir {
                    Some(v) => Some(v@),
                    None => None,
                },
                ctx.settings_dir@,
                ctx.default_model_dir@,
            );
            match resolved_backend(s) {
                None => r matches Err(e) && e@ == unknown_backend_message(s.backend.unwrap()@),
                Some(backend) => {
                    let kind = resolved_kind(s, backend, files, dirs);
                    if backend == AsrBackendKind::Audiocpp && kind != AsrModelKind::Qwen3Asr {
                        r matches Err(e) && e@ == unsupported_combo_message(kind)
                    } else {
                        r matches Ok(c) && {
                            let (model, encoder, decoder, joiner, tokens) = resolved_paths(
                                s,
                                kind,
                                backend,
                                model_dir,
                                ctx.default_model_dir@,
                                files,
                            );
                            &&& c.model_dir@ == model_dir
                            &&& c.backend == backend
                            &&& c.model_type == kind
                            &&& opt_view(c.model) == model
                            &&& c.encoder@ == encoder
                            &&& c.decoder@ == decoder
                            &&& c.joiner@ == joiner
                            &&& c.tokens@ == tokens
                            &&& opt_view(c.language) == opt_view(s.language)
                            &&& c.use_itn == s.use_itn
                            &&& c.enabled == s.enabled.unwrap_or(false)
                            &&& c.provider@ == resolved_provider(s, backend)
                            &&& opt_view(c.engine_path) == opt_view(s.engine_path)
                            &&& c.num_threads == s.num_threads.unwrap_or(2)
                            &&& c.chunk_size == s.chunk_size.unwrap_or(3200)
                            &&& c.sample_rate == s.sample_rate.unwrap_or(16000)
                            &&& c.decoding_method@ == match s.decoding_method {
                                Some(m) => m@,
                                None => "greedy_search"@,
                            }
                            &&& c.enable_endpoint == s.enable_endpoint.unwrap_or(true)
                            &&& opt_view(c.hotwords) == opt_view(s.hotwords)
                            &&& c.enable_punctuation == s.enable_punctuation.unwrap_or(true)
                            &&& c.punctuation_model@ == resolved_punctuation(s, ctx.punctuation_dir@)
                            &&& c.debug == s.debug.unwrap_or(false)
                        }
                    }
                },
            }
        }),
{
    let empty = AsrSettings::new();
    let s: &AsrSettings = match settings {
        Some(x) => x,
        None => &empty,
    };
    let model_dir = resolve_model_dir(
        opt_ref(&s.model_dir),
        cli_model_dir,
        ctx.settings_dir.as_str(),
        ctx.default_model_dir.as_str(),
    );
    let md = model_dir.as_str();

    let backend = match &s.backend {
        Some(v) => match AsrBackendKind::parse_str(v.as_str()) {
            Some(b) => b,
            None => {
                return Err(concat3("未知 ASR 后端: ", v.as_str(), "（支持 sherpa / audiocpp）"));
            },
        },
        None => AsrBackendKind::Sherpa,
    };

    let kind = match s.model_type {
        Some(k) => k,
        None => {
            if backend == AsrBackendKind::Audiocpp && detect_gguf_in_dir(dir).is_some() {
                AsrModelKind::Qwen3Asr
            } else {
                detect_kind_from_dir(dir)
            }
        },
    };

    if backend == AsrBackendKind::Audiocpp && asr_family_desc(kind).is_none() {
        return Err(
            concat3(
                "模型类型 ",
                kind.as_str(),
                " 不支持 audiocpp 后端（请检查 [asr].model_type 与 backend 组合）",
            ),
        );
    }

    let dd = ctx.default_model_dir.as_str();
    let mut model: Option<String> = None;
    let mut encoder = join_path(dd, DEFAULT_ENCODER);
    let mut decoder = join_path(dd, DEFAULT_DECODER);
    let mut joiner = join_path(dd, DEFAULT_JOINER);
    let mut tokens = join_path(dd, DEFAULT_TOKENS);

    match kind {
        AsrModelKind::Zipformer => {
            encoder = pick_file(&s.encoder, "encoder", DEFAULT_ENCODER, md, dir);
            decoder = pick_file(&s.decoder, "decoder", DEFAULT_DECODER, md, dir);
            joiner = pick_file(&s.joiner, "joiner", DEFAULT_JOINER, md, dir);
            tokens = pick_file(&s.tokens, "tokens", DEFAULT_TOKENS, md, dir);
        },
        AsrModelKind::Paraformer => {
            let enc = detect_bare_int8_onnx(dir, "encoder");
            let dec = detect_bare_int8_onnx(dir, "decoder");
            encoder = resolve_file(opt_ref(&s.encoder), enc.as_str(), md);
            decoder = resolve_file(opt_ref(&s.decoder), dec.as_str(), md);
            tokens = pick_file(&s.tokens, "tokens", DEFAULT_TOKENS, md, dir);
        },
        AsrModelKind::SenseVoice => {
            let detected = match detect_model_onnx(dir) {
                Some(m) => m,
                None => owned(SENSEVOICE_MODEL),
            };
            model = Some(join_path(md, detected.as_str()));
            tokens = pick_file(&s.tokens, "tokens", DEFAULT_TOKENS, md, dir);
        },
        AsrModelKind::Whisper => {
            let prefix = match detect_whisper_prefix(dir) {
                Some(p) => p,
                None => owned("tiny"),
            };
            let enc_name = concat2(prefix.as_str(), "-encoder.onnx");
            let dec_name = concat2(prefix.as_str(), "-decoder.onnx");
            let tok_name = concat2(prefix.as_str(), "-tokens.txt");
            encoder = pick_file(&s.encoder, "encoder", enc_name.as_str(), md, dir);
            decoder = pick_file(&s.decoder, "decoder", dec_name.as_str(), md, dir);
            tokens = pick_file(&s.tokens, "tokens", tok_name.as_str(), md, dir);
        },
        AsrModelKind::Qwen3Asr => {
            if backend == AsrBackendKind::Sherpa {
                model = Some(join_path(md, QWEN3_CONV_FRONTEND));
                let enc = detect_bare_int8_onnx(dir, "encoder");
                let dec = detect_bare_int8_onnx(dir, "decoder");
                encoder = resolve_file(opt_ref(&s.encoder), enc.as_str(), md);
                decoder = resolve_file(opt_ref(&s.decoder), dec.as_str(), md);
                tokens = resolve_file(opt_ref(&s.tokens), QWEN3_TOKENIZER_DIR, md);
            }
        },
    }

    let provider = match &s.provider {
        Some(p) => p.clone(),
        None => match backend {
            AsrBackendKind::Audiocpp => match asr_family_desc(kind) {
                Some(d) => owned(d.default_provider),
                None => owned("cpu"),
            },
            AsrBackendKind::Sherpa => owned("cpu"),
        },
    };
    let punctuation_model = resolve_file(
        opt_ref(&s.punctuation_model),
        DEFAULT_PUNCT_MODEL,
        ctx.punctuation_dir.as_str(),
    );
    let decoding_method = match &s.decoding_method {
        Some(m) => m.clone(),
        None => owned("greedy_search"),
    };
    Ok(ResolvedAsrConfig {
        enabled: match s.enabled {
            Some(b) => b,
            None => false,
        },
        model_type: kind,
        backend,
        engine_path: clone_opt(&s.engine_path),
        model_dir,
        model,
        language: clone_opt(&s.language),
        use_itn: s.use_itn,
        encoder,
        decoder,
        joiner,
        tokens,
        provider,
        num_threads: match s.num_threads {
            Some(n) => n,
            None => 2,
        },
        chunk_size: match s.chunk_size {
            Some(n) => n,
            None => 3200,
        },
        sample_rate: match s.sample_rate {
            Some(n) => n,
            None => 16000,
        },
        decoding_method,
        enable_endpoint: match s.enable_endpoint {
            Some(b) => b,
            None => true,
        },
        hotwords: clone_opt(&s.hotwords),
        enable_punctuation: match s.enable_punctuation {
            Some(b) => b,
            None => true,
        },
        punctuation_model,
        debug: match s.debug {
            Some(b) => b,
            None => false,
        },
    })
}

/// Whether the model files are in place, by backend: the probed file set of
/// the kind for sherpa, the family's GGUF file for audio.cpp (a sherpa-only
/// kind on audio.cpp has none). `dir` lists the model directory.
pub open spec fn models_present_in(cfg: ResolvedAsrConfig, files: Seq<Seq<char>>, dirs: Seq<Seq<char>>) -> bool {
    match cfg.backend {
        AsrBackendKind::Sherpa => files_present_for_kind(files, dirs, cfg.model_type),
        AsrBackendKind::Audiocpp => cfg.model_type == AsrModelKind::Qwen3Asr && files.contains(
            QWEN3_ASR_06B_GGUF@,
        ),
    }
}

pub fn models_present(cfg: &ResolvedAsrConfig, dir: &DirListing) -> (r: bool)
    ensures
        r == models_present_in(*cfg, dir.file_names(), dir.dir_names()),
{
    match cfg.backend {
        AsrBackendKind::Sherpa => asr_files_present_for_kind(dir, cfg.model_type),
        AsrBackendKind::Audiocpp => match asr_family_desc(cfg.model_type) {
            Some(desc) => dir.has_file(desc.gguf_file),
            None => false,
        },
    }
}

/// The readiness check: nothing when the files are in place, else the
/// missing-files error with the install hint of the backend (or the
/// unsupported-combination error).
pub open spec fn preflight_error(cfg: ResolvedAsrConfig, files: Seq<Seq<char>>, dirs: Seq<Seq<char>>) -> Option<
    Seq<char>,
> {
    if models_present_in(cfg, files, dirs) {
        None
    } else if cfg.backend == AsrBackendKind::Sherpa {
        Some("缺少模型文件（目录: "@ + cfg.model_dir@ + "）。"@ + "请运行 `zapmomo asr install-model` 下载模型"@)
    } else if cfg.model_type == AsrModelKind::Qwen3Asr {
        Some(
            "缺少模型文件（目录: "@ + cfg.model_dir@ + "）。"@ + ("请运行 `"@
                + "zapmomo asr install-model --registry-id asr-qwen3-0.6b-audiocpp"@ + "` 下载模型"@),
        )
    } else {
        Some(unsupported_combo_message(cfg.model_type))
    }
}

pub fn preflight(cfg: &ResolvedAsrConfig, dir: &DirListing) -> (r: Result<(), String>)
    ensures
        match preflight_error(*cfg, dir.file_names(), dir.dir_names()) {
            Some(m) => r matches Err(e) && e@ == m,
            None => r is Ok,
        },
{
    if models_present(cfg, dir) {
        return Ok(());
    }
    let hint = match cfg.backend {
        AsrBackendKind::Sherpa => owned("请运行 `zapmomo asr install-model` 下载模型"),
        AsrBackendKind::Audiocpp => match asr_family_desc(cfg.model_type) {
            Some(desc) => concat3("请运行 `", desc.registry_hint, "` 下载模型"),
            None => {
                return Err(
                    concat3(
                        "模型类型 ",
                        cfg.model_type.as_str(),
                        " 不支持 audiocpp 后端（请检查 [asr].model_type 与 backend 组合）",
                    ),
                );
            },
        },
    };
    let mut m = concat3("缺少模型文件（目录: ", cfg.model_dir.as_str(), "）。");
    m.append(hint.as_str());
    assert(m@ =~= preflight_error(*cfg, dir.file_names(), dir.dir_names()).unwrap());
    Err(m)
}


/// A directory reported complete for the zipformer kind holds every file
/// the probes pick: the encoder, decoder and joiner, and `tokens.txt`.
pub proof fn lemma_zipformer_complete_holds_its_files(files: Seq<Seq<char>>, dirs: Seq<Seq<char>>)
    requires
        files_present_for_kind(files, dirs, AsrModelKind::Zipformer),
    ensures
        files.contains(detected_default_onnx(files, "encoder"@, DEFAULT_ENCODER@, true)),
        files.contains(detected_default_onnx(files, "decoder"@, DEFAULT_DECODER@, false)),
        files.contains(detected_default_onnx(files, "joiner"@, DEFAULT_JOINER@, true)),
        files.contains(DEFAULT_TOKENS@),
{
}

/// Paraformer (and sherpa Qwen3-ASR) components with no configured file:
/// `<component>.int8.onnx` in the model directory when it holds one, else
/// `<component>.onnx` (a full-precision directory runs as it is).
pub proof fn lemma_bare_components_follow_the_directory(
    s: AsrSettings,
    kind: AsrModelKind,
    backend: AsrBackendKind,
    model_dir: Seq<char>,
    default_dir: Seq<char>,
    files: Seq<Seq<char>>,
)
    requires
        s.encoder is None,
        s.decoder is None,
        kind == AsrModelKind::Paraformer || (kind == AsrModelKind::Qwen3Asr && backend
            == AsrBackendKind::Sherpa),
    ensures
        ({
            let (_, enc, dec, _, _) = resolved_paths(s, kind, backend, model_dir, default_dir, files);
            &&& files.contains("encoder.int8.onnx"@) ==> enc == path_join(model_dir, "encoder.int8.onnx"@)
            &&& !files.contains("encoder.int8.onnx"@) ==> enc == path_join(model_dir, "encoder.onnx"@)
            &&& files.contains("decoder.int8.onnx"@) ==> dec == path_join(model_dir, "decoder.int8.onnx"@)
            &&& !files.contains("decoder.int8.onnx"@) ==> dec == path_join(model_dir, "decoder.onnx"@)
        }),
{
    reveal_strlit("encoder");
    reveal_strlit("decoder");
    reveal_strlit(".int8.onnx");
    reveal_strlit(".onnx");
    reveal_strlit("encoder.int8.onnx");
    reveal_strlit("decoder.int8.onnx");
    reveal_strlit("encoder.onnx");
    reveal_strlit("decoder.onnx");
    assert("encoder"@ + ".int8.onnx"@ =~= "encoder.int8.onnx"@);
    assert("decoder"@ + ".int8.onnx"@ =~= "decoder.int8.onnx"@);
    assert("encoder"@ + ".onnx"@ =~= "encoder.onnx"@);
    assert("decoder"@ + ".onnx"@ =~= "decoder.onnx"@);
}


/// The probe for a component picks a file the directory holds whenever the
/// directory holds the default name or any `{prefix}-*.onnx` file.
pub proof fn lemma_detected_default_is_held(
    files: Seq<Seq<char>>,
    prefix: Seq<char>,
    fallback: Seq<char>,
    prefer_int8: bool,
)
    requires
        files.contains(fallback) || exists|x: Seq<char>| files.contains(x) && (#[trigger] onnx_candidate(prefix)(x)) is Some,
    ensures
        files.contains(detected_default_onnx(files, prefix, fallback, prefer_int8)),
{
    if !files.contains(fallback) {
        let f = onnx_candidate(prefix);
        let g = int8_choice(prefer_int8);
        let x = choose|x: Seq<char>| files.contains(x) && (#[trigger] onnx_candidate(prefix)(x)) is Some;
        lemma_filter_names_members(files, f);
        let cands = filter_map_names(files, f);
        assert(cands.contains(x));
        assert(cands.len() > 0);
        lemma_filter_names_members(cands, g);
        let picked = filter_map_names(cands, g);
        lemma_least_opt_member(picked);
        lemma_least_opt_member(cands);
        match least_opt(picked) {
            Some(r) => {
                assert(picked.contains(r));
                assert(cands.contains(r));
            },
            None => {
                let r = least_opt(cands).unwrap();
                assert(cands.contains(r));
            },
        }
    }
}

} // verus!

