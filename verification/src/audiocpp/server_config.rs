//! The task-neutral description of a server instance and the `--config`
//! payload of `audiocpp_server`.
use vstd::prelude::*;
use vstd::string::*;

use crate::asr::config::{model_kind_name, ResolvedAsrConfig};
use crate::audiocpp::asr_families::{asr_family_desc, has_asr_family};
use crate::audiocpp::families::{
    clone_entries, entries_view, family_desc, has_tts_family, is_family_record, load_options_of, tts_family_name,
    tts_gguf_file, tts_model_id, tts_streams, AudiocppFamilyDesc, OptionEntry,
};
use crate::text::{clone_opt, concat3, decimal, decimal_string, join_path, opt_view, owned, path_join};
use crate::tts::config::{tts_kind_name, ResolvedTtsConfig};

verus! {

/// One server instance: one model of one task (TTS and ASR run separate
/// instances). A value exists only for a valid kind/backend combination.
#[derive(Debug)]
pub struct ServerInstanceSpec {
    /// `models[].task`: "tts" or "asr" (part of the fingerprint).
    pub task: &'static str,
    /// `models[].id`, and the request's `model`.
    pub model_id: String,
    /// audio.cpp family name.
    pub family: String,
    /// Path of the main GGUF file.
    pub model_path: String,
    /// `models[].mode`: "streaming" for streaming TTS families, else "offline".
    pub mode: String,
    /// `models[].load_options`.
    pub load_options: Vec<OptionEntry>,
    /// Inference backend (the server's top-level `backend`).
    pub provider: String,
    pub num_threads: i32,
    /// Model directory (part of the fingerprint).
    pub model_dir: String,
    /// Engine binary override (`None`: located automatically).
    pub engine_path: Option<String>,
}

/// The error for a kind that has no audio.cpp family.
pub open spec fn unsupported_kind_message(kind_name: Seq<char>) -> Seq<char> {
    "模型类型 "@ + kind_name + " 不支持 audiocpp 后端"@
}

/// The instance of a TTS configuration whose kind has an audio.cpp family.
pub open spec fn tts_instance(cfg: ResolvedTtsConfig, s: ServerInstanceSpec) -> bool {
    let kind = cfg.model_type;
    &&& s.task@ == "tts"@
    &&& s.model_id@ == tts_model_id(kind)
    &&& s.family@ == tts_family_name(kind)
    &&& s.model_path@ == path_join(cfg.model_dir@, tts_gguf_file(kind))
    &&& s.mode@ == (if tts_streams(kind) {
        "streaming"@
    } else {
        "offline"@
    })
    &&& entries_view(s.load_options@) == load_options_of(tts_family_name(kind))
    &&& s.provider@ == cfg.provider@
    &&& s.num_threads == cfg.num_threads
    &&& s.model_dir@ == cfg.model_dir@
    &&& opt_view(s.engine_path) == opt_view(cfg.engine_path)
}

/// The instance of an ASR configuration with the Qwen3-ASR kind: always
/// offline, no load options.
pub open spec fn asr_instance(cfg: ResolvedAsrConfig, s: ServerInstanceSpec) -> bool {
    &&& s.task@ == "asr"@
    &&& s.model_id@ == "qwen3-asr-0.6b"@
    &&& s.family@ == "qwen3_asr"@
    &&& s.model_path@ == path_join(cfg.model_dir@, "qwen3-asr-0.6b-q8_0.gguf"@)
    &&& s.mode@ == "offline"@
    &&& s.load_options@.len() == 0
    &&& s.provider@ == cfg.provider@
    &&& s.num_threads == cfg.num_threads
    &&& s.model_dir@ == cfg.model_dir@
    &&& opt_view(s.engine_path) == opt_view(cfg.engine_path)
}

/// `b` is `a` with the inference backend replaced by `provider`.
pub open spec fn with_provider_of(a: ServerInstanceSpec, b: ServerInstanceSpec, provider: Seq<char>) -> bool {
    &&& b.task@ == a.task@
    &&& b.model_id@ == a.model_id@
    &&& b.family@ == a.family@
    &&& b.model_path@ == a.model_path@
    &&& b.mode@ == a.mode@
    &&& entries_view(b.load_options@) == entries_view(a.load_options@)
    &&& b.provider@ == provider
    &&& b.num_threads == a.num_threads
    &&& b.model_dir@ == a.model_dir@
    &&& opt_view(b.engine_path) == opt_view(a.engine_path)
}

impl ServerInstanceSpec {
    /// The instance of a resolved TTS configuration; a sherpa-only kind is an error.
    pub fn from_tts(cfg: &ResolvedTtsConfig) -> (r: Result<Self, String>)
        ensures
            match r {
                Ok(s) => has_tts_family(cfg.model_type) && tts_instance(*cfg, s),
                Err(e) => !has_tts_family(cfg.model_type) && e@ == unsupported_kind_message(
                    tts_kind_name(cfg.model_type),
                ),
            },
    {
        let desc = match family_desc(cfg.model_type) {
            Some(d) => d,
            None => {
                return Err(concat3("模型类型 ", cfg.model_type.as_str(), " 不支持 audiocpp 后端"));
            },
        };
        let mode = if desc.supports_streaming {
            owned("streaming")
        } else {
            owned("offline")
        };
        Ok(ServerInstanceSpec {
            task: "tts",
            model_id: owned(desc.model_id),
            family: owned(desc.family),
            model_path: join_path(cfg.model_dir.as_str(), desc.gguf_file),
            mode,
            load_options: desc.load_options(),
            provider: cfg.provider.clone(),
            num_threads: cfg.num_threads,
            model_dir: cfg.model_dir.clone(),
            engine_path: clone_opt(&cfg.engine_path),
        })
    }

    /// The instance of a resolved ASR configuration; a sherpa-only kind is an error.
    pub fn from_asr(cfg: &ResolvedAsrConfig) -> (r: Result<Self, String>)
        ensures
            match r {
                Ok(s) => has_asr_family(cfg.model_type) && asr_instance(*cfg, s),
                Err(e) => !has_asr_family(cfg.model_type) && e@ == unsupported_kind_message(
                    model_kind_name(cfg.model_type),
                ),
            },
    {
        let desc = match asr_family_desc(cfg.model_type) {
            Some(d) => d,
            None => {
                return Err(concat3("模型类型 ", cfg.model_type.as_str(), " 不支持 audiocpp 后端"));
            },
        };
        Ok(ServerInstanceSpec {
            task: "asr",
            model_id: owned(desc.model_id),
            family: owned(desc.family),
            model_path: join_path(cfg.model_dir.as_str(), desc.gguf_file),
            mode: owned("offline"),
            load_options: Vec::new(),
            provider: cfg.provider.clone(),
            num_threads: cfg.num_threads,
            model_dir: cfg.model_dir.clone(),
            engine_path: clone_opt(&cfg.engine_path),
        })
    }

    /// The same instance on another inference backend (the CPU fallback).
    pub fn with_provider(&self, provider: &str) -> (r: Self)
        ensures
            with_provider_of(*self, r, provider@),
    {
        ServerInstanceSpec {
            task: self.task,
            model_id: self.model_id.clone(),
            family: self.family.clone(),
            model_path: self.model_path.clone(),
            mode: self.mode.clone(),
            load_options: clone_entries(&self.load_options),
            provider: owned(provider),
            num_threads: self.num_threads,
            model_dir: self.model_dir.clone(),
            engine_path: clone_opt(&self.engine_path),
        }
    }
}

/// The `--config` payload of `audiocpp_server`.
#[derive(Debug)]
pub struct ServerConfig {
    pub host: String,
    pub port: u16,
    /// ggml inference backend.
    pub backend: String,
    pub threads: i32,
    /// Eager loading: a missing model shows up in the health check already.
    pub lazy_load: bool,
    pub models: Vec<ServerModelConfig>,
}

/// One model of the server configuration.
#[derive(Debug)]
pub struct ServerModelConfig {
    pub id: String,
    pub family: String,
    pub path: String,
    pub task: String,
    pub mode: String,
    pub load_options: Vec<OptionEntry>,
}

/// The server configuration of an instance: loopback host, the instance's
/// port, backend and threads, eager loading, and its one model.
pub open spec fn is_server_config(spec: ServerInstanceSpec, port: u16, c: ServerConfig) -> bool {
    &&& c.host@ == "127.0.0.1"@
    &&& c.port == port
    &&& c.backend@ == spec.provider@
    &&& c.threads == spec.num_threads
    &&& !c.lazy_load
    &&& c.models@.len() == 1
    &&& c.models@[0].id@ == spec.model_id@
    &&& c.models@[0].family@ == spec.family@
    &&& c.models@[0].path@ == spec.model_path@
    &&& c.models@[0].task@ == spec.task@
    &&& c.models@[0].mode@ == spec.mode@
    &&& entries_view(c.models@[0].load_options@) == entries_view(spec.load_options@)
}

pub fn build_server_config(spec: &ServerInstanceSpec, port: u16) -> (r: ServerConfig)
    ensures
        is_server_config(*spec, port, r),
{
    let model = ServerModelConfig {
        id: spec.model_id.clone(),
        family: spec.family.clone(),
        path: spec.model_path.clone(),
        task: owned(spec.task),
        mode: spec.mode.clone(),
        load_options: clone_entries(&spec.load_options),
    };
    let mut models: Vec<ServerModelConfig> = Vec::new();
    models.push(model);
    ServerConfig {
        host: owned("127.0.0.1"),
        port,
        backend: spec.provider.clone(),
        threads: spec.num_threads,
        lazy_load: false,
        models,
    }
}

/// Where an instance's configuration is written, one file per fingerprint:
/// `<engines>/audiocpp-server-<hash>.json`.
pub open spec fn server_config_path_of(engines_dir: Seq<char>, hash: u64) -> Seq<char> {
    path_join(engines_dir, "audiocpp-server-"@ + decimal(hash as nat) + ".json"@)
}

pub fn server_config_path(engines_dir: &str, hash: u64) -> (r: String)
    ensures
        r@ == server_config_path_of(engines_dir@, hash),
{
    let n = decimal_string(hash);
    let name = concat3("audiocpp-server-", n.as_str(), ".json");
    join_path(engines_dir, name.as_str())
}

/// A TTS instance runs in streaming mode exactly when its family streams
/// (an offline-mode server refuses streamed requests).
pub proof fn lemma_streaming_mode_matches_family(
    cfg: ResolvedTtsConfig,
    s: ServerInstanceSpec,
    d: AudiocppFamilyDesc,
)
    requires
        tts_instance(cfg, s),
        is_family_record(cfg.model_type, d),
    ensures
        (s.mode@ == "streaming"@) == d.supports_streaming,
{
    reveal_strlit("streaming");
    reveal_strlit("offline");
    if !tts_streams(cfg.model_type) {
        assert(s.mode@[0] == 'o');
    }
}

/// Two fingerprints never share a configuration file.
pub proof fn lemma_config_paths_differ(engines_dir: Seq<char>, a: u64, b: u64)
    requires
        a != b,
    ensures
        server_config_path_of(engines_dir, a) != server_config_path_of(engines_dir, b),
{
    reveal_strlit("audiocpp-server-");
    crate::text::lemma_numbered_paths_differ(engines_dir, "audiocpp-server-"@, ".json"@, a as nat, b as nat);
}

/// What decides which instance serves a lease: task, model directory, model
/// id, inference backend, threads and engine path. The task keeps TTS and
/// ASR instances apart even over one directory; the voice is not part of it
/// (it travels with each request, so a change of voice reuses the instance).
#[derive(Debug)]
pub struct Fingerprint {
    pub task: &'static str,
    pub model_dir: String,
    pub model_id: String,
    pub provider: String,
    pub num_threads: i32,
    pub engine_path: String,
}

pub open spec fn is_fingerprint(spec: ServerInstanceSpec, engine: Seq<char>, f: Fingerprint) -> bool {
    &&& f.task@ == spec.task@
    &&& f.model_dir@ == spec.model_dir@
    &&& f.model_id@ == spec.model_id@
    &&& f.provider@ == spec.provider@
    &&& f.num_threads == spec.num_threads
    &&& f.engine_path@ == engine
}

/// The fingerprint dimensions of an instance run by the engine at `engine`.
pub fn fingerprint(spec: &ServerInstanceSpec, engine: &str) -> (r: Fingerprint)
    ensures
        is_fingerprint(*spec, engine@, r),
{
    Fingerprint {
        task: spec.task,
        model_dir: spec.model_dir.clone(),
        model_id: spec.model_id.clone(),
        provider: spec.provider.clone(),
        num_threads: spec.num_threads,
        engine_path: owned(engine),
    }
}

} // verus!

