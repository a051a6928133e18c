use zapmomo::asr::config::{resolve, AsrBackendKind, AsrModelKind, ResolveContext};
use zapmomo::asr::settings::AsrSettings;
use zapmomo::audiocpp::asr_families::{asr_family_desc, detect_gguf_in_dir};
use zapmomo::audiocpp::client::{
    decode_pcm_chunk, http_status_error, lookup_desc, pcm_from_bytes, speech_request, sse_payload,
    stream_event_step, streaming_request, truncate, StreamStep,
};
use zapmomo::audiocpp::families::{family_desc, OptionValue, VoiceSemantics};
use zapmomo::audiocpp::locator::{
    engine_file_name, engines_dir, locate_engine, search_dirs, set_search_dirs, EngineTarget,
    ProbedDir, SearchDirs,
};
use zapmomo::audiocpp::provider::{current_default_provider, default_provider_for};
use zapmomo::audiocpp::server_config::{build_server_config, fingerprint, server_config_path, ServerInstanceSpec};
use zapmomo::audiocpp::AudiocppError;
use zapmomo::listing::DirListing;
use zapmomo::tts::config::{ResolvedTtsConfig, TtsBackendKind, TtsModelKind};
use zapmomo::tts::TtsVoiceParams;

use base64::Engine as _;

fn audiocpp_cfg(kind: TtsModelKind, model_dir: &str) -> ResolvedTtsConfig {
    let mut cfg = ResolvedTtsConfig::default();
    cfg.backend = TtsBackendKind::Audiocpp;
    cfg.model_type = kind;
    cfg.model_dir = model_dir.to_string();
    cfg
}

#[test]
fn test_asr_family_desc_coverage() {
    assert_eq!(asr_family_desc(AsrModelKind::Qwen3Asr).unwrap().family, "qwen3_asr");
    for kind in [
        AsrModelKind::Zipformer,
        AsrModelKind::Paraformer,
        AsrModelKind::SenseVoice,
        AsrModelKind::Whisper,
    ] {
        assert!(asr_family_desc(kind).is_none(), "{kind:?} 不应有 audiocpp 描述");
    }
}

#[test]
fn test_asr_family_record_shape() {
    let q = asr_family_desc(AsrModelKind::Qwen3Asr).unwrap();
    assert_eq!(q.model_id, "qwen3-asr-0.6b");
    assert_eq!(q.required_files, &["qwen3-asr-0.6b-q8_0.gguf"]);
    assert_eq!(q.gguf_file, q.required_files[0], "清单即单 GGUF");
    assert_eq!(q.default_provider, "metal");
    assert!(q.registry_hint.contains("asr-qwen3-0.6b-audiocpp"));
}

#[test]
fn test_detect_gguf_in_dir() {
    assert!(detect_gguf_in_dir(&DirListing::empty()).is_none());
    let dir = DirListing { files: vec!["qwen3-asr-0.6b-q8_0.gguf".to_string()], dirs: vec![] };
    assert_eq!(detect_gguf_in_dir(&dir).unwrap().model_id, "qwen3-asr-0.6b");
}

#[test]
fn test_family_desc_coverage() {
    assert_eq!(family_desc(TtsModelKind::Omnivoice).unwrap().family, "omnivoice");
    assert_eq!(family_desc(TtsModelKind::Voxcpm2).unwrap().family, "voxcpm2");
    for kind in [TtsModelKind::Zipvoice, TtsModelKind::Kitten, TtsModelKind::Supertonic] {
        assert!(family_desc(kind).is_none(), "{kind:?} 不应有 audiocpp 描述");
    }
}

#[test]
fn test_family_records_shape() {
    let omni = family_desc(TtsModelKind::Omnivoice).unwrap();
    assert_eq!(omni.required_files, &["omnivoice-q8_0.gguf"]);
    assert_eq!(omni.voice_semantics, VoiceSemantics::ReferenceClone);
    assert!(omni.supports_streaming);
    assert!(omni.load_options().is_empty());
    assert!(omni.registry_hint.contains("tts-omnivoice-q8-audiocpp"));
    let vox = family_desc(TtsModelKind::Voxcpm2).unwrap();
    assert_eq!(vox.sample_rate, 48_000);
    assert!(!vox.allows_named_voice);
    let opts = vox.request_options();
    assert_eq!(opts.len(), 1);
    assert_eq!(opts[0].key, "retry_badcase");
    assert_eq!(opts[0].value, OptionValue::Bool(false));
    assert!(omni.request_options().is_empty());
}

#[test]
fn test_engine_file_name_contains_triple() {
    let name = engine_file_name(EngineTarget::LinuxX64);
    assert!(name.starts_with("audiocpp_server-"), "name: {name}");
    assert!(!name.ends_with(".exe"));
    assert_eq!(name, "audiocpp_server-x86_64-unknown-linux-gnu");
    let win = engine_file_name(EngineTarget::WindowsX64);
    assert!(win.starts_with("audiocpp_server-"));
    assert!(win.ends_with(".exe"));
}

#[test]
fn test_default_provider_by_triple() {
    assert_eq!(default_provider_for("windows-x86_64"), "cuda");
    assert_eq!(default_provider_for("darwin-aarch64"), "metal");
    assert_eq!(default_provider_for("darwin-x86_64"), "cpu");
    assert_eq!(default_provider_for("linux-x86_64"), "cpu");
    assert_eq!(default_provider_for("freebsd-x86_64"), "cpu");
    assert_eq!(current_default_provider(EngineTarget::MacArm64), "metal");
    assert_eq!(current_default_provider(EngineTarget::LinuxX64), "cpu");
}

#[test]
fn test_locate_engine_explicit_missing_reports_searched() {
    let engines = ProbedDir {
        path: engines_dir(None, "/home/u/.zapmomo"),
        listing: DirListing::empty(),
    };
    assert_eq!(engines.path, "/home/u/.zapmomo/engines");
    // explicit file wins
    let found = locate_engine(Some("/opt/audiocpp_server"), true, None, &engines, &vec![], EngineTarget::LinuxX64);
    assert_eq!(found.unwrap(), "/opt/audiocpp_server");
    // an injected directory holding the bundled name
    let injected = vec![ProbedDir {
        path: "/app/resources".to_string(),
        listing: DirListing { files: vec!["audiocpp_server-x86_64-unknown-linux-gnu".to_string()], dirs: vec![] },
    }];
    let found = locate_engine(None, false, Some(&injected), &engines, &vec![], EngineTarget::LinuxX64);
    assert_eq!(found.unwrap(), "/app/resources/audiocpp_server-x86_64-unknown-linux-gnu");
    // a plain name on PATH
    let path_dirs = vec![ProbedDir {
        path: "/usr/local/bin".to_string(),
        listing: DirListing { files: vec!["audiocpp_server".to_string()], dirs: vec![] },
    }];
    let found = locate_engine(None, false, None, &engines, &path_dirs, EngineTarget::LinuxX64);
    assert_eq!(found.unwrap(), "/usr/local/bin/audiocpp_server");
    // nothing anywhere: the searched paths are reported
    let err = locate_engine(Some("/nonexistent/audiocpp_server"), false, None, &engines, &vec![], EngineTarget::LinuxX64)
        .unwrap_err();
    match &err {
        AudiocppError::EngineNotFound { searched } => {
            assert_eq!(searched, &vec!["/nonexistent/audiocpp_server".to_string(), "/home/u/.zapmomo/engines".to_string()]);
        }
        _ => panic!("unexpected error"),
    }
    assert!(err.to_user_message().contains("/nonexistent/audiocpp_server"));
}

#[test]
fn test_search_dirs_first_injection_wins() {
    let mut reg = SearchDirs::new();
    assert!(search_dirs(&reg).is_empty());
    set_search_dirs(&mut reg, vec!["/a".to_string()]);
    set_search_dirs(&mut reg, vec!["/b".to_string()]);
    assert_eq!(search_dirs(&reg), vec!["/a".to_string()]);
}

#[test]
fn test_truncate_respects_char_boundary() {
    assert_eq!(truncate("abc", 10), "abc");
    let t = truncate("你好世界你好世界", 9);
    assert!(t.ends_with('…'));
    assert!(t.chars().count() < 7);
    assert_eq!(t, "你好世…");
}

#[test]
fn test_truncate_exact_limits() {
    assert_eq!(truncate("abcdef", 3), "abc…");
    assert_eq!(truncate("abc", 3), "abc");
    assert_eq!(truncate("", 0), "");
    assert_eq!(truncate("é", 1), "…");
    let long = "x".repeat(600);
    let cut = truncate(&long, 500);
    assert_eq!(cut.len(), 500 + '…'.len_utf8());
}

#[test]
fn test_new_rejects_sherpa_kind() {
    let mut cfg = ResolvedTtsConfig::default();
    cfg.backend = TtsBackendKind::Audiocpp;
    let err = lookup_desc(&cfg).unwrap_err();
    assert!(err.contains("不支持 audiocpp 后端"), "err: {err}");
    assert_eq!(
        err,
        "模型类型 zipvoice 不支持 audiocpp 后端（请检查 [tts].model_type 与 backend 组合）"
    );
    cfg.model_type = TtsModelKind::Omnivoice;
    assert_eq!(lookup_desc(&cfg).unwrap().model_id, "omnivoice");
}

#[test]
fn test_error_variants_user_messages() {
    let e = AudiocppError::HttpStatus { status: 500, body: "boom".to_string() };
    assert!(e.to_user_message().contains("HTTP 500"));
    assert!(e.to_user_message().contains("boom"));
    let e = AudiocppError::ModelNotListed { model_id: "m".to_string() };
    assert!(e.to_user_message().contains("未加载模型 m"));
    let e = AudiocppError::SpawnFailed("x".to_string());
    assert!(e.to_user_message().contains("启动 audiocpp_server 失败"));
    let e = AudiocppError::StartupTimeout { timeout_secs: 3, stderr_tail: "tail".to_string() };
    assert!(e.to_user_message().contains("启动超时（3s）"));
    assert!(e.to_user_message().contains("tail"));
    let e = AudiocppError::StreamingUnsupported("pocket-tts-english".to_string());
    assert!(e.to_user_message().contains("不支持流式合成"));
    let e = AudiocppError::StreamEvent("busy".to_string());
    assert!(e.to_user_message().contains("流式合成被服务端中断"));
}

#[test]
fn test_every_error_variant_has_its_text() {
    let cases = vec![
        (AudiocppError::Connection("refused".into()), "无法连接 audiocpp_server（引擎未启动或已退出）: refused"),
        (AudiocppError::DecodeWav("x".into()), "解码合成音频失败: x"),
        (AudiocppError::EncodeWav("y".into()), "编码上传音频失败: y"),
        (AudiocppError::UnsupportedVoice("v".into()), "v"),
        (
            AudiocppError::EngineExitedImmediately { backend: "cuda".into(), stderr_tail: "t".into() },
            "audiocpp_server 以 cuda 后端启动后立即退出（常见原因：该后端未被引擎构建支持、无 NVIDIA GPU 或驱动过旧、引擎目录缺少 ggml 运行库 DLL）。引擎输出末尾：\nt",
        ),
    ];
    for (e, text) in cases {
        assert_eq!(e.to_user_message(), text);
    }
}

#[test]
fn test_http_status_error_cuts_body() {
    let long = "b".repeat(800);
    match http_status_error(503, &long) {
        AudiocppError::HttpStatus { status, body } => {
            assert_eq!(status, 503);
            assert_eq!(body.chars().count(), 501);
            assert!(body.ends_with('…'));
        }
        _ => panic!("wrong variant"),
    }
}

#[test]
fn test_spec_from_tts_and_config_shape() {
    let cfg = audiocpp_cfg(TtsModelKind::Pocket, "/models/pocket-tts-english-audiocpp");
    let spec = ServerInstanceSpec::from_tts(&cfg).unwrap();
    assert_eq!(spec.task, "tts");
    let sc = build_server_config(&spec, 18123);
    assert_eq!(sc.host, "127.0.0.1");
    assert_eq!(sc.port, 18123);
    assert_eq!(sc.backend, "cpu");
    assert_eq!(sc.threads, 2);
    assert!(!sc.lazy_load, "默认 eager，模型缺失前移到健康检查");
    assert_eq!(sc.models.len(), 1);
    let m = &sc.models[0];
    assert_eq!(m.id, "pocket-tts-english");
    assert_eq!(m.family, "pocket_tts");
    assert_eq!(
        m.path.replace('\\', "/"),
        "/models/pocket-tts-english-audiocpp/pocket-tts-english-q8_0.gguf"
    );
    assert_eq!(m.task, "tts");
    assert_eq!(m.mode, "offline", "pocket 无流式支持，mode 保持 offline");
    assert_eq!(m.load_options.len(), 1);
    assert_eq!(m.load_options[0].key, "language");
    assert_eq!(m.load_options[0].value, OptionValue::Text("english"));
}

#[test]
fn test_pocket_fixed_voice_mapping() {
    let pocket = family_desc(TtsModelKind::Pocket).unwrap();
    assert_eq!(pocket.voice_semantics, VoiceSemantics::FixedNamed("alba"));
    assert_eq!(pocket.sample_rate, 24_000);
    let r = speech_request(&pocket, "hello world", &TtsVoiceParams::Named("alba".into())).unwrap();
    assert_eq!(r.model, "pocket-tts-english");
    assert_eq!(r.input, "hello world");
    assert_eq!(r.voice.as_deref(), Some("alba"));
    let r = speech_request(&pocket, "x", &TtsVoiceParams::Named("marius".into())).unwrap();
    assert_eq!(r.voice.as_deref(), Some("marius"));
    let r = speech_request(&pocket, "x", &TtsVoiceParams::Sid(0)).unwrap();
    assert_eq!(r.voice.as_deref(), Some("alba"));
    assert!(r.voice_ref.is_none() && r.options.is_none());
    let err = speech_request(&pocket, "x", &TtsVoiceParams::Reference { wav_path: "/r.wav".into(), reference_text: "t".into() })
        .err()
        .unwrap();
    assert!(err.to_user_message().contains("固定音色"));
    assert_eq!(err.to_user_message(), "该 audio.cpp 模型为固定音色（alba），不支持参考音频克隆");
}

#[test]
fn test_synthesize_streaming_pocket_unsupported() {
    let pocket = family_desc(TtsModelKind::Pocket).unwrap();
    assert!(!pocket.supports_streaming);
    match streaming_request(&pocket, "x", &TtsVoiceParams::Sid(0)) {
        Err(AudiocppError::StreamingUnsupported(m)) => assert_eq!(m, "pocket-tts-english"),
        _ => panic!("streaming must be refused"),
    }
}

#[test]
fn test_spec_from_tts_omnivoice_shape() {
    let mut cfg = audiocpp_cfg(TtsModelKind::Omnivoice, "/models/omnivoice-audiocpp");
    cfg.provider = "metal".to_string();
    let spec = ServerInstanceSpec::from_tts(&cfg).unwrap();
    assert_eq!(spec.task, "tts");
    let sc = build_server_config(&spec, 18200);
    assert_eq!(sc.host, "127.0.0.1");
    assert_eq!(sc.port, 18200);
    assert_eq!(sc.backend, "metal");
    assert_eq!(sc.threads, 2);
    assert!(!sc.lazy_load);
    assert_eq!(sc.models.len(), 1);
    let m = &sc.models[0];
    assert_eq!(m.id, "omnivoice");
    assert_eq!(m.family, "omnivoice");
    assert_eq!(m.path, "/models/omnivoice-audiocpp/omnivoice-q8_0.gguf");
    assert_eq!(m.mode, "streaming");
    assert!(m.load_options.is_empty());
}

#[test]
fn test_spec_from_tts_rejects_sherpa_kind() {
    let cfg = audiocpp_cfg(TtsModelKind::Zipvoice, "/m");
    let err = ServerInstanceSpec::from_tts(&cfg).unwrap_err();
    assert!(err.contains("不支持 audiocpp 后端"), "err: {err}");
    assert_eq!(err, "模型类型 zipvoice 不支持 audiocpp 后端");
}

#[test]
fn test_spec_qwen3_tts_is_offline_and_cpu_copy() {
    let cfg = audiocpp_cfg(TtsModelKind::Qwen3Tts06, "/q");
    let spec = ServerInstanceSpec::from_tts(&cfg).unwrap();
    assert_eq!(spec.mode, "offline");
    assert_eq!(spec.family, "qwen3_tts");
    let mut gpu = spec.with_provider("cuda");
    assert_eq!(gpu.provider, "cuda");
    gpu = gpu.with_provider("cpu");
    assert_eq!(gpu.provider, "cpu");
    assert_eq!(gpu.model_path, spec.model_path);
}

#[test]
fn test_server_config_path_per_fingerprint() {
    assert_eq!(server_config_path("/e", 42), "/e/audiocpp-server-42.json");
    assert_ne!(server_config_path("/e", 42), server_config_path("/e", 43));
}

#[test]
fn test_voice_mapping_by_family() {
    let omni = family_desc(TtsModelKind::Omnivoice).unwrap();
    let r = speech_request(&omni, "x", &TtsVoiceParams::Reference { wav_path: "/r.wav".into(), reference_text: "参考转写".into() }).unwrap();
    assert_eq!(r.voice_ref.as_deref(), Some("/r.wav"));
    assert_eq!(r.reference_text.as_deref(), Some("参考转写"));
    assert!(r.voice.is_none());
    let r = speech_request(&omni, "x", &TtsVoiceParams::Named("demo_01_man".into())).unwrap();
    assert_eq!(r.voice.as_deref(), Some("demo_01_man"));
    assert!(r.voice_ref.is_none());
    let r = speech_request(&omni, "x", &TtsVoiceParams::Sid(0)).unwrap();
    assert!(r.voice.is_none() && r.voice_ref.is_none());
    assert!(r.options.is_none());

    let qwen = family_desc(TtsModelKind::Qwen3Tts06).unwrap();
    let err = speech_request(&qwen, "x", &TtsVoiceParams::Sid(0)).err().unwrap();
    assert!(err.to_user_message().contains("需要克隆音色"));
    let err = speech_request(&qwen, "x", &TtsVoiceParams::Named("a".into())).err().unwrap();
    assert!(err.to_user_message().contains("参考音频克隆"));

    let vox = family_desc(TtsModelKind::Voxcpm2).unwrap();
    let r = speech_request(&vox, "hello", &TtsVoiceParams::Sid(0)).unwrap();
    assert_eq!(r.model, "voxcpm2");
    assert_eq!(r.input, "hello");
    let opts = r.options.unwrap();
    assert_eq!(opts[0].key, "retry_badcase");
    let err = speech_request(&vox, "x", &TtsVoiceParams::Named("a".into())).err().unwrap();
    assert_eq!(err.to_user_message(), "voxcpm2 仅支持参考音频克隆（speaker reference），不支持具名音色");
}

#[test]
fn test_streaming_request_shape() {
    let vox = family_desc(TtsModelKind::Voxcpm2).unwrap();
    let r = streaming_request(&vox, "你好", &TtsVoiceParams::Sid(0)).unwrap();
    assert_eq!(r.response_format.as_deref(), Some("pcm"));
    assert_eq!(r.stream_format.as_deref(), Some("sse"));
    let opts = r.options.unwrap();
    assert_eq!(opts.len(), 2);
    assert_eq!(opts[0].key, "retry_badcase");
    assert_eq!(opts[1].key, "text_chunk_size");
    assert_eq!(opts[1].value, OptionValue::Int(40));
    let qwen = family_desc(TtsModelKind::Qwen3Tts17).unwrap();
    match streaming_request(&qwen, "x", &TtsVoiceParams::Sid(0)) {
        Err(AudiocppError::StreamingUnsupported(m)) => assert_eq!(m, "qwen3-tts-1.7b"),
        _ => panic!("streaming must be refused"),
    }
}

#[test]
fn test_stream_lines_and_events() {
    assert_eq!(sse_payload("data: [DONE]"), Some("[DONE]"));
    assert_eq!(sse_payload("event: x"), None);
    assert!(matches!(stream_event_step(Some("speech.audio.delta"), Some("AAA="), "{}"), StreamStep::Audio(a) if a == "AAA="));
    assert!(matches!(stream_event_step(Some("speech.audio.delta"), Some(""), "{}"), StreamStep::Ignore));
    assert!(matches!(stream_event_step(Some("speech.audio.done"), None, "{}"), StreamStep::Ignore));
    assert!(matches!(stream_event_step(None, None, "{}"), StreamStep::Ignore));
    match stream_event_step(Some("error"), None, "{\"type\":\"error\",\"message\":\"busy timeout\"}") {
        StreamStep::Fail(e) => assert!(e.to_user_message().contains("busy timeout")),
        _ => panic!("error event must fail"),
    }
}

#[test]
fn test_decode_pcm_chunk_roundtrip() {
    let samples: Vec<i16> = vec![0, 1, -1, 32767, -32768, 12345];
    let bytes: Vec<u8> = samples.iter().flat_map(|s| s.to_le_bytes()).collect();
    let b64 = base64::engine::general_purpose::STANDARD.encode(&bytes);
    let out = decode_pcm_chunk(&b64).unwrap();
    assert_eq!(out, samples);
    assert_eq!(pcm_from_bytes(&bytes).unwrap(), samples);
}

#[test]
fn test_decode_pcm_chunk_rejects_garbage() {
    let err = decode_pcm_chunk("!!!not-base64!!!").unwrap_err();
    assert!(matches!(err, AudiocppError::DecodeWav(_)));
    assert!(err.to_user_message().contains("base64 解码失败"));
    match decode_pcm_chunk("!!!!").unwrap_err() {
        AudiocppError::DecodeWav(m) => assert_eq!(m, "base64 解码失败: Invalid symbol 33, offset 0."),
        _ => panic!("wrong variant"),
    }
    let err = decode_pcm_chunk("QQ==").unwrap_err();
    match err {
        AudiocppError::DecodeWav(m) => assert_eq!(m, "pcm 分块长度 1 不是 2 字节对齐（i16）"),
        _ => panic!("wrong variant"),
    }
}

#[test]
fn test_decode_pcm_chunk_decodes_known_bytes() {
    // "AAE=" is the two bytes 0x00 0x01: 256 little-endian
    assert_eq!(decode_pcm_chunk("AAE=").unwrap(), vec![256]);
}

#[test]
fn test_spec_from_asr_qwen3_shape() {
    let ctx = ResolveContext {
        settings_dir: "/home/u/.zapmomo".to_string(),
        default_model_dir: "/home/u/.zapmomo/models/default".to_string(),
        punctuation_dir: "/home/u/.zapmomo/models/punct".to_string(),
    };
    let settings = AsrSettings {
        backend: Some("audiocpp".to_string()),
        model_type: Some(AsrModelKind::Qwen3Asr),
        model_dir: Some("/models/qwen3-asr-0.6b-audiocpp".to_string()),
        provider: Some("metal".to_string()),
        ..AsrSettings::default()
    };
    let cfg = resolve(Some(&settings), None, &ctx, &DirListing::empty()).unwrap();
    assert_eq!(cfg.backend, AsrBackendKind::Audiocpp);
    let spec = ServerInstanceSpec::from_asr(&cfg).unwrap();
    assert_eq!(spec.task, "asr");
    let sc = build_server_config(&spec, 18300);
    assert_eq!(sc.backend, "metal");
    let m = &sc.models[0];
    assert_eq!(m.id, "qwen3-asr-0.6b");
    assert_eq!(m.family, "qwen3_asr");
    assert_eq!(m.path, "/models/qwen3-asr-0.6b-audiocpp/qwen3-asr-0.6b-q8_0.gguf");
    assert_eq!(m.task, "asr");
    assert_eq!(m.mode, "offline", "ASR 首版恒 offline 整段");
    assert!(m.load_options.is_empty());

    let bad_settings = AsrSettings { model_type: Some(AsrModelKind::Zipformer), ..AsrSettings::default() };
    let bad = resolve(Some(&bad_settings), None, &ctx, &DirListing::empty()).unwrap();
    let err = ServerInstanceSpec::from_asr(&bad).unwrap_err();
    assert!(err.contains("不支持 audiocpp 后端"), "err: {err}");
}

#[test]
fn test_locate_engine_explicit_hit_short_circuits() {
    let engines = ProbedDir { path: "/e".to_string(), listing: DirListing::empty() };
    let exe = format!("/base/{}", engine_file_name(EngineTarget::LinuxX64));
    let found = locate_engine(Some(&exe), true, None, &engines, &vec![], EngineTarget::LinuxX64).unwrap();
    assert_eq!(found, exe);
}

#[test]
fn test_find_in_dir_prefers_triple_then_plain() {
    let t = EngineTarget::LinuxX64;
    let empty = ProbedDir { path: "/b".to_string(), listing: DirListing::empty() };
    assert!(zapmomo::audiocpp::locator::find_in_dir(&empty, t).is_none());
    let plain = ProbedDir {
        path: "/b".to_string(),
        listing: DirListing { files: vec!["audiocpp_server".to_string()], dirs: vec![] },
    };
    assert_eq!(zapmomo::audiocpp::locator::find_in_dir(&plain, t), Some("/b/audiocpp_server".to_string()));
    let both = ProbedDir {
        path: "/b".to_string(),
        listing: DirListing {
            files: vec!["audiocpp_server".to_string(), engine_file_name(t)],
            dirs: vec![],
        },
    };
    assert_eq!(
        zapmomo::audiocpp::locator::find_in_dir(&both, t),
        Some(format!("/b/{}", engine_file_name(t)))
    );
    let win = ProbedDir {
        path: "/b".to_string(),
        listing: DirListing { files: vec!["audiocpp_server.exe".to_string()], dirs: vec![] },
    };
    assert_eq!(
        zapmomo::audiocpp::locator::find_in_dir(&win, EngineTarget::WindowsX64),
        Some("/b/audiocpp_server.exe".to_string())
    );
}

#[test]
fn test_error_into_string_is_user_message() {
    let e = AudiocppError::StreamingUnsupported("pocket-tts-english".to_string());
    let expected = e.to_user_message();
    let s: String = e.into();
    assert_eq!(s, expected);
    assert_eq!(String::from(AudiocppError::SpawnFailed("x".into())), "启动 audiocpp_server 失败: x");
}

#[test]
fn test_fingerprint_dimensions() {
    let mut cfg = audiocpp_cfg(TtsModelKind::Omnivoice, "/models/omni");
    cfg.provider = "metal".to_string();
    cfg.num_threads = 4;
    let spec = ServerInstanceSpec::from_tts(&cfg).unwrap();
    let f = fingerprint(&spec, "/engines/audiocpp_server");
    assert_eq!(f.task, "tts");
    assert_eq!(f.model_dir, "/models/omni");
    assert_eq!(f.model_id, "omnivoice");
    assert_eq!(f.provider, "metal");
    assert_eq!(f.num_threads, 4);
    assert_eq!(f.engine_path, "/engines/audiocpp_server");
}
