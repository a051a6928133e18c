use zapmomo::asr::config::{AsrBackendKind, AsrModelKind, ResolvedAsrConfig};
use zapmomo::audio::{mic_permission_hint, request_mic_permission};
use zapmomo::cli::{
    apply_asr_overrides, apply_backend_override, audiocpp_voices_hint, check_dictate_kind,
    kws_default_test_wav, missing_test_wav_message, AsrCmd, KwsCmd, LlmCmd, VERSION,
};
use zapmomo::desktop::{
    autostart_item_labels, check_storage_busy, collect_asr_preflight_files, companion_id_from_menu_id,
    companion_menu_entries, download_stage_label, download_stage_str, is_launched_by_autostart,
    layer_from_id, menu_action, opacity_percent_from_id, scale_percent_from_id, CompanionRef, CompanionWindowLayer, DownloadStage, MenuAction,
    PerformanceScene, StorageUse,
};
use zapmomo::tts::config::{ResolvedTtsConfig, TtsBackendKind, TtsModelKind};

fn asr_cfg(kind: AsrModelKind) -> ResolvedAsrConfig {
    ResolvedAsrConfig {
        enabled: false,
        model_type: kind,
        backend: AsrBackendKind::Sherpa,
        engine_path: None,
        model_dir: "/m".to_string(),
        model: None,
        language: None,
        use_itn: None,
        encoder: "/m/encoder.onnx".to_string(),
        decoder: "/m/decoder.onnx".to_string(),
        joiner: "/m/joiner.onnx".to_string(),
        tokens: "/m/tokens.txt".to_string(),
        provider: "cpu".to_string(),
        num_threads: 2,
        chunk_size: 3200,
        sample_rate: 16000,
        decoding_method: "greedy_search".to_string(),
        enable_endpoint: true,
        hotwords: None,
        enable_punctuation: true,
        punctuation_model: "/p/model.onnx".to_string(),
        debug: false,
    }
}

#[test]
fn test_version_constant() {
    assert!(!VERSION.is_empty(), "VERSION should not be empty");
    let parts: Vec<&str> = VERSION.split('.').collect();
    assert_eq!(parts.len(), 3, "VERSION should be in semver format (X.Y.Z)");
    for part in &parts {
        assert!(!part.is_empty(), "semver part should not be empty");
        assert!(part.chars().all(|c| c.is_ascii_digit()), "semver part '{}' should be numeric", part);
    }
}

#[test]
fn test_apply_backend_override_valid_invalid_and_reset_kind() {
    let mut cfg = ResolvedTtsConfig::default();
    cfg.model_type = TtsModelKind::Omnivoice;
    cfg.backend = TtsBackendKind::Audiocpp;

    let err = apply_backend_override(&mut cfg, Some("vllm".to_string()), None).unwrap_err();
    assert!(err.contains("未知 TTS 后端"), "err: {err}");
    assert_eq!(err, "未知 TTS 后端: vllm（支持 sherpa / audiocpp）");
    // the failed override changed nothing
    assert_eq!(cfg.backend, TtsBackendKind::Audiocpp);
    assert_eq!(cfg.model_type, TtsModelKind::Omnivoice);

    apply_backend_override(&mut cfg, Some("sherpa".to_string()), None).unwrap();
    assert_eq!(cfg.backend, TtsBackendKind::Sherpa);
    assert_eq!(cfg.model_type, TtsModelKind::Zipvoice);

    let p = "/opt/audiocpp_server".to_string();
    apply_backend_override(&mut cfg, None, Some(p.clone())).unwrap();
    assert_eq!(cfg.engine_path, Some(p));
}

#[test]
fn test_asr_overrides_and_qwen3_hint() {
    let mut cfg = asr_cfg(AsrModelKind::Qwen3Asr);
    assert!(apply_asr_overrides(&mut cfg, None, Some("zh".into()), None));
    assert_eq!(cfg.language.as_deref(), Some("zh"));
    let mut cfg = asr_cfg(AsrModelKind::SenseVoice);
    assert!(!apply_asr_overrides(&mut cfg, Some("张三".into()), None, Some(false)));
    assert_eq!(cfg.hotwords.as_deref(), Some("张三"));
    assert_eq!(cfg.use_itn, Some(false));
    let mut cfg = asr_cfg(AsrModelKind::Qwen3Asr);
    assert!(!apply_asr_overrides(&mut cfg, Some("x".into()), None, None));
}

#[test]
fn test_dictate_requires_offline_model() {
    assert!(check_dictate_kind(AsrModelKind::SenseVoice).is_ok());
    let err = check_dictate_kind(AsrModelKind::Zipformer).unwrap_err();
    assert!(err.starts_with("当前模型类型 zipformer 不支持免提听写"));
}

#[test]
fn test_cli_messages_and_paths() {
    assert_eq!(kws_default_test_wav("/k"), "/k/test_wavs/zh_3.wav");
    assert_eq!(missing_test_wav_message("/m"), "未指定 --wav 且 /m 下没有 test_wavs/*.wav 示例音频");
    assert!(audiocpp_voices_hint(TtsModelKind::Omnivoice).unwrap().contains("为克隆模型"));
    assert!(audiocpp_voices_hint(TtsModelKind::Qwen3Tts06).unwrap().contains("必须克隆音色模型"));
    assert_eq!(audiocpp_voices_hint(TtsModelKind::Kitten).unwrap_err(), "模型类型 kitten 不支持 audiocpp 后端");
    let _ = KwsCmd::Devices;
    let _ = AsrCmd::Devices;
    let _ = LlmCmd::Load;
}

#[test]
fn test_companion_id_from_menu_id_parses_prefix() {
    assert_eq!(
        companion_id_from_menu_id("companion_set_companion-abc123def456"),
        Some("companion-abc123def456")
    );
}

#[test]
fn test_companion_id_from_menu_id_rejects_other_namespaces() {
    assert_eq!(companion_id_from_menu_id("companion_set_"), None);
    assert_eq!(companion_id_from_menu_id("scale_100"), None);
    assert_eq!(companion_id_from_menu_id("open_settings"), None);
    assert_eq!(companion_id_from_menu_id("no_companions"), None);
    assert_eq!(companion_id_from_menu_id(""), None);
}

#[test]
fn test_autostart_flag_hits_at_any_position() {
    assert!(is_launched_by_autostart(&["/usr/bin/ZapMomo", "--autostart"]));
    assert!(is_launched_by_autostart(&[
        "/Applications/ZapMomo.app/Contents/MacOS/ZapMomo",
        "--autostart",
        "--other"
    ]));
}

#[test]
fn test_autostart_flag_requires_exact_match() {
    assert!(!is_launched_by_autostart(&[]));
    assert!(!is_launched_by_autostart(&["target/debug/ZapMomo"]));
    assert!(!is_launched_by_autostart(&["--autostart-x"]));
    assert!(!is_launched_by_autostart(&["autostart"]));
    assert!(!is_launched_by_autostart(&["--autostart=1"]));
}

#[test]
fn test_autostart_item_labels_flip_by_state() {
    assert_eq!(autostart_item_labels(false), ("enable_autostart", "开机自启动"));
    assert_eq!(autostart_item_labels(true), ("disable_autostart", "关闭开机自启动"));
}

#[test]
fn test_menu_routing() {
    assert!(matches!(menu_action("open_settings"), MenuAction::ShowSettings));
    assert!(matches!(menu_action("quit"), MenuAction::Quit));
    assert!(matches!(menu_action("disable_lock"), MenuAction::SetLocked(false)));
    assert!(matches!(menu_action("enable_autostart"), MenuAction::SetAutostart(true)));
    assert!(matches!(menu_action("perform_mouse"), MenuAction::Perform(PerformanceScene::Mouse)));
    assert!(matches!(menu_action("scale_150"), MenuAction::SetScalePercent(150)));
    assert!(matches!(menu_action("opacity_40"), MenuAction::SetOpacityPercent(40)));
    assert!(matches!(menu_action("layer_back"), MenuAction::SetLayer(CompanionWindowLayer::Back)));
    assert!(matches!(menu_action("companion_set_abc"), MenuAction::SwitchCompanion(c) if c == "abc"));
    assert!(matches!(menu_action("companion_set_"), MenuAction::Ignore));
    assert!(matches!(menu_action("no_companions"), MenuAction::Ignore));
    assert_eq!(layer_from_id("layer_front"), Some(CompanionWindowLayer::Front));
}

#[test]
fn test_asr_preflight_files_by_kind() {
    let files = collect_asr_preflight_files(&asr_cfg(AsrModelKind::Zipformer), false).unwrap();
    let labels: Vec<&str> = files.iter().map(|f| f.label).collect();
    assert_eq!(labels, vec!["ASR encoder", "ASR decoder", "ASR joiner", "ASR tokens"]);
    let err = collect_asr_preflight_files(&asr_cfg(AsrModelKind::SenseVoice), true).err().unwrap();
    assert_eq!(err, "SenseVoice 模型未解析出主模型文件");
    let mut q = asr_cfg(AsrModelKind::Qwen3Asr);
    q.model = Some("/m/conv_frontend.onnx".into());
    q.tokens = "/m/tokenizer".into();
    assert_eq!(collect_asr_preflight_files(&q, false).err().unwrap(), "缺少 tokenizer 目录: /m/tokenizer");
    let files = collect_asr_preflight_files(&q, true).unwrap();
    assert_eq!(files[0].label, "ASR conv_frontend");
    assert_eq!(files[0].path, "/m/conv_frontend.onnx");
    assert_eq!(files.len(), 3);
}

#[test]
fn test_mic_permission_outside_macos() {
    assert_eq!(request_mic_permission(), Ok(true));
    assert!(mic_permission_hint().starts_with("未找到默认麦克风。"));
}

#[test]
fn test_companion_menu_entries_marks_active_and_invalid() {
    let models = vec![
        CompanionRef { id: "companion-aaa".into(), name: "大月下".into(), valid: false },
        CompanionRef { id: "companion-bbb".into(), name: "星语".into(), valid: true },
    ];
    let entries = companion_menu_entries(&models, Some("companion-bbb"));
    assert_eq!(entries.len(), 2);
    assert_eq!(entries[0].id, "companion_set_companion-aaa");
    assert_eq!(entries[0].label, "大月下（不可用）");
    assert!(!entries[0].enabled && !entries[0].checked);
    assert_eq!(entries[1].label, "星语");
    assert!(entries[1].enabled && entries[1].checked);
    // each item leads back to its companion
    assert_eq!(companion_id_from_menu_id(&entries[1].id), Some("companion-bbb"));
    let none = companion_menu_entries(&models, None);
    assert!(none.iter().all(|e| !e.checked));
}

#[test]
fn test_storage_busy_order() {
    let idle = StorageUse { downloading: false, voice_session_running: false, listening: false };
    assert!(check_storage_busy(idle).is_ok());
    let all = StorageUse { downloading: true, voice_session_running: true, listening: true };
    assert_eq!(check_storage_busy(all).unwrap_err(), "有模型正在下载，请先等待下载完成或取消后再操作");
    let voice = StorageUse { downloading: false, voice_session_running: true, listening: true };
    assert_eq!(check_storage_busy(voice).unwrap_err(), "语音会话正在运行，请先停止会话后再操作");
    let listen = StorageUse { downloading: false, voice_session_running: false, listening: true };
    assert_eq!(check_storage_busy(listen).unwrap_err(), "有监听任务正在运行，请先停止后再操作");
}

#[test]
fn test_download_stage_texts() {
    assert_eq!(download_stage_str(DownloadStage::Verifying), "verifying");
    assert_eq!(download_stage_label(DownloadStage::Extracting), "解压");
    assert_eq!(download_stage_label(DownloadStage::Done), "完成");
}

fn labels(files: &[zapmomo::desktop::PreflightFile]) -> Vec<&'static str> {
    files.iter().map(|f| f.label).collect()
}

#[test]
fn test_preflight_files_zipformer_includes_joiner() {
    let files = collect_asr_preflight_files(&asr_cfg(AsrModelKind::Zipformer), false).unwrap();
    let labels = labels(&files);
    assert!(labels.contains(&"ASR joiner"));
    assert!(labels.contains(&"ASR encoder"));
    assert!(labels.contains(&"ASR tokens"));
}

#[test]
fn test_preflight_files_sensevoice_no_joiner() {
    let mut cfg = asr_cfg(AsrModelKind::SenseVoice);
    cfg.model = Some("/m/model.int8.onnx".to_string());
    let files = collect_asr_preflight_files(&cfg, false).unwrap();
    let labels = labels(&files);
    assert!(labels.contains(&"ASR model"));
    assert!(labels.contains(&"ASR tokens"));
    assert!(!labels.contains(&"ASR joiner"));
    assert!(!labels.contains(&"ASR encoder"));
}

#[test]
fn test_preflight_files_whisper_no_joiner() {
    let files = collect_asr_preflight_files(&asr_cfg(AsrModelKind::Whisper), false).unwrap();
    let labels = labels(&files);
    assert!(labels.contains(&"ASR encoder"));
    assert!(labels.contains(&"ASR decoder"));
    assert!(labels.contains(&"ASR tokens"));
    assert!(!labels.contains(&"ASR joiner"));
}

#[test]
fn test_layer_front_is_default() {
    assert_eq!(CompanionWindowLayer::default(), CompanionWindowLayer::Front);
}

#[test]
fn test_layer_from_id() {
    assert_eq!(layer_from_id("layer_front"), Some(CompanionWindowLayer::Front));
    assert_eq!(layer_from_id("layer_back"), Some(CompanionWindowLayer::Back));
    assert_eq!(layer_from_id("opacity_100"), None);
    assert_eq!(layer_from_id("unknown"), None);
}

#[test]
fn test_opacity_from_id_mappings() {
    assert_eq!(opacity_percent_from_id("opacity_100"), Some(100));
    assert_eq!(opacity_percent_from_id("opacity_80"), Some(80));
    assert_eq!(opacity_percent_from_id("opacity_60"), Some(60));
    assert_eq!(opacity_percent_from_id("opacity_40"), Some(40));
    assert_eq!(opacity_percent_from_id("opacity_20"), Some(20));
    assert_eq!(opacity_percent_from_id("scale_100"), None);
    assert_eq!(opacity_percent_from_id("unknown"), None);
    assert_eq!(scale_percent_from_id("scale_25"), Some(25));
    assert_eq!(scale_percent_from_id("scale_200"), Some(200));
    assert_eq!(scale_percent_from_id("opacity_20"), None);
}
