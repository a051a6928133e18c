use zapmomo::asr::config::{models_present, preflight, resolve, AsrModelKind, ResolveContext};
use zapmomo::asr::settings::AsrSettings;
use zapmomo::desktop::{
    check_dictate_start, check_voice_llm, check_voice_session_start, set_current_step,
    tts_swap_outcome, startup_plan, voice_autostart, DshBridgeRuns, StartupPlan, LibModelType, LibRuntimeAction, SetCurrentStep,
};
use zapmomo::listing::DirListing;

fn ctx() -> ResolveContext {
    ResolveContext {
        settings_dir: "/h/.zapmomo".to_string(),
        default_model_dir: "/h/.zapmomo/models/asr".to_string(),
        punctuation_dir: "/h/.zapmomo/models/punct".to_string(),
    }
}

fn listing(files: &[&str]) -> DirListing {
    DirListing { files: files.iter().map(|s| s.to_string()).collect(), dirs: vec![] }
}

#[test]
fn test_preflight_and_models_present_audiocpp() {
    let settings = AsrSettings {
        backend: Some("audiocpp".to_string()),
        model_type: Some(AsrModelKind::Qwen3Asr),
        model_dir: Some("/m/q".to_string()),
        ..AsrSettings::default()
    };
    let cfg = resolve(Some(&settings), None, &ctx(), &DirListing::empty()).unwrap();
    assert!(!models_present(&cfg, &DirListing::empty()));
    let err = preflight(&cfg, &DirListing::empty()).unwrap_err();
    assert_eq!(
        err,
        "缺少模型文件（目录: /m/q）。请运行 `zapmomo asr install-model --registry-id asr-qwen3-0.6b-audiocpp` 下载模型"
    );
    let gguf = listing(&["qwen3-asr-0.6b-q8_0.gguf"]);
    assert!(models_present(&cfg, &gguf));
    assert!(preflight(&cfg, &gguf).is_ok());
}

#[test]
fn test_preflight_sherpa_hint() {
    let cfg = resolve(None, None, &ctx(), &DirListing::empty()).unwrap();
    let err = preflight(&cfg, &DirListing::empty()).unwrap_err();
    assert_eq!(err, "缺少模型文件（目录: /h/.zapmomo/models/asr）。请运行 `zapmomo asr install-model` 下载模型");
    let full = listing(&[
        "encoder-epoch-99-avg-1.int8.onnx",
        "decoder-epoch-99-avg-1.onnx",
        "joiner-epoch-99-avg-1.int8.onnx",
        "tokens.txt",
    ]);
    assert!(preflight(&cfg, &full).is_ok());
}

#[test]
fn test_dictate_and_voice_session_gates() {
    assert_eq!(check_dictate_start(true, AsrModelKind::SenseVoice, true).unwrap_err(), "已在听写中");
    assert!(check_dictate_start(false, AsrModelKind::Paraformer, true)
        .unwrap_err()
        .starts_with("当前模型类型 paraformer 不支持免提听写"));
    assert!(check_dictate_start(false, AsrModelKind::Whisper, false).unwrap_err().contains("离线模型文件不完整"));
    assert!(check_dictate_start(false, AsrModelKind::Whisper, true).is_ok());

    assert_eq!(check_voice_session_start(true, true, true).unwrap_err(), "语音会话已在运行中");
    assert!(check_voice_session_start(false, true, false).unwrap_err().contains("同时启用"));
    assert!(check_voice_session_start(false, true, true).is_ok());

    assert!(check_voice_llm(false, Some("http://x"), Some("m")).unwrap_err().contains("启用 LLM"));
    assert!(check_voice_llm(true, Some("   "), Some("m")).unwrap_err().contains("base_url"));
    assert!(check_voice_llm(true, Some("http://x"), None).unwrap_err().contains("模型名"));
    assert!(check_voice_llm(true, Some("http://x"), Some("qwen")).is_ok());
}

#[test]
fn test_set_current_model_outcomes() {
    match set_current_step(false, true, LibModelType::Asr, false, false, false, "X") {
        SetCurrentStep::Reject(m) => assert_eq!(m, "该模型未安装或正在下载，无法设为当前模型"),
        other => panic!("{other:?}"),
    }
    match set_current_step(true, false, LibModelType::Asr, false, false, false, "X") {
        SetCurrentStep::Reject(m) => assert_eq!(m, "该模型没有可用路径"),
        other => panic!("{other:?}"),
    }
    assert!(matches!(
        set_current_step(true, true, LibModelType::Llm, false, false, false, "X"),
        SetCurrentStep::Reject(_)
    ));
    match set_current_step(true, true, LibModelType::Kws, true, false, false, "唤醒") {
        SetCurrentStep::Done { action, effective_immediately, message } => {
            assert_eq!(action, LibRuntimeAction::RestartRequired);
            assert!(!effective_immediately);
            assert_eq!(message, "已将 唤醒 设为 KWS 当前模型，将在下次启动监听时生效");
        }
        other => panic!("{other:?}"),
    }
    assert!(matches!(
        set_current_step(true, true, LibModelType::Tts, false, false, true, "X"),
        SetCurrentStep::SwapTtsInSession
    ));
    match set_current_step(true, true, LibModelType::Asr, true, false, false, "Y") {
        SetCurrentStep::Done { action, effective_immediately, message } => {
            assert_eq!(action, LibRuntimeAction::NoAction);
            assert!(effective_immediately);
            assert_eq!(message, "已将 Y 设为当前模型");
        }
        other => panic!("{other:?}"),
    }
    assert_eq!(tts_swap_outcome("Z", Ok(())).unwrap(), "已将 Z 设为当前模型，语音会话下一句起生效");
    assert_eq!(
        tts_swap_outcome("Z", Err("坏了".to_string())).unwrap_err(),
        "切换失败（已回滚，语音会话继续使用原模型）：坏了"
    );
}

#[test]
fn test_dsh_bridge_start_guards_and_stale_worker() {
    let mut runs = DshBridgeRuns::new();
    assert_eq!(runs.start(false).unwrap_err(), "dsh 桥未启用");
    assert!(!runs.running);
    let g1 = runs.start(true).unwrap();
    assert_eq!(g1, 1);
    assert_eq!(runs.start(true).unwrap_err(), "dsh 桥已在运行");
    runs.stop().unwrap();
    assert_eq!(runs.stop().unwrap_err(), "dsh 桥未在运行");
    // a new run starts while the old worker is still winding down
    let g2 = runs.start(true).unwrap();
    assert_eq!(g2, 2);
    assert!(!runs.worker_finished(g1));
    assert!(runs.running);
    assert!(runs.worker_finished(g2));
    assert!(!runs.running);
}

#[test]
fn test_startup_plan() {
    assert!(voice_autostart(None));
    assert!(!voice_autostart(Some(false)));
    // the voice session holds its own LLM and wake-word listener
    assert_eq!(
        startup_plan(true, true, true, Some("http://x"), Some("m"), Some(true), true),
        StartupPlan { connect_llm: false, listen_kws: false, start_dsh: true }
    );
    assert_eq!(
        startup_plan(false, true, true, Some("http://x"), Some("m"), Some(true), false),
        StartupPlan { connect_llm: true, listen_kws: true, start_dsh: false }
    );
    // a blank address or model, or an unresolved configuration, connects nothing
    assert!(!startup_plan(false, true, true, Some("  "), Some("m"), None, false).connect_llm);
    assert!(!startup_plan(false, true, true, Some("http://x"), None, None, false).connect_llm);
    assert!(!startup_plan(false, false, true, Some("http://x"), Some("m"), None, false).connect_llm);
    assert!(!startup_plan(false, true, true, Some("http://x"), Some("m"), None, false).listen_kws);
}
