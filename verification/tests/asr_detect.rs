use zapmomo::asr::config::{
    asr_files_present, asr_files_present_for_kind, detect_default_onnx, detect_kind_from_dir, resolve,
    AsrModelKind, ResolveContext, DEFAULT_DECODER, DEFAULT_ENCODER, DEFAULT_JOINER, DEFAULT_TOKENS,
    PARAFORMER_DECODER, PARAFORMER_ENCODER,
};
use zapmomo::asr::settings::AsrSettings;
use zapmomo::listing::DirListing;

fn dir_of(files: &[&str], dirs: &[&str]) -> DirListing {
    DirListing {
        files: files.iter().map(|s| s.to_string()).collect(),
        dirs: dirs.iter().map(|s| s.to_string()).collect(),
    }
}

fn ctx() -> ResolveContext {
    ResolveContext {
        settings_dir: "/h/.zapmomo".to_string(),
        default_model_dir: "/h/.zapmomo/models/asr".to_string(),
        punctuation_dir: "/h/.zapmomo/models/punct".to_string(),
    }
}

fn settings_for(dir: &str, kind: Option<AsrModelKind>) -> AsrSettings {
    AsrSettings { model_dir: Some(dir.to_string()), model_type: kind, ..AsrSettings::default() }
}

fn file_name(p: &str) -> &str {
    p.rsplit('/').next().unwrap()
}

#[test]
fn test_detect_asr_default_constants_win() {
    let dir = dir_of(
        &[
            "encoder-epoch-99-avg-1.int8.onnx",
            "encoder-epoch-99-avg-1.onnx",
            "decoder-epoch-99-avg-1.int8.onnx",
            "decoder-epoch-99-avg-1.onnx",
            "joiner-epoch-99-avg-1.int8.onnx",
            "joiner-epoch-99-avg-1.onnx",
            DEFAULT_TOKENS,
        ],
        &[],
    );
    assert_eq!(detect_default_onnx(&dir, "encoder", DEFAULT_ENCODER, true), DEFAULT_ENCODER);
    assert_eq!(detect_default_onnx(&dir, "decoder", DEFAULT_DECODER, false), DEFAULT_DECODER);
    assert_eq!(detect_default_onnx(&dir, "joiner", DEFAULT_JOINER, true), DEFAULT_JOINER);
    assert!(asr_files_present(&dir));
}

#[test]
fn test_detect_asr_prefers_int8_encoder_joiner_fp32_decoder() {
    let dir = dir_of(
        &[
            "encoder-epoch-20-avg-1-chunk-16-left-64.int8.onnx",
            "encoder-epoch-20-avg-1-chunk-16-left-64.onnx",
            "decoder-epoch-20-avg-1-chunk-16-left-64.int8.onnx",
            "decoder-epoch-20-avg-1-chunk-16-left-64.onnx",
            "joiner-epoch-20-avg-1-chunk-16-left-64.int8.onnx",
            "joiner-epoch-20-avg-1-chunk-16-left-64.onnx",
            DEFAULT_TOKENS,
        ],
        &[],
    );
    assert_eq!(
        detect_default_onnx(&dir, "encoder", DEFAULT_ENCODER, true),
        "encoder-epoch-20-avg-1-chunk-16-left-64.int8.onnx"
    );
    assert_eq!(
        detect_default_onnx(&dir, "decoder", DEFAULT_DECODER, false),
        "decoder-epoch-20-avg-1-chunk-16-left-64.onnx"
    );
    assert_eq!(
        detect_default_onnx(&dir, "joiner", DEFAULT_JOINER, true),
        "joiner-epoch-20-avg-1-chunk-16-left-64.int8.onnx"
    );
    assert!(asr_files_present(&dir));
}

#[test]
fn test_detect_asr_fallback_to_any_variant() {
    let int8_only = dir_of(&["decoder-epoch-20-avg-1.int8.onnx"], &[]);
    assert_eq!(
        detect_default_onnx(&int8_only, "decoder", DEFAULT_DECODER, false),
        "decoder-epoch-20-avg-1.int8.onnx"
    );
    let fp32_only = dir_of(&["encoder-epoch-20-avg-1.onnx"], &[]);
    assert_eq!(
        detect_default_onnx(&fp32_only, "encoder", DEFAULT_ENCODER, true),
        "encoder-epoch-20-avg-1.onnx"
    );
}

#[test]
fn test_detect_asr_missing_or_empty_dir_falls_back_to_constant() {
    assert_eq!(detect_default_onnx(&DirListing::empty(), "encoder", DEFAULT_ENCODER, true), DEFAULT_ENCODER);
    let other = dir_of(&["other-model.onnx"], &[]);
    assert_eq!(detect_default_onnx(&other, "encoder", DEFAULT_ENCODER, true), DEFAULT_ENCODER);
}

#[test]
fn test_resolve_detects_non_default_layout() {
    let dir = dir_of(
        &[
            "encoder-epoch-20-avg-1-chunk-16-left-64.int8.onnx",
            "decoder-epoch-20-avg-1-chunk-16-left-64.onnx",
            "joiner-epoch-20-avg-1-chunk-16-left-64.int8.onnx",
            DEFAULT_TOKENS,
        ],
        &[],
    );
    let cfg = resolve(Some(&settings_for("/d", None)), None, &ctx(), &dir).unwrap();
    assert_eq!(cfg.encoder, "/d/encoder-epoch-20-avg-1-chunk-16-left-64.int8.onnx");
    assert_eq!(cfg.decoder, "/d/decoder-epoch-20-avg-1-chunk-16-left-64.onnx");
    assert_eq!(cfg.joiner, "/d/joiner-epoch-20-avg-1-chunk-16-left-64.int8.onnx");
    assert_eq!(cfg.tokens, format!("/d/{DEFAULT_TOKENS}"));
}

#[test]
fn test_resolve_explicit_file_overrides_skip_probe() {
    let dir = dir_of(&["encoder-epoch-20-avg-1-chunk-16-left-64.int8.onnx", DEFAULT_TOKENS], &[]);
    let settings = AsrSettings {
        model_dir: Some("/d".to_string()),
        encoder: Some("custom-encoder.onnx".to_string()),
        ..AsrSettings::default()
    };
    let cfg = resolve(Some(&settings), None, &ctx(), &dir).unwrap();
    assert_eq!(cfg.encoder, "/d/custom-encoder.onnx", "显式覆盖应直连，不被目录内文件影响");
}

#[test]
fn test_asr_files_present() {
    assert!(!asr_files_present(&DirListing::empty()));
    let full = [
        "encoder-epoch-20-avg-1-chunk-16-left-64.int8.onnx",
        "decoder-epoch-20-avg-1-chunk-16-left-64.onnx",
        "joiner-epoch-20-avg-1-chunk-16-left-64.int8.onnx",
        DEFAULT_TOKENS,
    ];
    assert!(asr_files_present(&dir_of(&full, &[])));
    assert!(!asr_files_present(&dir_of(&full[..3], &[])), "缺 tokens 应为 false");
    assert!(!asr_files_present(&dir_of(&full[1..], &[])), "缺 encoder 应为 false");
}

#[test]
fn test_detect_kind_from_dir_probes() {
    assert_eq!(detect_kind_from_dir(&dir_of(&["model.onnx", DEFAULT_TOKENS], &[])), AsrModelKind::SenseVoice);
    assert_eq!(
        detect_kind_from_dir(&dir_of(&["tiny-encoder.onnx", "tiny-decoder.onnx", "tiny-tokens.txt"], &[])),
        AsrModelKind::Whisper
    );
    assert_eq!(
        detect_kind_from_dir(&dir_of(&[PARAFORMER_ENCODER, PARAFORMER_DECODER, DEFAULT_TOKENS], &[])),
        AsrModelKind::Paraformer
    );
    assert_eq!(
        detect_kind_from_dir(&dir_of(&["encoder.onnx", "decoder.onnx", DEFAULT_TOKENS], &[])),
        AsrModelKind::Paraformer
    );
    assert_eq!(
        detect_kind_from_dir(&dir_of(
            &[
                "encoder-epoch-99-avg-1.int8.onnx",
                "decoder-epoch-99-avg-1.onnx",
                "joiner-epoch-99-avg-1.int8.onnx",
                DEFAULT_TOKENS
            ],
            &[]
        )),
        AsrModelKind::Zipformer
    );
    assert_eq!(detect_kind_from_dir(&DirListing::empty()), AsrModelKind::Zipformer);
}

#[test]
fn test_resolve_sensevoice_sets_model_and_tokens() {
    let dir = dir_of(&["model.onnx", DEFAULT_TOKENS], &[]);
    let settings = AsrSettings {
        model_dir: Some("/s".to_string()),
        model_type: Some(AsrModelKind::SenseVoice),
        language: Some("zh".to_string()),
        use_itn: Some(true),
        ..AsrSettings::default()
    };
    let cfg = resolve(Some(&settings), None, &ctx(), &dir).unwrap();
    assert_eq!(cfg.model_type, AsrModelKind::SenseVoice);
    assert_eq!(cfg.model.as_deref(), Some("/s/model.onnx"));
    assert_eq!(cfg.tokens, format!("/s/{DEFAULT_TOKENS}"));
    assert_eq!(cfg.language.as_deref(), Some("zh"));
    assert_eq!(cfg.use_itn, Some(true));
    assert_eq!(file_name(&cfg.encoder), DEFAULT_ENCODER);
}

#[test]
fn test_resolve_whisper_sets_encoder_decoder_tokens() {
    let dir = dir_of(&["base-encoder.onnx", "base-decoder.onnx", "base-tokens.txt"], &[]);
    let cfg = resolve(Some(&settings_for("/w", Some(AsrModelKind::Whisper))), None, &ctx(), &dir).unwrap();
    assert_eq!(cfg.model_type, AsrModelKind::Whisper);
    assert_eq!(file_name(&cfg.encoder), "base-encoder.onnx");
    assert_eq!(file_name(&cfg.decoder), "base-decoder.onnx");
    assert_eq!(file_name(&cfg.tokens), "base-tokens.txt");
    assert_eq!(cfg.model, None);
}

#[test]
fn test_resolve_paraformer_sets_encoder_decoder_tokens() {
    let dir = dir_of(&["encoder.onnx", PARAFORMER_ENCODER, "decoder.onnx", PARAFORMER_DECODER, DEFAULT_TOKENS], &[]);
    let cfg = resolve(Some(&settings_for("/p", Some(AsrModelKind::Paraformer))), None, &ctx(), &dir).unwrap();
    assert_eq!(cfg.model_type, AsrModelKind::Paraformer);
    assert_eq!(file_name(&cfg.encoder), PARAFORMER_ENCODER);
    assert_eq!(file_name(&cfg.decoder), PARAFORMER_DECODER);
    assert_eq!(file_name(&cfg.tokens), DEFAULT_TOKENS);
    assert_eq!(file_name(&cfg.joiner), DEFAULT_JOINER);
    assert_eq!(cfg.model, None);
    let settings_fp32 = AsrSettings {
        model_dir: Some("/p".to_string()),
        model_type: Some(AsrModelKind::Paraformer),
        encoder: Some("encoder.onnx".to_string()),
        decoder: Some("decoder.onnx".to_string()),
        ..AsrSettings::default()
    };
    let cfg = resolve(Some(&settings_fp32), None, &ctx(), &dir).unwrap();
    assert_eq!(file_name(&cfg.encoder), "encoder.onnx");
    assert_eq!(file_name(&cfg.decoder), "decoder.onnx");
}

#[test]
fn test_asr_files_present_family_aware_paraformer() {
    let dir = dir_of(&[PARAFORMER_ENCODER, PARAFORMER_DECODER, DEFAULT_TOKENS], &[]);
    assert!(asr_files_present_for_kind(&dir, AsrModelKind::Paraformer));
    assert!(asr_files_present(&dir), "探测应归到 Paraformer");
    let less = dir_of(&[PARAFORMER_ENCODER, DEFAULT_TOKENS], &[]);
    assert!(!asr_files_present_for_kind(&less, AsrModelKind::Paraformer));
    assert!(!asr_files_present(&less));
}

#[test]
fn test_detect_kind_from_dir_qwen3() {
    let dir = dir_of(&["conv_frontend.onnx", "encoder.int8.onnx", "decoder.int8.onnx"], &["tokenizer"]);
    assert_eq!(detect_kind_from_dir(&dir), AsrModelKind::Qwen3Asr);
    assert!(asr_files_present_for_kind(&dir, AsrModelKind::Qwen3Asr));
    assert!(asr_files_present(&dir), "探测应归到 Qwen3-ASR");
    let fp32 = dir_of(&["conv_frontend.onnx", "encoder.onnx", "decoder.onnx"], &["tokenizer"]);
    assert_eq!(detect_kind_from_dir(&fp32), AsrModelKind::Qwen3Asr);
    let no_tok = dir_of(&["conv_frontend.onnx", "encoder.int8.onnx", "decoder.int8.onnx"], &[]);
    assert_ne!(detect_kind_from_dir(&no_tok), AsrModelKind::Qwen3Asr);
    assert!(!asr_files_present_for_kind(&no_tok, AsrModelKind::Qwen3Asr));
}

#[test]
fn test_resolve_qwen3_maps_model_encoder_decoder_tokenizer_dir() {
    let dir = dir_of(
        &["conv_frontend.onnx", "encoder.onnx", "encoder.int8.onnx", "decoder.onnx", "decoder.int8.onnx"],
        &["tokenizer"],
    );
    let cfg = resolve(Some(&settings_for("/q", Some(AsrModelKind::Qwen3Asr))), None, &ctx(), &dir).unwrap();
    assert_eq!(cfg.model_type, AsrModelKind::Qwen3Asr);
    assert_eq!(cfg.model.as_deref(), Some("/q/conv_frontend.onnx"));
    assert_eq!(file_name(&cfg.encoder), "encoder.int8.onnx");
    assert_eq!(file_name(&cfg.decoder), "decoder.int8.onnx");
    assert_eq!(file_name(&cfg.tokens), "tokenizer");
    assert_eq!(file_name(&cfg.joiner), DEFAULT_JOINER);
    let settings_fp32 = AsrSettings {
        model_dir: Some("/q".to_string()),
        model_type: Some(AsrModelKind::Qwen3Asr),
        encoder: Some("encoder.onnx".to_string()),
        decoder: Some("decoder.onnx".to_string()),
        ..AsrSettings::default()
    };
    let cfg = resolve(Some(&settings_fp32), None, &ctx(), &dir).unwrap();
    assert_eq!(file_name(&cfg.encoder), "encoder.onnx");
    assert_eq!(file_name(&cfg.decoder), "decoder.onnx");
}

#[test]
fn test_asr_files_present_family_aware() {
    assert!(asr_files_present(&dir_of(&["model.onnx", DEFAULT_TOKENS], &[])));
    assert!(asr_files_present(&dir_of(&["tiny-encoder.onnx", "tiny-decoder.onnx", "tiny-tokens.txt"], &[])));
    assert!(!asr_files_present(&dir_of(&["tiny-encoder.onnx", "tiny-decoder.onnx"], &[])));
    assert!(!asr_files_present(&DirListing::empty()));
}
