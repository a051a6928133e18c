use zapmomo::asr::config::{
    asr_files_present, asr_files_present_for_kind, default_model_dir, detect_kind_from_dir,
    required_files, user_default_model_dir, AsrBackendKind, AsrModelKind, ASR_MODEL_ASSET,
    DEFAULT_TOKENS, PARAFORMER_DECODER, PARAFORMER_ENCODER, QWEN3_CONV_FRONTEND, SENSEVOICE_MODEL,
};
use zapmomo::asr::offline::{clean_sensevoice_text, qwen3_hotwords};
use zapmomo::audio::wav_bytes;
use zapmomo::listing::DirListing;

fn listing(files: &[&str], dirs: &[&str]) -> DirListing {
    DirListing {
        files: files.iter().map(|s| s.to_string()).collect(),
        dirs: dirs.iter().map(|s| s.to_string()).collect(),
    }
}

#[test]
fn test_user_default_model_dir() {
    let dir = user_default_model_dir("/home/tester");
    assert_eq!(
        dir,
        format!("/home/tester/.zapmomo/models/{}", ASR_MODEL_ASSET)
    );
}

#[test]
fn test_default_model_dir_priority() {
    let user = format!("/h/.zapmomo/models/{}", ASR_MODEL_ASSET);
    // nothing installed anywhere: the user's directory
    assert_eq!(default_model_dir("/h", false, None, false, "/repo", false), user);
    // the repository copy is used for development
    assert_eq!(
        default_model_dir("/h", false, None, false, "/repo", true),
        format!("/repo/models/{}", ASR_MODEL_ASSET)
    );
    // the former data root wins over the repository
    assert_eq!(
        default_model_dir("/h", false, Some("/old/models"), true, "/repo", true),
        format!("/old/models/{}", ASR_MODEL_ASSET)
    );
    // an installed user model wins over everything
    assert_eq!(default_model_dir("/h", true, Some("/old/models"), true, "/repo", true), user);
}

#[test]
fn test_required_files_by_kind() {
    assert_eq!(required_files(AsrModelKind::Zipformer).len(), 4);
    assert_eq!(
        required_files(AsrModelKind::Paraformer),
        &[PARAFORMER_ENCODER, PARAFORMER_DECODER, DEFAULT_TOKENS]
    );
    assert_eq!(
        required_files(AsrModelKind::SenseVoice),
        &[SENSEVOICE_MODEL, DEFAULT_TOKENS]
    );
    assert!(required_files(AsrModelKind::Whisper).is_empty());
    assert_eq!(
        required_files(AsrModelKind::Qwen3Asr),
        &[
            QWEN3_CONV_FRONTEND,
            "encoder.int8.onnx",
            "decoder.int8.onnx",
            "tokenizer/vocab.json",
            "tokenizer/merges.txt",
            "tokenizer/tokenizer_config.json",
        ]
    );
}

#[test]
fn test_clean_sensevoice_text_strips_tags() {
    assert_eq!(
        clean_sensevoice_text("<|zh|><|NEUTRAL|><|Speech|><|HAPPY|>你好，世界<|nospeech|>"),
        "你好，世界"
    );
    assert_eq!(clean_sensevoice_text("  hello   world  "), "hello world");
    assert_eq!(clean_sensevoice_text(""), "");
    assert_eq!(clean_sensevoice_text("今天天气不错。"), "今天天气不错。");
}

#[test]
fn test_qwen3_hotwords_joined_by_commas() {
    assert_eq!(qwen3_hotwords("  张三  李四 "), "张三,李四");
    assert_eq!(qwen3_hotwords(""), "");
}

#[test]
fn test_model_kind_names_round_trip() {
    for kind in [
        AsrModelKind::Zipformer,
        AsrModelKind::Paraformer,
        AsrModelKind::SenseVoice,
        AsrModelKind::Whisper,
        AsrModelKind::Qwen3Asr,
    ] {
        assert_eq!(AsrModelKind::parse_str(kind.as_str()), Some(kind));
        assert_eq!(kind.is_streaming(), !kind.is_offline());
    }
    assert_eq!(AsrModelKind::parse_str("unknown"), None);
    assert_eq!(AsrBackendKind::parse_str("audiocpp"), Some(AsrBackendKind::Audiocpp));
    assert_eq!(AsrBackendKind::parse_str("sherpa"), Some(AsrBackendKind::Sherpa));
    assert_eq!(AsrBackendKind::parse_str("vllm"), None);
}

#[test]
fn test_detect_kind_from_listing() {
    let sense = listing(&["model.int8.onnx", "tokens.txt"], &[]);
    assert_eq!(detect_kind_from_dir(&sense), AsrModelKind::SenseVoice);
    let whisper = listing(&["tiny-encoder.onnx", "tiny-decoder.onnx", "tiny-tokens.txt"], &[]);
    assert_eq!(detect_kind_from_dir(&whisper), AsrModelKind::Whisper);
    let zip = listing(&["encoder-epoch-99-avg-1.int8.onnx", "tokens.txt"], &[]);
    assert_eq!(detect_kind_from_dir(&zip), AsrModelKind::Zipformer);
    assert_eq!(detect_kind_from_dir(&DirListing::empty()), AsrModelKind::Zipformer);
}

#[test]
fn test_files_present_for_kind() {
    let sense = listing(&["model.int8.onnx", "tokens.txt"], &[]);
    assert!(asr_files_present_for_kind(&sense, AsrModelKind::SenseVoice));
    assert!(asr_files_present(&sense));
    let partial = listing(&["model.int8.onnx"], &[]);
    assert!(!asr_files_present_for_kind(&partial, AsrModelKind::SenseVoice));
    assert!(!asr_files_present(&DirListing::empty()));
}

#[test]
fn test_wav_bytes_reads_back() {
    let samples: Vec<i16> = vec![0, 1, -1, 32767, -32768, 12345];
    let bytes = wav_bytes(16_000, &samples);
    assert_eq!(bytes.len(), 44 + 2 * samples.len());
    assert_eq!(&bytes[0..4], b"RIFF");
    assert_eq!(u32::from_le_bytes([bytes[4], bytes[5], bytes[6], bytes[7]]) as usize, bytes.len() - 8);
    let reader = hound::WavReader::new(std::io::Cursor::new(bytes)).unwrap();
    let spec = reader.spec();
    assert_eq!(spec.channels, 1);
    assert_eq!(spec.sample_rate, 16_000);
    assert_eq!(spec.bits_per_sample, 16);
    let back: Vec<i16> = reader.into_samples::<i16>().map(|s| s.unwrap()).collect();
    assert_eq!(back, samples);
}

#[test]
fn test_write_wav_header_and_samples() {
    let samples: Vec<i16> = vec![0, i16::MAX, i16::MIN, 1234];
    let bytes = wav_bytes(16000, &samples);
    assert_eq!(&bytes[0..4], b"RIFF");
    assert_eq!(&bytes[8..12], b"WAVE");
    assert_eq!(&bytes[24..28], &16000u32.to_le_bytes());
    assert_eq!(&bytes[34..36], &16u16.to_le_bytes());
    assert_eq!(&bytes[40..44], &(samples.len() as u32 * 2).to_le_bytes());
    assert_eq!(&bytes[44..46], &samples[0].to_le_bytes());
    assert_eq!(&bytes[46..48], &samples[1].to_le_bytes());
}

#[test]
fn test_choose_default_model_dir_priority() {
    let user = "/b/user-model";
    let repo = "/b/repo-model";
    assert_eq!(zapmomo::asr::config::choose_default_model_dir(user, false, None, false, repo, false), user);
    assert_eq!(zapmomo::asr::config::choose_default_model_dir(user, false, None, false, repo, true), repo);
    assert_eq!(zapmomo::asr::config::choose_default_model_dir(user, true, None, false, repo, true), user);
    let legacy = "/b/legacy-model";
    assert_eq!(
        zapmomo::asr::config::choose_default_model_dir(user, false, Some(legacy), true, repo, true),
        legacy
    );
}

#[test]
fn test_clean_sensevoice_is_a_normal_form() {
    let once = clean_sensevoice_text("<|zh|><|NEUTRAL|>  你好 \t 世界 <|Speech|> ok ");
    assert_eq!(once, "你好 世界 ok");
    assert_eq!(clean_sensevoice_text(&once), once);
    // no tag opener: only the whitespace is normalised
    assert_eq!(clean_sensevoice_text("  plain\n text  "), "plain text");
}
