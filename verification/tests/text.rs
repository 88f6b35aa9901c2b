use whisper_rust::engine::{conclude, cpu_estimate, EngineOutcome, InferenceParams};
use whisper_rust::text::{
    chars_of, concat_segments, contains, is_exchangeable, join_segments, model_id_for_path,
};
use whisper_rust::{LockKind, WhisperError};

#[test]
fn substring_search() {
    assert!(contains("ggml-medium.en", "medium"));
    assert!(contains("medium", "medium"));
    assert!(contains("xmedium", "medium"));
    assert!(!contains("mediu", "medium"));
    assert!(!contains("medi-um", "medium"));
    assert!(contains("anything", ""));
    assert!(contains("", ""));
    assert!(!contains("", "a"));
    assert!(contains("aab", "ab"));
    assert!(contains("naïve-tiny", "tiny"));
    assert!(contains("ünï", "nï"));
}

#[test]
fn characters_of_a_string() {
    assert_eq!(chars_of("aé"), vec!['a', 'é']);
    assert_eq!(chars_of(""), Vec::<char>::new());
}

#[test]
fn model_identifier() {
    assert_eq!(model_id_for_path("/models/ggml-tiny.en.bin"), "model__models_ggml-tiny_en_bin");
    assert_eq!(model_id_for_path("C:\\models\\small.bin"), "model_C:_models_small_bin");
    assert_eq!(model_id_for_path("invalid_path"), "model_invalid_path");
    assert_eq!(model_id_for_path(""), "model_");
}

#[test]
fn segments_are_joined_with_single_spaces() {
    let segments = vec![Some("Hello".to_string()), Some("world".to_string())];
    assert_eq!(join_segments(&segments), "Hello world");
    assert_eq!(join_segments(&vec![Some("one".to_string())]), "one");
    assert_eq!(join_segments(&Vec::new()), "");
}

#[test]
fn only_the_joined_text_is_trimmed() {
    let segments = vec![Some(" Hello ".to_string()), Some(" world \n".to_string())];
    assert_eq!(join_segments(&segments), "Hello   world");
    assert_eq!(join_segments(&vec![Some("  \t ".to_string())]), "");
}

#[test]
fn raw_text_keeps_its_white_space() {
    let segments = vec![Some(" Hello ".to_string()), Some(" world \n".to_string())];
    assert_eq!(concat_segments(&segments), " Hello   world \n");
    let segments = vec![Some("a".to_string()), None, Some("b".to_string()), None];
    assert_eq!(concat_segments(&segments), "a b ");
    assert_eq!(concat_segments(&Vec::new()), "");
}

#[test]
fn unreadable_segment_adds_nothing() {
    let segments = vec![Some("a".to_string()), None, Some("b".to_string())];
    assert_eq!(join_segments(&segments), "a b");
    // The space after the last readable segment is trimmed away.
    let segments = vec![Some("a".to_string()), None];
    assert_eq!(join_segments(&segments), "a");
    assert_eq!(join_segments(&vec![None, None]), "");
}

#[test]
fn nul_cannot_cross_the_boundary() {
    assert!(is_exchangeable("plain text"));
    assert!(is_exchangeable(""));
    assert!(!is_exchangeable("a\0b"));
    assert!(!is_exchangeable("\0"));
}

#[test]
fn cpu_estimate_is_one_percent_per_ten_milliseconds() {
    assert_eq!(cpu_estimate(0), 0);
    assert_eq!(cpu_estimate(9), 0);
    assert_eq!(cpu_estimate(10), 1);
    assert_eq!(cpu_estimate(350), 35);
    assert_eq!(cpu_estimate(999), 99);
    assert_eq!(cpu_estimate(1_000), 100);
    assert_eq!(cpu_estimate(5_000), 100);
    assert_eq!(cpu_estimate(u64::MAX), 100);
}

#[test]
fn fixed_inference_parameters() {
    let params = InferenceParams::fixed();
    assert_eq!(params.best_of, 1);
    assert_eq!(params.n_threads, 4);
    assert_eq!(params.language, "en");
    assert!(!params.print_special);
    assert!(!params.print_progress);
    assert!(!params.print_realtime);
    assert!(!params.print_timestamps);
}

#[test]
fn engine_outcomes() {
    let ok = EngineOutcome::Segments(vec![Some(" hi".to_string()), Some("there ".to_string())]);
    assert_eq!(conclude(&ok).ok(), Some("hi there".to_string()));
    match conclude(&EngineOutcome::RunFailed("failed to encode".to_string())) {
        Err(WhisperError::InferenceFailure(m)) => assert_eq!(m, "Transcription failed: failed to encode"),
        other => panic!("unexpected: {:?}", other),
    }
    match conclude(&EngineOutcome::CountFailed("bad state".to_string())) {
        Err(WhisperError::InferenceFailure(m)) => assert_eq!(m, "Failed to get segment count: bad state"),
        other => panic!("unexpected: {:?}", other),
    }
}

#[test]
fn error_messages() {
    assert_eq!(WhisperError::InvalidParameter.message(), "Invalid parameters");
    assert_eq!(WhisperError::ModelNotFound("abc".to_string()).message(), "Model 'abc' not found");
    assert_eq!(WhisperError::load_failed("no file").message(), "Failed to load model: no file");
    assert_eq!(WhisperError::not_loaded().message(), "Model not loaded");
    assert_eq!(WhisperError::transcription_failed("x").message(), "Transcription failed: x");
    assert_eq!(WhisperError::segment_count_failed("y").message(), "Failed to get segment count: y");
    assert_eq!(WhisperError::lock_failed(LockKind::RegistryRead).message(), "Failed to acquire read lock");
    assert_eq!(WhisperError::lock_failed(LockKind::RegistryWrite).message(), "Failed to acquire write lock");
    assert_eq!(WhisperError::lock_failed(LockKind::Slot).message(), "Failed to acquire model lock");
    assert!(matches!(WhisperError::lock_failed(LockKind::Slot), WhisperError::LockFailure(_)));
    assert_eq!(WhisperError::EncodingFailure.message(), "Failed to convert transcription result");
    assert!(matches!(WhisperError::load_failed("e"), WhisperError::LoadFailure(_)));
    assert!(matches!(WhisperError::not_loaded(), WhisperError::LoadFailure(_)));
    assert!(matches!(WhisperError::transcription_failed("e"), WhisperError::InferenceFailure(_)));
}
