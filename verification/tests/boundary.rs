use whisper_rust::boundary::{init_model, validate_request};
use whisper_rust::{ModelSize, WhisperError, WhisperHandle, WhisperManager, WhisperResult};

#[test]
fn handle_keeps_its_identifier() {
    let handle = WhisperHandle::new("model_a".to_string());
    assert_eq!(handle.model_id(), "model_a");
}

#[test]
fn init_registers_under_the_derived_identifier() {
    let mut manager: WhisperManager<u32> = WhisperManager::new();
    let handle = init_model(&mut manager, "/models/ggml-small.en.bin", 5);
    assert_eq!(handle.model_id(), "model__models_ggml-small_en_bin");
    let slot = manager.slot(handle.model_id()).unwrap();
    assert_eq!(slot.model_path(), "/models/ggml-small.en.bin");
    assert_eq!(slot.model_info().name, "/models/ggml-small.en.bin");
    assert_eq!(slot.model_info().size, ModelSize::Small);
    assert_eq!(slot.model_info().memory_usage, 244 * 1024 * 1024);
    assert_eq!(slot.model_info().cpu_factor, 25);
    assert_eq!(slot.last_used(), 5);
    assert!(!slot.is_loaded());

    // Two paths that differ only in separators share an identifier.
    let again = init_model(&mut manager, "/models/ggml-small_en.bin", 6);
    assert_eq!(again.model_id(), handle.model_id());
    assert_eq!(manager.model_count(), 1);
    assert_eq!(manager.slot(again.model_id()).unwrap().model_path(), "/models/ggml-small_en.bin");
}

#[test]
fn request_needs_handle_and_samples() {
    assert!(validate_request(true, true, 1).is_ok());
    assert!(validate_request(true, true, 16_000).is_ok());
    assert!(matches!(validate_request(false, true, 1), Err(WhisperError::InvalidParameter)));
    assert!(matches!(validate_request(true, false, 1), Err(WhisperError::InvalidParameter)));
    assert!(matches!(validate_request(true, true, 0), Err(WhisperError::InvalidParameter)));
    assert!(matches!(validate_request(false, false, 0), Err(WhisperError::InvalidParameter)));
}

#[test]
fn reply_carries_exactly_one_of_text_and_error() {
    let ok = WhisperResult::from_transcription(Ok("hello".to_string()));
    assert!(ok.success);
    assert_eq!(ok.text, Some("hello".to_string()));
    assert_eq!(ok.error, None);

    let failed = WhisperResult::from_transcription(Err(WhisperError::ModelNotFound("m".to_string())));
    assert!(!failed.success);
    assert_eq!(failed.text, None);
    assert_eq!(failed.error, Some("Model 'm' not found".to_string()));

    let invalid = WhisperResult::from_transcription(Err(WhisperError::InvalidParameter));
    assert!(!invalid.success);
    assert_eq!(invalid.error, Some("Invalid parameters".to_string()));
}

#[test]
fn transcript_with_nul_is_an_encoding_failure() {
    let reply = WhisperResult::from_transcription(Ok("a\0b".to_string()));
    assert!(!reply.success);
    assert_eq!(reply.text, None);
    assert_eq!(reply.error, Some("Failed to convert transcription result".to_string()));
}

#[test]
fn message_with_nul_is_left_out() {
    let reply = WhisperResult::failure("bad\0message");
    assert!(!reply.success);
    assert_eq!(reply.text, None);
    assert_eq!(reply.error, None);
    let reply = WhisperResult::failure("plain");
    assert_eq!(reply.error, Some("plain".to_string()));
}
