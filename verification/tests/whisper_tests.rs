//! Tests of the transcription-engine configuration and the deterministic
//! stand-in engine.

use aether_core::whisper_wrapper::{WhisperConfig, WhisperProcessor};

#[test]
fn whisper_wrapper_test_whisper_config_default() {
    let config = WhisperConfig::default();
    assert_eq!(config.language, "en");
    assert!(!config.translate);
    assert!(!config.print_progress);
    assert!(config.num_threads > 0);
}

#[test]
fn test_whisper_config_validation() {
    let mut config = WhisperConfig::default();
    config.num_threads = 0;

    assert!(config.validate(true).is_err());
}

#[test]
fn integration_test_test_whisper_config_default() {
    let config = WhisperConfig::default();

    assert_eq!(config.language, "en");
    assert!(!config.translate);
    assert!(config.num_threads > 0);
    assert!(!config.print_progress);
}

#[test]
fn test_whisper_config_validation_missing_model() {
    let config = WhisperConfig {
        model_path: "nonexistent.bin".to_string(),
        ..Default::default()
    };

    assert!(config.validate(false).is_err());
}

#[test]
fn test_whisper_config_validation_invalid_threads() {
    let mut config = WhisperConfig::default();
    config.num_threads = 0;

    assert!(config.validate(true).is_err());
}

#[test]
fn test_mock_whisper_processor() {
    let config = WhisperConfig::default();
    let processor = WhisperProcessor::new(config).unwrap();

    // One second of audio yields one fabricated segment.
    let audio: Vec<i32> = vec![0; 16000];

    let result = processor.transcribe(&audio).unwrap();

    assert!(!result.text.is_empty());
    assert_eq!(result.text, "Mock segment 1 at 0.0s");
    assert_eq!(result.confidence, 8500);
    assert!(result.processing_time_ms > 0);
    assert_eq!(result.language, "en");
    assert_eq!(result.segments.len(), 1);
    assert_eq!(result.segments[0].start_ms, 0);
    assert_eq!(result.segments[0].end_ms, 1000);
}

#[test]
fn test_empty_audio() {
    let config = WhisperConfig::default();
    let processor = WhisperProcessor::new(config).unwrap();

    let empty: Vec<i32> = vec![];
    let result = processor.transcribe(&empty);

    assert!(result.is_err());
}

#[test]
fn test_mock_segments_ordered() {
    // Five seconds of audio yield three segments with non-decreasing,
    // two-second-spaced timestamps.
    let config = WhisperConfig::default();
    let processor = WhisperProcessor::new(config).unwrap();

    let audio: Vec<i32> = vec![0; 80000];
    let result = processor.transcribe(&audio).unwrap();

    assert_eq!(result.segments.len(), 3);
    for (i, seg) in result.segments.iter().enumerate() {
        assert_eq!(seg.start_ms, 2000 * i as i64);
        assert!(seg.start_ms <= seg.end_ms);
    }
    assert_eq!(result.segments[2].end_ms, 5000);
}
