//! Tests of the earlier transcription configuration and its
//! transcript-quality heuristics.

use aether_core::whisper_wrapper_old::{
    estimate_confidence, has_excessive_repetition, WhisperConfig,
};

fn test_config() -> WhisperConfig {
    WhisperConfig {
        model_path: "models/test-model.bin".to_string(),
        language: "en".to_string(),
        num_threads: 4,
        use_gpu: false,
        translate: false,
        print_progress: false,
        max_segment_length: 1000,
    }
}

#[test]
fn whisper_wrapper_old_test_config_validation() {
    let mut config = test_config();

    // The model file is not present, so validation fails even with a
    // sound thread count.
    config.num_threads = 4;
    assert!(config.validate(false).is_err());

    config.num_threads = 0;
    assert!(config.validate(false).is_err());
}

#[test]
fn test_confidence_estimation() {
    // Empty text carries no confidence at all.
    assert_eq!(estimate_confidence(""), 0);

    // Short clean prose with sentence punctuation: base 0.7 plus the
    // punctuation bonus.
    assert_eq!(estimate_confidence("hello world."), 8000);

    // Long clean prose with punctuation gets the length bonus as well.
    assert_eq!(estimate_confidence("the quick brown fox jumps over it."), 9000);

    // A run of repeated characters costs two tenths.
    assert_eq!(estimate_confidence("hellooooo."), 6000);

    // Text without a lower-case letter costs one tenth.
    assert_eq!(estimate_confidence("HELLO."), 7000);
}

#[test]
fn test_excessive_repetition_detection() {
    assert!(!has_excessive_repetition("hello world"));
    assert!(has_excessive_repetition("hellooooo"));
    assert!(has_excessive_repetition("aaaa"));
    assert!(!has_excessive_repetition("book"));
}

#[test]
fn test_default_config() {
    let config = WhisperConfig::default();
    assert_eq!(config.language, "en");
    assert!(!config.translate);
    assert!(config.num_threads > 0);
}
