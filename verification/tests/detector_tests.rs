//! Tests of the wake-word detector: configuration, the hot path with and
//! without the voice-activity pre-gate, and the event queue.

use aether_core::detector::{DetectorConfig, WakeWordDetector};
use aether_core::vad::VadConfig;

fn test_config() -> DetectorConfig {
    DetectorConfig {
        access_key: "test_key".to_string(),
        model_path: "models/test.ppn".to_string(),
        sensitivity: 5000,
        sample_rate: 16000,
        vad_config: VadConfig::default(),
        // Disabled for predictable tests.
        enable_vad_prefilter: false,
    }
}

#[test]
fn test_detector_creation() {
    let config = test_config();
    let detector = WakeWordDetector::new(config).unwrap();

    let stats = detector.stats();
    assert!(!stats.is_running);
    assert_eq!(stats.frames_processed, 0);
}

#[test]
fn test_start_stop() {
    let config = test_config();
    let mut detector = WakeWordDetector::new(config).unwrap();

    detector.start().unwrap();
    assert!(detector.stats().is_running);

    detector.stop().unwrap();
    assert!(!detector.stats().is_running);
}

#[test]
fn test_process_audio() {
    let config = test_config();
    let mut detector = WakeWordDetector::new(config).unwrap();

    detector.start().unwrap();

    let samples: Vec<i16> = (0..1000).map(|i| (i % 100) as i16).collect();

    detector.process_audio(&samples).unwrap();

    let stats = detector.stats();
    assert!(stats.frames_processed > 0);
}

#[test]
fn detector_test_reset() {
    let config = test_config();
    let mut detector = WakeWordDetector::new(config).unwrap();

    detector.start().unwrap();

    let samples: Vec<i16> = vec![100; 1000];
    detector.process_audio(&samples).unwrap();

    detector.reset();

    let stats = detector.stats();
    assert_eq!(stats.frames_processed, 0);
}

#[test]
fn detector_test_config_validation() {
    let mut config = test_config();
    assert!(config.validate().is_ok());

    // Sensitivity above full scale.
    config.sensitivity = 15000;
    assert!(config.validate().is_err());

    config.sensitivity = 5000;

    // Empty access key.
    config.access_key = String::new();
    assert!(config.validate().is_err());
}

#[test]
fn test_event_reception() {
    let config = test_config();
    let mut detector = WakeWordDetector::new(config).unwrap();

    detector.start().unwrap();

    // High-energy audio triggers the stand-in classifier on the first
    // frame it sees.
    let samples: Vec<i16> = vec![i16::MAX / 2; 5000];

    detector.process_audio(&samples).unwrap();

    let event = detector.try_recv_event().expect("a wake-word event");
    assert!(event.confidence > 0);
    assert_eq!(event.keyword_index, 0);
    assert!(!event.audio_context.is_empty());
}

#[test]
fn test_detector_on_silence() {
    // With the pre-filter enabled, five seconds of zeros in 512-sample
    // chunks trigger nothing, and no frame reaches the classifier.
    let mut config = test_config();
    config.enable_vad_prefilter = true;
    let mut detector = WakeWordDetector::new(config).unwrap();
    detector.start().unwrap();

    let chunk: Vec<i16> = vec![0; 512];
    let mut fed: usize = 0;
    while fed < 80000 {
        detector.process_audio(&chunk).unwrap();
        fed += 512;
    }

    let stats = detector.stats();
    assert_eq!(stats.wake_words_detected, 0);
    assert!(stats.frames_processed < 100);
}

#[test]
fn test_event_queue_ordered() {
    // Two detections (the classifier fires on every hundredth processed
    // frame) arrive in timestamp order.
    let config = test_config();
    let mut detector = WakeWordDetector::new(config).unwrap();
    detector.start().unwrap();

    // 101 frames of loud audio: detections at processed frames 0 and 100.
    let frame: Vec<i16> = vec![i16::MAX / 2; 480];
    for _ in 0..101 {
        detector.process_audio(&frame).unwrap();
    }

    let stats = detector.stats();
    assert_eq!(stats.wake_words_detected, 2);

    let first = detector.try_recv_event().expect("first event");
    let second = detector.try_recv_event().expect("second event");
    assert!(first.timestamp <= second.timestamp);
    assert!(detector.try_recv_event().is_none());
}
