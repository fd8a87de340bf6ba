//! Tests of the streaming transcription session: configuration, window
//! geometry, the chunking loop and its accounting.

use aether_core::audio_preprocessor::AudioFormat;
use aether_core::streaming::{StreamingConfig, StreamingEvent, StreamingSTT};
use aether_core::whisper_wrapper::{WhisperConfig, WhisperProcessor};

fn make_session(config: StreamingConfig) -> StreamingSTT {
    let whisper = WhisperProcessor::new(WhisperConfig::default()).unwrap();
    StreamingSTT::new(whisper, AudioFormat::new(16000, 1, 32), config).unwrap()
}

#[test]
fn streaming_test_streaming_config_default() {
    let config = StreamingConfig::default();
    assert_eq!(config.chunk_duration_ms, 500);
    assert_eq!(config.overlap_ms, 50);
    assert!(config.enable_partial_results);
}

#[test]
fn integration_test_test_streaming_config_default() {
    let config = StreamingConfig::default();

    assert_eq!(config.chunk_duration_ms, 500);
    assert_eq!(config.overlap_ms, 50);
    assert!(config.enable_partial_results);
    assert!(config.max_queue_size > 0);
}

#[test]
fn test_chunk_size_calculation() {
    let chunk_duration_ms = 500;
    let sample_rate = 16000;

    let chunk_samples = (chunk_duration_ms * sample_rate / 1000) as usize;
    assert_eq!(chunk_samples, 8000);
}

#[test]
fn test_overlap_calculation() {
    let overlap_ms = 50;
    let sample_rate = 16000;

    let overlap_samples = (overlap_ms * sample_rate / 1000) as usize;
    assert_eq!(overlap_samples, 800);
}

#[test]
fn test_chunk_size_calculations() {
    let config = StreamingConfig::default();

    // Half a second at 16 kHz is 8000 samples.
    let chunk_samples = (config.chunk_duration_ms * 16) as usize;
    assert_eq!(chunk_samples, 8000);

    // Fifty milliseconds at 16 kHz is 800 samples.
    let overlap_samples = (config.overlap_ms * 16) as usize;
    assert_eq!(overlap_samples, 800);
}

#[test]
fn test_streaming_session_initial_state() {
    let session = make_session(StreamingConfig::default());
    let stats = session.stats();

    assert!(!stats.is_active);
    assert_eq!(stats.chunks_processed, 0);
    assert_eq!(stats.total_samples_processed, 0);
    assert_eq!(stats.buffer_size, 0);
}

#[test]
fn test_streaming_chunking() {
    // Three seconds of audio with half-second windows and 50 ms overlap
    // yield six windows: floor((48000 - 8000) / 7200) + 1.
    let mut session = make_session(StreamingConfig::default());
    session.start().unwrap();

    let audio: Vec<i32> = vec![0; 48000];
    let events = session.process_chunk(&audio).unwrap();

    assert_eq!(events.len(), 6);
    for event in &events {
        match event {
            StreamingEvent::Partial { timestamp_ms, .. } => {
                assert_eq!(*timestamp_ms, 500);
            }
            _ => panic!("Expected Partial events"),
        }
    }

    let stats = session.stats();
    assert_eq!(stats.chunks_processed, 6);
    assert_eq!(stats.total_samples_processed, 48000);
    // The accounting law: windows consumed plus the remainder equal the
    // total; the remainder stays under one window.
    assert_eq!(6 * (8000 - 800) + stats.buffer_size, 48000);
    assert!(stats.buffer_size < 8000);
}

#[test]
fn test_streaming_final_events_when_partials_disabled() {
    let config = StreamingConfig {
        enable_partial_results: false,
        ..Default::default()
    };
    let mut session = make_session(config);
    session.start().unwrap();

    let audio: Vec<i32> = vec![0; 8000];
    let events = session.process_chunk(&audio).unwrap();

    assert_eq!(events.len(), 1);
    match &events[0] {
        StreamingEvent::Final { start_ms, end_ms, .. } => {
            assert_eq!(*start_ms, 0);
            assert_eq!(*end_ms, 500);
        }
        _ => panic!("Expected a Final event"),
    }
}

#[test]
fn test_streaming_inactive_session_ignores_audio() {
    let mut session = make_session(StreamingConfig::default());

    let audio: Vec<i32> = vec![0; 8000];
    let events = session.process_chunk(&audio).unwrap();
    assert!(events.is_empty());
    assert_eq!(session.stats().total_samples_processed, 0);

    session.start().unwrap();
    session.stop().unwrap();
    let events = session.process_chunk(&audio).unwrap();
    assert!(events.is_empty());
}

#[test]
fn test_streaming_buffer_cap_drops_oldest() {
    // A one-second cap with ten-second windows: pushed audio beyond the
    // cap drops the oldest samples instead of growing without bound.
    let config = StreamingConfig {
        chunk_duration_ms: 10_000,
        overlap_ms: 0,
        max_buffer_duration_secs: 1,
        ..Default::default()
    };
    let mut session = make_session(config);
    session.start().unwrap();

    let audio: Vec<i32> = vec![0; 32000];
    let events = session.process_chunk(&audio).unwrap();
    assert!(events.is_empty());

    let stats = session.stats();
    assert_eq!(stats.buffer_size, 16000);
    assert_eq!(stats.total_samples_processed, 32000);
}

#[test]
fn test_streaming_rejects_unusable_window_geometry() {
    // An overlap at least as long as the window would stall the loop; the
    // session refuses it before accepting any audio.
    let config = StreamingConfig {
        chunk_duration_ms: 50,
        overlap_ms: 50,
        ..Default::default()
    };
    let mut session = make_session(config);
    session.start().unwrap();

    let result = session.process_chunk(&vec![0; 1000]);
    assert!(matches!(
        result,
        Err(aether_core::streaming::StreamingError::InvalidChunkSize(_))
    ));
    assert_eq!(session.stats().total_samples_processed, 0);
}

#[test]
fn test_streaming_surfaces_preprocessing_error() {
    // A session built for a non-canonical rate surfaces the missing
    // resampling stage as a preprocessing error.
    let whisper = WhisperProcessor::new(WhisperConfig::default()).unwrap();
    let mut session = StreamingSTT::new(
        whisper,
        AudioFormat::new(48000, 1, 32),
        StreamingConfig::default(),
    )
    .unwrap();
    session.start().unwrap();

    let result = session.process_chunk(&vec![0; 1000]);
    assert!(matches!(
        result,
        Err(aether_core::streaming::StreamingError::PreprocessingError(_))
    ));
}

#[test]
fn test_streaming_last_transcription() {
    let mut session = make_session(StreamingConfig::default());
    session.start().unwrap();

    assert_eq!(session.last_transcription(), "");
    session.process_chunk(&vec![0; 8000]).unwrap();
    assert_eq!(session.last_transcription(), "Mock segment 1 at 0.0s");
}
