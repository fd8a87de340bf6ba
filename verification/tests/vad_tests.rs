//! Tests of the voice-activity detector: configuration ranges, the frame
//! features, and the four-state hysteresis machine.

use aether_core::vad::{VadConfig, VadError, VadState, VoiceActivityDetector, THRESHOLD_SCALE};

fn generate_silence(length: usize) -> Vec<i16> {
    vec![0; length]
}

fn generate_tone(frequency: f32, duration_samples: usize, amplitude: f32) -> Vec<i16> {
    let sample_rate = 16000.0;
    (0..duration_samples)
        .map(|i| {
            let t = i as f32 / sample_rate;
            let sample = amplitude * (2.0 * std::f32::consts::PI * frequency * t).sin();
            (sample * i16::MAX as f32) as i16
        })
        .collect()
}

// A frame that is unmistakably speech to the default tuning: full
// alternation gives a zero-crossing rate of one, and the amplitude gives
// an energy of about nine percent of full scale.
fn generate_speech_frame(length: usize) -> Vec<i16> {
    (0..length).map(|i| if i % 2 == 0 { 3000 } else { -3000 }).collect()
}

#[test]
fn test_vad_config_default() {
    let config = VadConfig::default();
    assert!(config.validate().is_ok());
    assert_eq!(config.frame_size, 480);
}

#[test]
fn test_vad_config_validation() {
    let mut config = VadConfig::default();
    config.energy_threshold = THRESHOLD_SCALE + 5000;
    assert!(config.validate().is_err());

    config.energy_threshold = 5000;
    config.frame_size = 0;
    assert!(config.validate().is_err());
}

#[test]
fn test_silence_detection() {
    let mut vad = VoiceActivityDetector::new();
    let silence = generate_silence(480);

    let is_speech = vad.process_frame(&silence).unwrap();
    assert!(!is_speech);
    assert_eq!(vad.state(), VadState::Silence);
}

#[test]
fn test_speech_detection() {
    let mut vad = VoiceActivityDetector::new();

    let speech = generate_speech_frame(480);

    for _ in 0..5 {
        vad.process_frame(&speech).unwrap();
    }

    assert!(vad.is_speech_active());
}

#[test]
fn test_energy_calculation() {
    let vad = VoiceActivityDetector::new();

    // Silence has essentially no energy: below a thousandth of full scale.
    let silence = generate_silence(480);
    let energy_silence = vad.calculate_energy(&silence);
    assert!(energy_silence < 10);

    // A half-scale tone has measurable energy: above a tenth of full
    // scale.
    let tone = generate_tone(200.0, 480, 0.5);
    let energy_tone = vad.calculate_energy(&tone);
    assert!(energy_tone > 1000);
}

#[test]
fn test_zero_crossing_rate() {
    let vad = VoiceActivityDetector::new();

    let silence = generate_silence(480);
    let zcr_silence = vad.calculate_zero_crossing_rate(&silence);
    assert_eq!(zcr_silence, 0);

    let tone = generate_tone(200.0, 480, 0.5);
    let zcr_tone = vad.calculate_zero_crossing_rate(&tone);
    assert!(zcr_tone > 100);
}

#[test]
fn test_state_transitions() {
    let config = VadConfig {
        energy_threshold: 100,
        zcr_threshold: 1000,
        frame_size: 480,
        speech_frames_required: 2,
        silence_frames_required: 2,
    };

    let mut vad = VoiceActivityDetector::with_config(config);
    let speech = generate_speech_frame(480);
    let silence = generate_silence(480);

    assert_eq!(vad.state(), VadState::Silence);

    vad.process_frame(&speech).unwrap();
    assert_eq!(vad.state(), VadState::MaybeSpeech);

    vad.process_frame(&speech).unwrap();
    assert_eq!(vad.state(), VadState::Speech);

    vad.process_frame(&silence).unwrap();
    assert_eq!(vad.state(), VadState::MaybeSilence);

    vad.process_frame(&silence).unwrap();
    assert_eq!(vad.state(), VadState::Silence);
}

#[test]
fn vad_test_reset() {
    let mut vad = VoiceActivityDetector::new();
    let speech = generate_speech_frame(480);

    for _ in 0..5 {
        vad.process_frame(&speech).unwrap();
    }
    assert!(vad.is_speech_active());

    vad.reset();
    assert_eq!(vad.state(), VadState::Silence);
    assert!(!vad.is_speech_active());
}

#[test]
fn test_insufficient_data_error() {
    let mut vad = VoiceActivityDetector::new();
    let short_frame: Vec<i16> = vec![0; 100];

    let result = vad.process_frame(&short_frame);
    assert!(result.is_err());

    match result {
        Err(VadError::InsufficientData(required)) => {
            assert_eq!(required, 480);
        }
        _ => panic!("Expected InsufficientData error"),
    }
}

#[test]
fn test_false_alarm_handling() {
    let config = VadConfig {
        speech_frames_required: 3,
        ..Default::default()
    };

    let mut vad = VoiceActivityDetector::with_config(config);
    let speech = generate_speech_frame(480);
    let silence = generate_silence(480);

    vad.process_frame(&speech).unwrap();
    assert_eq!(vad.state(), VadState::MaybeSpeech);

    vad.process_frame(&silence).unwrap();
    assert_eq!(vad.state(), VadState::Silence);
    assert!(!vad.is_speech_active());
}

#[test]
fn test_vad_state_trajectory() {
    // With two frames required in each direction, the observed states
    // after speech, speech, silence, silence are MaybeSpeech, Speech,
    // MaybeSilence, Silence.
    let config = VadConfig {
        speech_frames_required: 2,
        silence_frames_required: 2,
        ..Default::default()
    };
    let mut vad = VoiceActivityDetector::with_config(config);
    let speech = generate_speech_frame(480);
    let silence = generate_silence(480);

    vad.process_frame(&speech).unwrap();
    assert_eq!(vad.state(), VadState::MaybeSpeech);
    vad.process_frame(&speech).unwrap();
    assert_eq!(vad.state(), VadState::Speech);
    vad.process_frame(&silence).unwrap();
    assert_eq!(vad.state(), VadState::MaybeSilence);
    vad.process_frame(&silence).unwrap();
    assert_eq!(vad.state(), VadState::Silence);
}

#[test]
fn test_vad_zero_input_stays_silence() {
    // All-zero input of any length at least one frame long leaves the
    // machine in Silence.
    let mut vad = VoiceActivityDetector::new();
    let silence = generate_silence(480);
    for _ in 0..20 {
        vad.process_frame(&silence).unwrap();
        assert_eq!(vad.state(), VadState::Silence);
    }
}

#[test]
fn test_vad_confirmation_windows() {
    // Exactly speech_frames_required consecutive speech frames confirm
    // speech from Silence, and silence_frames_required consecutive
    // silence frames release it from Speech.
    let mut vad = VoiceActivityDetector::new();
    let speech = generate_speech_frame(480);
    let silence = generate_silence(480);

    for _ in 0..3 {
        vad.process_frame(&speech).unwrap();
    }
    assert_eq!(vad.state(), VadState::Speech);

    for _ in 0..10 {
        vad.process_frame(&silence).unwrap();
    }
    assert_eq!(vad.state(), VadState::Silence);
}
