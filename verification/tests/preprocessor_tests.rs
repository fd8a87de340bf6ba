//! Tests of the audio preprocessor: format validation, downmix,
//! normalization and the PCM width conversions. Samples on this path are
//! fixed point: `1_000_000` stands for full-scale `1.0`.

use aether_core::audio_preprocessor::{AudioFormat, AudioPreprocessor, SAMPLE_UNIT};

#[test]
fn test_audio_format_validation() {
    let valid = AudioFormat::new(16000, 1, 16);
    assert!(valid.validate().is_ok());

    let invalid_rate = AudioFormat::new(0, 1, 16);
    assert!(invalid_rate.validate().is_err());

    let invalid_channels = AudioFormat::new(16000, 3, 16);
    assert!(invalid_channels.validate().is_err());
}

#[test]
fn test_whisper_format() {
    let format = AudioFormat::whisper_format();
    assert_eq!(format.sample_rate, 16000);
    assert_eq!(format.channels, 1);
    assert_eq!(format.bits_per_sample, 32);
}

#[test]
fn test_audio_preprocessor_creation() {
    let format = AudioFormat::new(16000, 1, 16);
    let preprocessor = AudioPreprocessor::new(format);

    assert!(preprocessor.is_ok());
    assert_eq!(preprocessor.unwrap().output_format().sample_rate, 16000);
}

#[test]
fn test_invalid_audio_format() {
    let invalid_format = AudioFormat::new(0, 1, 16);
    let result = AudioPreprocessor::new(invalid_format);

    assert!(result.is_err());
}

#[test]
fn test_stereo_to_mono() {
    let format = AudioFormat::new(16000, 2, 16);
    let preprocessor = AudioPreprocessor::new(format).unwrap();

    // 0.5, 0.3, 0.2, 0.4 in fixed point.
    let stereo: Vec<i32> = vec![500_000, 300_000, 200_000, 400_000];
    let mono = preprocessor.stereo_to_mono(&stereo);

    assert_eq!(mono.len(), 2);
    assert_eq!(mono[0], 400_000);
    assert_eq!(mono[1], 300_000);
}

#[test]
fn test_stereo_to_mono_conversion() {
    let format = AudioFormat::new(16000, 2, 16);
    let preprocessor = AudioPreprocessor::new(format).unwrap();

    // Left channel 0.5, right channel 0.3, one thousand frames.
    let stereo: Vec<i32> = (0..1000).flat_map(|_| vec![500_000, 300_000]).collect();
    let mono = preprocessor.process(&stereo).unwrap();

    assert_eq!(mono.len(), 1000);
    // Every frame averages to 0.4.
    assert!(mono.iter().all(|&v| v == 400_000));
}

#[test]
fn test_normalize_clipping() {
    let format = AudioFormat::new(16000, 1, 16);
    let preprocessor = AudioPreprocessor::new(format).unwrap();

    // 1.5, -2.0, 0.5: the block clips and is scaled to a peak of 0.95.
    let samples: Vec<i32> = vec![1_500_000, -2_000_000, 500_000];
    let normalized = preprocessor.normalize(&samples);

    assert!(normalized.iter().all(|&s| -SAMPLE_UNIT <= s && s <= SAMPLE_UNIT));
    assert!(normalized.iter().map(|&s| s.abs()).max().unwrap() <= 950_000);
}

#[test]
fn test_normalize_silent() {
    let format = AudioFormat::new(16000, 1, 16);
    let preprocessor = AudioPreprocessor::new(format).unwrap();

    let silent: Vec<i32> = vec![0; 100];
    let normalized = preprocessor.normalize(&silent);

    assert_eq!(normalized, silent);
}

#[test]
fn test_normalization() {
    let format = AudioFormat::new(16000, 1, 16);
    let preprocessor = AudioPreprocessor::new(format).unwrap();

    // 1.5, -2.0, 0.8, -1.2: output peak at most 0.96, all values within
    // full scale.
    let audio: Vec<i32> = vec![1_500_000, -2_000_000, 800_000, -1_200_000];
    let normalized = preprocessor.process(&audio).unwrap();

    assert!(normalized.iter().all(|&v| -SAMPLE_UNIT <= v && v <= SAMPLE_UNIT));
    let peak = normalized.iter().map(|&v| v.abs()).max().unwrap();
    assert!(peak <= 960_000);

    // All-zero input passes through unchanged.
    let silent: Vec<i32> = vec![0; 100];
    let unchanged = preprocessor.process(&silent).unwrap();
    assert_eq!(unchanged, silent);
}

#[test]
fn test_i16_to_f32_conversion() {
    let pcm: Vec<i16> = vec![i16::MAX, 0, i16::MIN];
    let samples = AudioPreprocessor::pcm_to_samples(&pcm);

    // Full positive scale maps to exactly 1.0; the negative extreme lands
    // within a thousandth of -1.0.
    assert_eq!(samples[0], SAMPLE_UNIT);
    assert_eq!(samples[1], 0);
    assert!((samples[2] + SAMPLE_UNIT).abs() < 1000);
}

#[test]
fn test_f32_to_i16_conversion() {
    let samples: Vec<i32> = vec![SAMPLE_UNIT, 0, -SAMPLE_UNIT];
    let pcm = AudioPreprocessor::samples_to_pcm(&samples);

    assert_eq!(pcm[0], i16::MAX);
    assert_eq!(pcm[1], 0);
    assert_eq!(pcm[2], -i16::MAX);
}

#[test]
fn test_f32_to_i16_clamping() {
    let samples: Vec<i32> = vec![1_500_000, -2_000_000, 500_000];
    let pcm = AudioPreprocessor::samples_to_pcm(&samples);

    assert_eq!(pcm[0], i16::MAX);
    assert_eq!(pcm[1], -i16::MAX);
}

#[test]
fn test_i16_f32_conversion_roundtrip() {
    let original: Vec<i16> = vec![i16::MIN, -1000, 0, 1000, i16::MAX];

    let samples = AudioPreprocessor::pcm_to_samples(&original);
    let roundtrip = AudioPreprocessor::samples_to_pcm(&samples);

    for (a, b) in original.iter().zip(roundtrip.iter()) {
        let diff = (*a as i32 - *b as i32).abs();
        assert!(diff <= 1, "Conversion error too large: {} vs {}", a, b);
    }
}

#[test]
fn test_process_empty_buffer() {
    let format = AudioFormat::new(16000, 1, 16);
    let preprocessor = AudioPreprocessor::new(format).unwrap();

    let result = preprocessor.process(&[]);
    assert!(result.is_err());
}

#[test]
fn test_empty_audio_handling() {
    let format = AudioFormat::new(16000, 1, 16);
    let preprocessor = AudioPreprocessor::new(format).unwrap();

    let empty: Vec<i32> = vec![];
    let result = preprocessor.process(&empty);

    assert!(result.is_err());
}

#[test]
fn test_process_no_conversion_needed() {
    let format = AudioFormat::new(16000, 1, 32);
    let preprocessor = AudioPreprocessor::new(format).unwrap();

    let samples: Vec<i32> = vec![100_000, 200_000, 300_000, 400_000];
    let processed = preprocessor.process(&samples).unwrap();

    assert_eq!(processed.len(), samples.len());
    assert_eq!(processed, samples);
}

#[test]
fn test_process_requires_resampling_stage() {
    // The verified pipeline does not hold the sinc resampler; input at a
    // non-canonical rate reports the missing conversion stage.
    let format = AudioFormat::new(48000, 1, 16);
    let preprocessor = AudioPreprocessor::new(format).unwrap();
    assert!(preprocessor.needs_resampling());

    let samples: Vec<i32> = vec![100_000; 480];
    let result = preprocessor.process(&samples);
    assert!(matches!(
        result,
        Err(aether_core::audio_preprocessor::PreprocessorError::ResamplingError(_))
    ));
}

#[test]
fn test_calculate_output_length() {
    // 48 kHz to 16 kHz: a third of the length.
    let format = AudioFormat::new(48000, 1, 16);
    let preprocessor = AudioPreprocessor::new(format).unwrap();

    let output_len = preprocessor.calculate_output_length(48000);
    assert_eq!(output_len, 16000);
}
