//! Core library of a local voice-assistant frontend.
//!
//! The heart of the crate is the real-time audio pipeline: a rolling ring
//! buffer of PCM samples, an energy / zero-crossing voice-activity detector
//! built as a four-state machine, a wake-word detector that gates a
//! classifier behind that machine, and a chunked streaming transcription
//! layer. Around it stand the two executor subsystems (a whitelisted OS
//! command runner and a browser automation harness) as verified decision
//! logic; the process, network and browser plumbing itself lives outside
//! this crate.
//!
//! Audio samples on the capture path are `i16` PCM. On the transcription
//! path a sample is a fixed-point integer: the value `1.0` of full scale is
//! [`audio_preprocessor::SAMPLE_UNIT`]. All signal arithmetic is exact
//! integer arithmetic over that representation.

use vstd::prelude::*;

pub mod audio_buffer;
pub mod audio_preprocessor;
pub mod browser_actions;
pub mod browser_executor;
pub mod browser_sandbox;
pub mod browser_screenshot;
pub mod detector;
pub mod executor;
pub mod sandbox;
pub mod platform;
pub mod streaming;
pub mod text;
pub mod vad;
pub mod whisper_wrapper;
pub mod whisper_wrapper_old;
pub mod whitelist;

verus! {

/// Crate version, mirrored from the package manifest.
pub const VERSION: &'static str = "0.1.0";

} // verus!
