//! Earlier generation of the transcription-engine configuration, kept for
//! compatibility, together with its transcript-quality heuristics.
//!
//! The engine itself gave no confidence scores, so this generation
//! estimated one from the text: length, sentence punctuation, character
//! repetition and letter case. Those estimates are plain text functions
//! and are verified exactly; the engine binding is an outside collaborator.

use crate::platform::PlatformInfo;
use crate::text::{contains_char, find_quad_run, has_quad_run};
use vstd::prelude::*;

verus! {

/// Errors of the transcription engine.
#[derive(Debug)]
pub enum WhisperError {
    /// The model could not be loaded.
    ModelLoadError(String),
    /// A transcription run failed.
    TranscriptionError(String),
    /// The audio handed in was unusable.
    InvalidAudioFormat(String),
    /// The model file is not there; the payload is its path.
    ModelNotFound(String),
    /// The configuration was unusable.
    InitializationError(String),
}

/// Configuration of the transcription engine.
#[derive(Debug, Clone)]
pub struct WhisperConfig {
    /// Path of the model file.
    pub model_path: String,
    /// Language to transcribe (`"auto"` for detection).
    pub language: String,
    /// Number of worker threads.
    pub num_threads: usize,
    /// Use GPU acceleration when available.
    pub use_gpu: bool,
    /// Translate to English.
    pub translate: bool,
    /// Print progress information.
    pub print_progress: bool,
    /// Maximum segment length in characters.
    pub max_segment_length: usize,
}

impl Default for WhisperConfig {
    /// English, all processors, GPU on, a default model path.
    fn default() -> (r: WhisperConfig)
        ensures
            r.model_path@ == "models/ggml-base.en.bin"@,
            r.language@ == "en"@,
            r.num_threads >= 1,
            r.use_gpu,
            !r.translate,
            !r.print_progress,
            r.max_segment_length == 1000,
    {
        WhisperConfig {
            model_path: "models/ggml-base.en.bin".to_owned(),
            language: "en".to_owned(),
            num_threads: PlatformInfo::get_cpu_count(),
            use_gpu: true,
            translate: false,
            print_progress: false,
            max_segment_length: 1000,
        }
    }
}

impl WhisperConfig {
    /// Check the configuration. This generation always demanded the model
    /// file; whether it is present is a question about the file system, so
    /// the caller reports it. The check fails for a missing model, then
    /// for a zero thread count, and succeeds otherwise.
    pub fn validate(&self, model_present: bool) -> (r: Result<(), WhisperError>)
        ensures
            r is Ok <==> (model_present && self.num_threads >= 1),
            !model_present ==> (r matches Err(WhisperError::ModelNotFound(p)) && p@
                == self.model_path@),
            model_present && self.num_threads == 0 ==> (r matches Err(
                WhisperError::InitializationError(_),
            )),
    {
        if !model_present {
            return Err(WhisperError::ModelNotFound(self.model_path.clone()));
        }
        if self.num_threads == 0 {
            return Err(WhisperError::InitializationError("num_threads must be > 0".to_owned()));
        }
        Ok(())
    }
}

/// Whether a character is an ASCII lower-case letter. The heuristics treat
/// text by its ASCII letters.
pub open spec fn is_ascii_lower(c: char) -> bool {
    'a' <= c <= 'z'
}

/// Whether the text holds no ASCII lower-case letter, so it reads as all
/// caps or as symbols.
pub open spec fn no_lowercase(s: Seq<char>) -> bool {
    forall|i: int| 0 <= i < s.len() ==> !is_ascii_lower(#[trigger] s[i])
}

/// Whether the text holds one of the sentence marks `.`, `!`, `?`.
pub open spec fn has_sentence_mark(s: Seq<char>) -> bool {
    exists|i: int| 0 <= i < s.len() && (#[trigger] s[i] == '.' || s[i] == '!' || s[i] == '?')
}

/// The confidence estimate of a transcript, as a ratio scaled by `10000`:
/// a base of `0.7`, a bonus for length over 20 characters and for sentence
/// punctuation, a penalty for a four-long character run and for text
/// without a lower-case letter.
pub open spec fn confidence_spec(s: Seq<char>) -> int {
    if s.len() == 0 {
        0
    } else {
        let with_length = if s.len() > 20 {
            8000int
        } else {
            7000int
        };
        let with_mark = if has_sentence_mark(s) {
            with_length + 1000
        } else {
            with_length
        };
        let with_run = if has_quad_run(s) {
            with_mark - 2000
        } else {
            with_mark
        };
        if no_lowercase(s) {
            with_run - 1000
        } else {
            with_run
        }
    }
}

/// Whether a transcript repeats one character four times in a row, which
/// marks a poor transcription.
pub fn has_excessive_repetition(text: &str) -> (r: bool)
    ensures
        r == has_quad_run(text@),
{
    find_quad_run(text)
}

/// Estimate the confidence of a transcript from its text alone.
pub fn estimate_confidence(text: &str) -> (r: u32)
    ensures
        r as int == confidence_spec(text@),
{
    let n = text.unicode_len();
    if n == 0 {
        return 0;
    }
    let mut confidence: u32 = 7000;
    if n > 20 {
        confidence = confidence + 1000;
    }
    if contains_char(text, '.') || contains_char(text, '!') || contains_char(text, '?') {
        confidence = confidence + 1000;
    }
    if find_quad_run(text) {
        confidence = confidence - 2000;
    }
    if no_ascii_lowercase(text) {
        confidence = confidence - 1000;
    }
    confidence
}

/// Scan for the absence of ASCII lower-case letters.
fn no_ascii_lowercase(s: &str) -> (r: bool)
    ensures
        r == no_lowercase(s@),
{
    let n = s.unicode_len();
    let mut i: usize = 0;
    while i < n
        invariant
            i <= n,
            n == s@.len(),
            forall|j: int| 0 <= j < i ==> !is_ascii_lower(#[trigger] s@[j]),
        decreases n - i,
    {
        let c = s.get_char(i);
        if 'a' <= c && c <= 'z' {
            return false;
        }
        i = i + 1;
    }
    true
}

} // verus!
