//! Configuration and result model of the transcription engine, with a
//! deterministic stand-in engine.
//!
//! The engine itself (a neural speech-to-text model) is an opaque
//! collaborator: the streaming layer treats `transcribe` as a callable from
//! audio to a [`TranscriptionResult`]. The processor here is the
//! deterministic stand-in used when no model binding is linked: it
//! fabricates one segment per two seconds of audio, which exercises every
//! consumer of the result model with fully specified values.

use crate::platform::PlatformInfo;
use crate::text::{decimal_of, u64_to_string};
use vstd::prelude::*;

verus! {

/// Errors of the transcription engine.
#[derive(Debug)]
pub enum WhisperError {
    /// The model could not be loaded.
    ModelLoadError(String),
    /// A transcription run failed.
    TranscriptionError(String),
    /// The audio handed in was unusable; empty input reports this.
    InvalidAudioFormat(String),
    /// The model file is not there; the payload is its path.
    ModelNotFound(String),
    /// The configuration was unusable.
    InitializationError(String),
}

/// One transcribed span of audio. Confidence is a ratio scaled by
/// `10000`.
#[derive(Debug, Clone)]
pub struct TranscriptionSegment {
    /// Start time in milliseconds.
    pub start_ms: i64,
    /// End time in milliseconds.
    pub end_ms: i64,
    /// Segment text.
    pub text: String,
    /// Segment confidence in `[0, 10000]`.
    pub confidence: u32,
}

/// The output of one transcription run.
#[derive(Debug, Clone)]
pub struct TranscriptionResult {
    /// Transcribed text.
    pub text: String,
    /// Overall confidence in `[0, 10000]`.
    pub confidence: u32,
    /// Processing time in milliseconds.
    pub processing_time_ms: u64,
    /// Language of the transcript (ISO 639-1 code).
    pub language: String,
    /// Individual segments with timestamps, in time order.
    pub segments: Vec<TranscriptionSegment>,
}

/// Configuration of the transcription engine.
#[derive(Debug, Clone)]
pub struct WhisperConfig {
    /// Path of the model file.
    pub model_path: String,
    /// Language to transcribe (`"auto"` for detection).
    pub language: String,
    /// Number of worker threads.
    pub num_threads: usize,
    /// Use GPU acceleration when available.
    pub use_gpu: bool,
    /// Translate to English.
    pub translate: bool,
    /// Print progress information.
    pub print_progress: bool,
    /// Maximum segment length in characters.
    pub max_segment_length: usize,
}

impl Default for WhisperConfig {
    /// English, all processors, GPU on, a default model path.
    fn default() -> (r: WhisperConfig)
        ensures
            r.model_path@ == "models/ggml-base.en.bin"@,
            r.language@ == "en"@,
            r.num_threads >= 1,
            r.use_gpu,
            !r.translate,
            !r.print_progress,
            r.max_segment_length == 1000,
    {
        WhisperConfig {
            model_path: "models/ggml-base.en.bin".to_owned(),
            language: "en".to_owned(),
            num_threads: PlatformInfo::get_cpu_count(),
            use_gpu: true,
            translate: false,
            print_progress: false,
            max_segment_length: 1000,
        }
    }
}

impl WhisperConfig {
    /// Check the configuration. Whether the model file is present is a
    /// question about the file system, so the caller reports it; the
    /// check itself is exact: it fails for a missing model, then for a
    /// zero thread count, and succeeds otherwise.
    pub fn validate(&self, model_present: bool) -> (r: Result<(), WhisperError>)
        ensures
            r is Ok <==> (model_present && self.num_threads >= 1),
            !model_present ==> (r matches Err(WhisperError::ModelNotFound(p)) && p@
                == self.model_path@),
            model_present && self.num_threads == 0 ==> (r matches Err(
                WhisperError::InitializationError(_),
            )),
    {
        if !model_present {
            return Err(WhisperError::ModelNotFound(self.model_path.clone()));
        }
        if self.num_threads == 0 {
            return Err(WhisperError::InitializationError("num_threads must be > 0".to_owned()));
        }
        Ok(())
    }
}

/// The number of fabricated segments for a block of samples: one per two
/// seconds of 16 kHz audio, rounded up.
pub open spec fn num_mock_segments(len: int) -> int {
    if len % 32000 == 0 {
        len / 32000
    } else {
        len / 32000 + 1
    }
}

/// The text of one fabricated segment.
pub open spec fn mock_segment_text(i: int) -> Seq<char> {
    "Mock segment "@ + decimal_of(i + 1) + " at "@ + decimal_of(2 * i) + ".0s"@
}

/// The text of a whole fabricated transcript: the segment texts joined by
/// single spaces.
pub open spec fn mock_full_text(k: int) -> Seq<char>
    decreases k,
{
    if k <= 1 {
        mock_segment_text(0)
    } else {
        mock_full_text(k - 1) + " "@ + mock_segment_text(k - 1)
    }
}

/// The stand-in transcription engine: deterministic, model-free. A real
/// engine binding lives outside this crate and produces the same
/// [`TranscriptionResult`] shape.
pub struct WhisperProcessor {
    config: WhisperConfig,
}

impl WhisperProcessor {
    /// The configuration the processor was built with.
    pub closed spec fn spec_config(&self) -> WhisperConfig {
        self.config
    }

    /// Create a stand-in processor. No model file is read, so only the
    /// thread count is checked.
    pub fn new(config: WhisperConfig) -> (r: Result<WhisperProcessor, WhisperError>)
        ensures
            r is Ok <==> config.num_threads >= 1,
            r matches Ok(p) ==> p.spec_config() == config,
    {
        match config.validate(true) {
            Ok(_) => Ok(WhisperProcessor { config }),
            Err(e) => Err(e),
        }
    }

    /// Transcribe a block of canonical-format audio. Empty audio is
    /// rejected; otherwise the stand-in fabricates one segment per two
    /// seconds, with timestamps in order and a fixed confidence of `0.85`.
    pub fn transcribe(&self, audio: &[i32]) -> (r: Result<TranscriptionResult, WhisperError>)
        ensures
            audio@.len() == 0 ==> (r matches Err(WhisperError::InvalidAudioFormat(_))),
            audio@.len() > 0 ==> (r matches Ok(t) && {
                let k = num_mock_segments(audio@.len() as int);
                &&& t.confidence == 8500
                &&& t.processing_time_ms == audio@.len() as int / 160
                &&& t.language@ == self.spec_config().language@
                &&& t.text@ == mock_full_text(k)
                &&& t.segments@.len() == k
                &&& forall|i: int|
                    0 <= i < k ==> {
                        &&& (#[trigger] t.segments@[i]).start_ms == 2000 * i
                        &&& t.segments@[i].end_ms == vstd::math::min(
                            2000 * (i + 1),
                            audio@.len() as int / 16,
                        )
                        &&& t.segments@[i].text@ == mock_segment_text(i)
                        &&& t.segments@[i].confidence == 8500
                    }
            }),
    {
        let n = audio.len();
        if n == 0 {
            return Err(WhisperError::InvalidAudioFormat("Empty audio buffer".to_owned()));
        }
        let k: usize = if n % 32000 == 0 {
            n / 32000
        } else {
            proof {
                vstd::arithmetic::div_mod::lemma_div_is_strictly_smaller(n as int, 32000);
            }
            n / 32000 + 1
        };
        let duration_ms: u64 = (n as u64) / 16;
        let mut segments: Vec<TranscriptionSegment> = Vec::new();
        let mut full_text: String = String::new();
        let mut i: usize = 0;
        proof {
            vstd::arithmetic::div_mod::lemma_div_is_ordered(n as int, u64::MAX as int, 32000);
        }
        while i < k
            invariant
                i <= k,
                k == num_mock_segments(n as int),
                k <= u64::MAX as int / 32000 + 1,
                n == audio@.len(),
                duration_ms == n as int / 16,
                segments@.len() == i,
                i == 0 ==> full_text@ == Seq::<char>::empty(),
                i > 0 ==> full_text@ == mock_full_text(i as int),
                forall|j: int|
                    0 <= j < i ==> {
                        &&& (#[trigger] segments@[j]).start_ms == 2000 * j
                        &&& segments@[j].end_ms == vstd::math::min(
                            2000 * (j + 1),
                            n as int / 16,
                        )
                        &&& segments@[j].text@ == mock_segment_text(j)
                        &&& segments@[j].confidence == 8500
                    },
            decreases k - i,
        {
            proof {
                assert((i as int) * 2000 + 2000 <= (u64::MAX as int / 32000 + 1) * 2000)
                    by (nonlinear_arith)
                    requires
                        0 <= i as int <= u64::MAX as int / 32000,
                ;
                assert((u64::MAX as int / 32000 + 1) * 2000 < i64::MAX as int);
            }
            let start_ms: i64 = (i as i64) * 2000;
            let end_raw: i64 = (i as i64) * 2000 + 2000;
            proof {
                vstd::arithmetic::div_mod::lemma_div_is_ordered(n as int, u64::MAX as int, 16);
            }
            let dur_i: i64 = duration_ms as i64;
            let end_ms: i64 = if end_raw < dur_i {
                end_raw
            } else {
                dur_i
            };
            let seg_text: String = Self::segment_text(i);
            if i > 0 {
                proof {
                    reveal_strlit(" ");
                }
                full_text.append(" ");
            }
            full_text.append(seg_text.as_str());
            proof {
                if i == 0 {
                    assert(full_text@ =~= mock_full_text(1));
                } else {
                    assert(full_text@ =~= mock_full_text(i as int + 1));
                }
            }
            segments.push(
                TranscriptionSegment { start_ms, end_ms, text: seg_text, confidence: 8500 },
            );
            i = i + 1;
        }
        let processing_time_ms: u64 = (n as u64) / 160;
        Ok(
            TranscriptionResult {
                text: full_text,
                confidence: 8500,
                processing_time_ms,
                language: self.config.language.clone(),
                segments,
            },
        )
    }

    /// The text of one fabricated segment.
    fn segment_text(i: usize) -> (r: String)
        requires
            i as int <= u64::MAX as int / 2,
        ensures
            r@ == mock_segment_text(i as int),
    {
        proof {
            reveal_strlit("Mock segment ");
            reveal_strlit(" at ");
            reveal_strlit(".0s");
        }
        let mut s: String = "Mock segment ".to_owned();
        let num: String = u64_to_string((i as u64) + 1);
        s.append(num.as_str());
        s.append(" at ");
        proof {
            assert((i as int) * 2 == 2 * (i as int));
            assert((i as u64) * 2 <= u64::MAX) by (nonlinear_arith)
                requires
                    0 <= i as int <= u64::MAX as int / 2,
        ;
        }
        let sec: String = u64_to_string((i as u64) * 2);
        s.append(sec.as_str());
        s.append(".0s");
        s
    }

    /// The configuration of this processor.
    pub fn config(&self) -> (r: &WhisperConfig)
        ensures
            *r == self.spec_config(),
    {
        &self.config
    }

    /// A one-line description of the loaded model: its path, the thread
    /// count and whether the GPU is in use.
    pub fn model_info(&self) -> (r: String)
        ensures
            r@ == "Whisper model: "@ + self.spec_config().model_path@ + ", threads: "@
                + crate::text::decimal_of(self.spec_config().num_threads as int) + ", GPU: "@ + (
            if self.spec_config().use_gpu {
                "true"@
            } else {
                "false"@
            }),
    {
        let mut s: String = "Whisper model: ".to_owned();
        s.append(self.config.model_path.as_str());
        s.append(", threads: ");
        let threads: String = u64_to_string(self.config.num_threads as u64);
        s.append(threads.as_str());
        s.append(", GPU: ");
        if self.config.use_gpu {
            s.append("true");
        } else {
            s.append("false");
        }
        s
    }
}

} // verus!
