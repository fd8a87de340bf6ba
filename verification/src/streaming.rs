//! Chunked streaming transcription.
//!
//! A session accumulates preprocessed audio and cuts it into overlapping
//! windows: each window holds `chunk_duration_ms` of audio and the queue
//! advances by `chunk_samples - overlap_samples` per window, leaving the
//! overlap tail as context for the next window. Each window goes through
//! the transcription engine and yields one event, in window order.
//!
//! The accounting law of a session: at all times
//! `chunks_processed * (chunk_samples - overlap_samples) + buffered +
//! dropped == total_samples_processed`, so the samples consumed by the
//! emitted windows equal the total pushed minus the remainder still queued
//! and minus what the capacity cap dropped; the remainder stays below one
//! window. Every `process_chunk` and session-control call states this in
//! its contract.

use crate::audio_preprocessor::{process_spec, AudioFormat, AudioPreprocessor, PreprocessorError};
use crate::whisper_wrapper::{TranscriptionResult, WhisperError, WhisperProcessor};
use std::collections::VecDeque;
use vstd::prelude::*;

verus! {

/// Default window length in milliseconds.
pub const CHUNK_DURATION_MS: u64 = 500;

/// Default overlap between consecutive windows in milliseconds.
pub const CHUNK_OVERLAP_MS: u64 = 50;

/// Default cap on buffered audio, in seconds.
pub const MAX_CONTEXT_DURATION_SECS: u64 = 30;

/// Errors of the streaming layer.
#[derive(Debug)]
pub enum StreamingError {
    /// The preprocessing stage rejected the audio.
    PreprocessingError(PreprocessorError),
    /// The transcription engine failed.
    WhisperError(WhisperError),
    /// The input stream closed.
    StreamClosed,
    /// The running total of accepted samples would overflow.
    BufferOverflow,
    /// Waiting for audio timed out.
    Timeout,
    /// The configured window geometry is unusable; the payload is the
    /// window size in samples.
    InvalidChunkSize(usize),
}

/// Streaming transcription event. Confidence is a ratio scaled by `10000`.
#[derive(Debug, Clone)]
pub enum StreamingEvent {
    /// Partial transcription result; later windows may revise it.
    Partial { text: String, confidence: u32, timestamp_ms: u64 },
    /// Final transcription result, stable within the session.
    Final { text: String, confidence: u32, start_ms: u64, end_ms: u64 },
    /// End of speech detected.
    EndOfSpeech,
    /// An error surfaced as an event.
    Error { message: String },
}

/// Configuration of a streaming session.
#[derive(Debug, Clone)]
pub struct StreamingConfig {
    /// Window length in milliseconds.
    pub chunk_duration_ms: u64,
    /// Overlap between consecutive windows in milliseconds.
    pub overlap_ms: u64,
    /// Cap on buffered audio, in seconds.
    pub max_buffer_duration_secs: u64,
    /// Confidence floor for publishing partial results, scaled by `10000`.
    pub min_partial_confidence: u32,
    /// Emit `Partial` events per window; otherwise `Final`-shaped ones.
    pub enable_partial_results: bool,
    /// Event queue bound before backpressure applies.
    pub max_queue_size: usize,
}

impl Default for StreamingConfig {
    /// Half-second windows with 50 ms overlap, a 30 s buffer cap, partial
    /// results on, an event queue of 100.
    fn default() -> (r: StreamingConfig)
        ensures
            r.chunk_duration_ms == 500,
            r.overlap_ms == 50,
            r.max_buffer_duration_secs == 30,
            r.min_partial_confidence == 5000,
            r.enable_partial_results,
            r.max_queue_size == 100,
    {
        StreamingConfig {
            chunk_duration_ms: CHUNK_DURATION_MS,
            overlap_ms: CHUNK_OVERLAP_MS,
            max_buffer_duration_secs: MAX_CONTEXT_DURATION_SECS,
            min_partial_confidence: 5000,
            enable_partial_results: true,
            max_queue_size: 100,
        }
    }
}

/// The window size in samples: 16 samples per millisecond.
pub open spec fn spec_chunk_samples(cfg: StreamingConfig) -> int {
    (cfg.chunk_duration_ms as int) * 16
}

/// The overlap size in samples.
pub open spec fn spec_overlap_samples(cfg: StreamingConfig) -> int {
    (cfg.overlap_ms as int) * 16
}

/// The queue advance per window.
pub open spec fn spec_step(cfg: StreamingConfig) -> int {
    spec_chunk_samples(cfg) - spec_overlap_samples(cfg)
}

/// A window geometry the session can run with: a positive window that fits
/// the machine word, and an overlap strictly inside it (otherwise the
/// window loop could not advance).
pub open spec fn spec_config_usable(cfg: StreamingConfig) -> bool {
    &&& 1 <= spec_chunk_samples(cfg) <= usize::MAX
    &&& spec_overlap_samples(cfg) < spec_chunk_samples(cfg)
}

/// The buffered-sample cap: `max_buffer_duration_secs` of 16 kHz audio,
/// saturated at the machine word.
pub open spec fn spec_max_buffered(cfg: StreamingConfig) -> int {
    vstd::math::min((cfg.max_buffer_duration_secs as int) * 16000, usize::MAX as int)
}

/// The timestamp carried by each window's event: the window length in
/// milliseconds.
pub open spec fn spec_event_ms(cfg: StreamingConfig) -> int {
    spec_chunk_samples(cfg) * 1000 / 16000
}

/// The accounting law of a session: the samples consumed by the emitted
/// windows, plus the buffered remainder, plus what was dropped, equal the
/// samples accepted since the session started.
pub open spec fn spec_accounting(s: StreamingSTT) -> bool {
    s.spec_chunks() * spec_step(s.spec_config()) + s.spec_buffer().len() + s.spec_dropped()
        == s.spec_total()
}

/// The number of windows a queue of `len` samples yields.
pub open spec fn spec_window_count(len: int, cfg: StreamingConfig) -> int {
    if len < spec_chunk_samples(cfg) {
        0
    } else {
        (len - spec_chunk_samples(cfg)) / spec_step(cfg) + 1
    }
}

/// Session state: the accumulation queue and the running counters.
struct StreamingState {
    audio_buffer: VecDeque<i32>,
    last_transcription: String,
    total_samples_processed: usize,
    chunks_processed: usize,
    samples_dropped: usize,
    is_active: bool,
}

/// Statistics of a streaming session.
#[derive(Debug, Clone)]
pub struct StreamingStats {
    /// Samples accepted into the session since `start`.
    pub total_samples_processed: usize,
    /// Windows transcribed since `start`.
    pub chunks_processed: usize,
    /// Samples currently buffered.
    pub buffer_size: usize,
    /// Whether the session is running.
    pub is_active: bool,
    /// Character length of the last transcription.
    pub last_transcription_length: usize,
}

/// Streaming transcription session: a preprocessor, a window geometry and
/// the accumulation state around the transcription engine.
pub struct StreamingSTT {
    whisper: WhisperProcessor,
    preprocessor: AudioPreprocessor,
    config: StreamingConfig,
    state: StreamingState,
}

impl StreamingSTT {
    /// The accounting law of the session (with structural side conditions):
    /// windows consumed plus the buffered remainder plus what the cap
    /// dropped equals the running total.
    pub closed spec fn wf(&self) -> bool {
        &&& self.preprocessor.wf()
        &&& (self.state.chunks_processed as int) * spec_step(self.config)
            + self.state.audio_buffer@.len() + self.state.samples_dropped
            == self.state.total_samples_processed
        &&& (self.state.chunks_processed > 0 ==> spec_config_usable(self.config))
    }

    /// The session configuration.
    pub closed spec fn spec_config(&self) -> StreamingConfig {
        self.config
    }

    /// The input format the session was built for.
    pub closed spec fn spec_input_format(&self) -> AudioFormat {
        self.preprocessor.spec_input_format()
    }

    /// The buffered samples, oldest first.
    pub closed spec fn spec_buffer(&self) -> Seq<i32> {
        self.state.audio_buffer@
    }

    /// Samples accepted since `start`.
    pub closed spec fn spec_total(&self) -> int {
        self.state.total_samples_processed as int
    }

    /// Windows transcribed since `start`.
    pub closed spec fn spec_chunks(&self) -> int {
        self.state.chunks_processed as int
    }

    /// Samples dropped by the buffer cap or an explicit clear.
    pub closed spec fn spec_dropped(&self) -> int {
        self.state.samples_dropped as int
    }

    /// Whether the session is running.
    pub closed spec fn spec_active(&self) -> bool {
        self.state.is_active
    }

    /// The text of the last transcribed window.
    pub closed spec fn spec_last_transcription(&self) -> Seq<char> {
        self.state.last_transcription@
    }

    /// Create a session around a transcription engine. Fails exactly when
    /// the input format does not validate.
    pub fn new(whisper: WhisperProcessor, input_format: AudioFormat, config: StreamingConfig) -> (r:
        Result<StreamingSTT, StreamingError>)
        ensures
            r is Ok <==> input_format.valid(),
            r matches Ok(s) ==> {
                &&& s.wf()
                &&& s.spec_config() == config
                &&& s.spec_input_format() == input_format
                &&& !s.spec_active()
                &&& s.spec_buffer() == Seq::<i32>::empty()
                &&& s.spec_total() == 0
                &&& s.spec_chunks() == 0
                &&& s.spec_dropped() == 0
            },
            !input_format.valid() ==> (r matches Err(StreamingError::PreprocessingError(_))),
    {
        match AudioPreprocessor::new(input_format) {
            Ok(preprocessor) => Ok(
                StreamingSTT {
                    whisper,
                    preprocessor,
                    config,
                    state: StreamingState {
                        audio_buffer: VecDeque::new(),
                        last_transcription: String::new(),
                        total_samples_processed: 0,
                        chunks_processed: 0,
                        samples_dropped: 0,
                        is_active: false,
                    },
                },
            ),
            Err(e) => Err(StreamingError::PreprocessingError(e)),
        }
    }

    /// Start the session: clears the queue, the counters and the last
    /// transcription, and marks the session active.
    pub fn start(&mut self) -> (r: Result<(), StreamingError>)
        requires
            old(self).wf(),
        ensures
            final(self).wf(),
            spec_accounting(*final(self)),
            r is Ok,
            final(self).spec_config() == old(self).spec_config(),
            final(self).spec_input_format() == old(self).spec_input_format(),
            final(self).spec_active(),
            final(self).spec_buffer() == Seq::<i32>::empty(),
            final(self).spec_total() == 0,
            final(self).spec_chunks() == 0,
            final(self).spec_dropped() == 0,
            final(self).spec_last_transcription() == Seq::<char>::empty(),
    {
        self.state.is_active = true;
        self.state.audio_buffer.clear();
        self.state.last_transcription = String::new();
        self.state.total_samples_processed = 0;
        self.state.chunks_processed = 0;
        self.state.samples_dropped = 0;
        Ok(())
    }

    /// Stop the session; the accumulated state stays for inspection.
    pub fn stop(&mut self) -> (r: Result<(), StreamingError>)
        requires
            old(self).wf(),
        ensures
            final(self).wf(),
            spec_accounting(*final(self)),
            r is Ok,
            !final(self).spec_active(),
            final(self).spec_config() == old(self).spec_config(),
            final(self).spec_input_format() == old(self).spec_input_format(),
            final(self).spec_buffer() == old(self).spec_buffer(),
            final(self).spec_total() == old(self).spec_total(),
            final(self).spec_chunks() == old(self).spec_chunks(),
            final(self).spec_dropped() == old(self).spec_dropped(),
    {
        self.state.is_active = false;
        Ok(())
    }

    /// Feed samples into the session and transcribe every complete window.
    ///
    /// An inactive session and empty input yield no events. Otherwise the
    /// samples run through the preprocessor, join the queue (whose cap
    /// drops oldest samples beyond `max_buffer_duration_secs`), and every
    /// complete window is cut, transcribed and reported as one event, in
    /// window order. With partial results enabled each event is `Partial`
    /// with the window length as its timestamp; otherwise it is
    /// `Final`-shaped. After the call fewer samples than one window remain
    /// buffered, and the accounting law relates the counters exactly.
    #[verifier::loop_isolation(false)]
    pub fn process_chunk(&mut self, audio: &[i32]) -> (r: Result<
        Vec<StreamingEvent>,
        StreamingError,
    >)
        requires
            old(self).wf(),
        ensures
            final(self).wf(),
            spec_accounting(*final(self)),
            final(self).spec_config() == old(self).spec_config(),
            final(self).spec_input_format() == old(self).spec_input_format(),
            final(self).spec_active() == old(self).spec_active(),
            !old(self).spec_active() ==> (r matches Ok(v) && v@.len() == 0 && *final(self) == *old(
                self,
            )),
            old(self).spec_active() && audio@.len() == 0 ==> (r matches Ok(v) && v@.len() == 0
                && *final(self) == *old(self)),
            old(self).spec_active() && audio@.len() > 0 && !spec_config_usable(old(self).spec_config())
                ==> (r matches Err(StreamingError::InvalidChunkSize(_)) && *final(self) == *old(self)),
            old(self).spec_active() && audio@.len() > 0 && spec_config_usable(old(self).spec_config())
                && old(self).spec_input_format().sample_rate != 16000 ==> (r matches Err(
                StreamingError::PreprocessingError(PreprocessorError::ResamplingError(_)),
            ) && *final(self) == *old(self)),
            old(self).spec_active() && audio@.len() > 0 && spec_config_usable(old(self).spec_config())
                && old(self).spec_input_format().sample_rate == 16000 ==> {
                let cfg = old(self).spec_config();
                let processed = process_spec(audio@, old(self).spec_input_format().channels);
                if old(self).spec_total() + processed.len() > usize::MAX {
                    r matches Err(StreamingError::BufferOverflow) && *final(self) == *old(self)
                } else {
                    let joined = old(self).spec_buffer() + processed;
                    let capped_drop = if joined.len() > spec_max_buffered(cfg) {
                        joined.len() - spec_max_buffered(cfg)
                    } else {
                        0
                    };
                    let q2 = joined.skip(capped_drop);
                    let k = spec_window_count(q2.len() as int, cfg);
                    &&& r matches Ok(events) && {
                        &&& events@.len() == k
                        &&& final(self).spec_buffer() == q2.skip(k * spec_step(cfg))
                        &&& final(self).spec_buffer().len() < spec_chunk_samples(cfg)
                        &&& final(self).spec_total() == old(self).spec_total() + processed.len()
                        &&& final(self).spec_chunks() == old(self).spec_chunks() + k
                        &&& final(self).spec_dropped() == old(self).spec_dropped() + capped_drop
                        &&& forall|i: int|
                            0 <= i < k ==> if cfg.enable_partial_results {
                                (#[trigger] events@[i]) matches StreamingEvent::Partial {
                                    timestamp_ms,
                                    ..
                                } && timestamp_ms == spec_event_ms(cfg)
                            } else {
                                events@[i] matches StreamingEvent::Final { start_ms, end_ms, .. }
                                    && start_ms == 0 && end_ms == spec_event_ms(cfg)
                            }
                    }
                }
            },
    {
        if !self.state.is_active {
            return Ok(Vec::new());
        }
        if audio.len() == 0 {
            return Ok(Vec::new());
        }
        // Window geometry, checked before any state changes.
        let chunk_samples_u: u64 = if self.config.chunk_duration_ms <= u64::MAX / 16 {
            self.config.chunk_duration_ms * 16
        } else {
            return Err(StreamingError::InvalidChunkSize(usize::MAX));
        };
        if chunk_samples_u == 0 || chunk_samples_u > usize::MAX as u64 {
            return Err(StreamingError::InvalidChunkSize(0));
        }
        let chunk_samples: usize = chunk_samples_u as usize;
        let overlap_ok: bool = self.config.overlap_ms <= u64::MAX / 16 && self.config.overlap_ms
            * 16 < chunk_samples_u;
        if !overlap_ok {
            return Err(StreamingError::InvalidChunkSize(chunk_samples));
        }
        let overlap_samples: usize = (self.config.overlap_ms * 16) as usize;
        let step: usize = chunk_samples - overlap_samples;
        // Preprocess; a session built for a non-canonical rate reports the
        // missing conversion stage here.
        let processed: Vec<i32> = match self.preprocessor.process(audio) {
            Ok(v) => v,
            Err(e) => {
                return Err(StreamingError::PreprocessingError(e));
            },
        };
        match self.state.total_samples_processed.checked_add(processed.len()) {
            Some(_) => (),
            None => {
                return Err(StreamingError::BufferOverflow);
            },
        }
        let ghost old_buffer = self.state.audio_buffer@;
        let ghost joined = old_buffer + processed@;
        // Accept the samples.
        let mut pi: usize = 0;
        let pn = processed.len();
        while pi < pn
            invariant
                pi <= pn,
                pn == processed@.len(),
                self.state.audio_buffer@ == old_buffer + processed@.take(pi as int),
                self.config == old(self).config,
                self.preprocessor == old(self).preprocessor,
                self.whisper == old(self).whisper,
                self.state.is_active,
                self.state.chunks_processed == old(self).state.chunks_processed,
                self.state.samples_dropped == old(self).state.samples_dropped,
                self.state.total_samples_processed == old(self).state.total_samples_processed,
            decreases pn - pi,
        {
            self.state.audio_buffer.push_back(processed[pi]);
            assert(old_buffer + processed@.take(pi as int) + seq![processed@[pi as int]]
                =~= old_buffer + processed@.take(pi as int + 1));
            pi = pi + 1;
        }
        assert(processed@.take(pn as int) =~= processed@);
        self.state.total_samples_processed = self.state.total_samples_processed + pn;
        // Cap the queue, dropping oldest samples beyond the limit.
        let max_buffered: usize = max_buffered_of(&self.config);
        let ghost capped_drop: int = if joined.len() > max_buffered {
            joined.len() - max_buffered
        } else {
            0int
        };
        if self.state.audio_buffer.len() > max_buffered {
            let to_drop: usize = self.state.audio_buffer.len() - max_buffered;
            let mut di: usize = 0;
            while di < to_drop
                invariant
                    di <= to_drop,
                    to_drop <= self.state.audio_buffer@.len() + di,
                    self.state.audio_buffer@ == joined.skip(di as int),
                    joined.len() - to_drop == max_buffered,
                    self.config == old(self).config,
                    self.preprocessor == old(self).preprocessor,
                    self.whisper == old(self).whisper,
                    self.state.is_active,
                    self.state.chunks_processed == old(self).state.chunks_processed,
                    self.state.samples_dropped == old(self).state.samples_dropped,
                    self.state.total_samples_processed == old(self).state.total_samples_processed
                        + pn,
                decreases to_drop - di,
            {
                self.state.audio_buffer.pop_front();
                assert(joined.skip(di as int).skip(1) =~= joined.skip(di as int + 1));
                di = di + 1;
            }
            proof {
                vstd::arithmetic::mul::lemma_mul_nonnegative(
                    old(self).state.chunks_processed as int,
                    spec_step(self.config),
                );
            }
            self.state.samples_dropped = self.state.samples_dropped + to_drop;
        }
        let ghost q2 = joined.skip(capped_drop);
        assert(self.state.audio_buffer@ == q2);
        // Cut, transcribe and report every complete window.
        let mut events: Vec<StreamingEvent> = Vec::new();
        let ghost qlen0: int = q2.len() as int;
        let ghost k = spec_window_count(qlen0, self.config);
        let ghost cfg0 = self.config;
        let ghost pre0 = self.preprocessor;
        proof {
            lemma_window_count(qlen0, chunk_samples as int, step as int);
        }
        let mut done: usize = 0;
        while self.state.audio_buffer.len() >= chunk_samples
            invariant
                self.config == cfg0,
                self.preprocessor == pre0,
                self.preprocessor.wf(),
                self.state.is_active,
                chunk_samples == spec_chunk_samples(self.config),
                step == spec_step(self.config),
                1 <= chunk_samples <= usize::MAX,
                1 <= step <= chunk_samples,
                self.state.audio_buffer@ == q2.skip((done as int) * (step as int)),
                0 <= done <= k,
                (done as int) * (step as int) <= qlen0,
                qlen0 == q2.len(),
                k == spec_window_count(qlen0, self.config),
                k <= qlen0,
                qlen0 - (done as int) * (step as int) < chunk_samples ==> done == k,
                qlen0 - (done as int) * (step as int) >= chunk_samples ==> done < k,
                events@.len() == done,
                forall|i: int|
                    0 <= i < done ==> if cfg0.enable_partial_results {
                        (#[trigger] events@[i]) matches StreamingEvent::Partial {
                            timestamp_ms,
                            ..
                        } && timestamp_ms == spec_event_ms(cfg0)
                    } else {
                        events@[i] matches StreamingEvent::Final { start_ms, end_ms, .. }
                            && start_ms == 0 && end_ms == spec_event_ms(cfg0)
                    },
                (self.state.chunks_processed as int) * (step as int)
                    + self.state.audio_buffer@.len() + (self.state.samples_dropped as int)
                    == self.state.total_samples_processed as int,
                self.state.total_samples_processed == old(self).state.total_samples_processed + pn,
                self.state.samples_dropped == old(self).state.samples_dropped + capped_drop,
                self.state.chunks_processed == old(self).state.chunks_processed + done,
            decreases self.state.audio_buffer@.len(),
        {
            proof {
                assert(self.state.chunks_processed < usize::MAX) by (nonlinear_arith)
                    requires
                        (self.state.chunks_processed as int) * (step as int)
                            + self.state.audio_buffer@.len() + (self.state.samples_dropped as int)
                            == self.state.total_samples_processed as int,
                        self.state.audio_buffer@.len() >= 1,
                        step as int >= 1,
                        self.state.total_samples_processed <= usize::MAX,
                        self.state.samples_dropped >= 0,
                        self.state.chunks_processed >= 0,
                ;
            }
            let mut window: Vec<i32> = Vec::new();
            let mut wi: usize = 0;
            while wi < chunk_samples
                invariant
                    wi <= chunk_samples,
                    chunk_samples <= self.state.audio_buffer@.len(),
                    window@ =~= self.state.audio_buffer@.take(wi as int),
                decreases chunk_samples - wi,
            {
                window.push(self.state.audio_buffer[wi]);
                assert(window@ =~= self.state.audio_buffer@.take(wi as int + 1));
                wi = wi + 1;
            }
            let ghost before_advance = self.state.audio_buffer@;
            let ghost chunks_before = self.state.chunks_processed;
            let ghost sdrop_before = self.state.samples_dropped;
            let ghost total_before = self.state.total_samples_processed;
            let mut ai: usize = 0;
            while ai < step
                invariant
                    ai <= step,
                    step <= before_advance.len(),
                    self.state.audio_buffer@ == before_advance.skip(ai as int),
                    self.config == cfg0,
                    self.preprocessor == pre0,
                    self.state.is_active,
                    self.state.chunks_processed == chunks_before,
                    self.state.samples_dropped == sdrop_before,
                    self.state.total_samples_processed == total_before,
                decreases step - ai,
            {
                self.state.audio_buffer.pop_front();
                assert(before_advance.skip(ai as int).skip(1) =~= before_advance.skip(
                    ai as int + 1,
                ));
                ai = ai + 1;
            }
            self.state.chunks_processed = self.state.chunks_processed + 1;
            let event_ms: u64 = event_ms_of(chunk_samples);
            let event: StreamingEvent = match self.whisper.transcribe(window.as_slice()) {
                Ok(t) => {
                    let ev = if self.config.enable_partial_results {
                        StreamingEvent::Partial {
                            text: t.text.clone(),
                            confidence: t.confidence,
                            timestamp_ms: event_ms,
                        }
                    } else {
                        StreamingEvent::Final {
                            text: t.text.clone(),
                            confidence: t.confidence,
                            start_ms: 0,
                            end_ms: event_ms,
                        }
                    };
                    self.state.last_transcription = t.text;
                    ev
                },
                Err(_) => {
                    StreamingEvent::Error {
                        message: "transcription failed".to_owned(),
                    }
                },
            };
            events.push(event);
            proof {
                assert(q2.skip((done as int) * step).skip(step as int) =~= q2.skip(
                    (done as int) * step + step,
                ));
                assert((done as int) * step + step == (done as int + 1) * step) by (nonlinear_arith);
                assert((chunks_before as int + 1) * (step as int) == (chunks_before as int) * (
                step as int) + step) by (nonlinear_arith);
                lemma_window_count_step(qlen0, done as int + 1, chunk_samples as int, step as int, k);
            }
            done = done + 1;
        }
        Ok(events)
    }

    /// The session statistics.
    pub fn stats(&self) -> (r: StreamingStats)
        ensures
            r.total_samples_processed == self.spec_total(),
            r.chunks_processed == self.spec_chunks(),
            r.buffer_size == self.spec_buffer().len(),
            r.is_active == self.spec_active(),
            r.last_transcription_length == self.spec_last_transcription().len(),
    {
        StreamingStats {
            total_samples_processed: self.state.total_samples_processed,
            chunks_processed: self.state.chunks_processed,
            buffer_size: self.state.audio_buffer.len(),
            is_active: self.state.is_active,
            last_transcription_length: self.state.last_transcription.as_str().unicode_len(),
        }
    }

    /// The text of the last transcribed window.
    pub fn last_transcription(&self) -> (r: String)
        ensures
            r@ == self.spec_last_transcription(),
    {
        self.state.last_transcription.clone()
    }

    /// Drop all buffered samples; they count as dropped in the accounting
    /// law.
    pub fn clear_buffer(&mut self)
        requires
            old(self).wf(),
        ensures
            final(self).wf(),
            spec_accounting(*final(self)),
            final(self).spec_buffer() == Seq::<i32>::empty(),
            final(self).spec_config() == old(self).spec_config(),
            final(self).spec_input_format() == old(self).spec_input_format(),
            final(self).spec_active() == old(self).spec_active(),
            final(self).spec_total() == old(self).spec_total(),
            final(self).spec_chunks() == old(self).spec_chunks(),
            final(self).spec_dropped() == old(self).spec_dropped() + old(self).spec_buffer().len(),
    {
        let n = self.state.audio_buffer.len();
        proof {
            let c: int = self.state.chunks_processed as int;
            let st: int = spec_step(self.config);
            if c > 0 {
                vstd::arithmetic::mul::lemma_mul_nonnegative(c, st);
            } else {
                assert(c * st == 0) by (nonlinear_arith)
                    requires
                        c == 0,
                ;
            }
            assert(self.state.samples_dropped + n <= self.state.total_samples_processed);
        }
        self.state.samples_dropped = self.state.samples_dropped + n;
        self.state.audio_buffer.clear();
    }
}

/// The buffered-sample cap of a configuration.
fn max_buffered_of(cfg: &StreamingConfig) -> (r: usize)
    ensures
        r == spec_max_buffered(*cfg),
{
    let prod: u128 = (cfg.max_buffer_duration_secs as u128) * 16000;
    if prod > usize::MAX as u128 {
        usize::MAX
    } else {
        prod as usize
    }
}

/// The event timestamp of a window: its length in milliseconds.
fn event_ms_of(chunk_samples: usize) -> (r: u64)
    ensures
        r == (chunk_samples as int) * 1000 / 16000,
{
    let prod: u128 = (chunk_samples as u128) * 1000;
    proof {
        vstd::arithmetic::div_mod::lemma_div_is_ordered(
            prod as int,
            u64::MAX as int * 1000,
            16000,
        );
        assert(u64::MAX as int * 1000 / 16000 <= u64::MAX as int);
    }
    (prod / 16000) as u64
}

/// The window count is zero exactly on queues shorter than one window.
proof fn lemma_window_count(len: int, chunk: int, step: int)
    requires
        1 <= step <= chunk,
        len >= 0,
    ensures
        len < chunk ==> spec_window_count_raw(len, chunk, step) == 0,
        len >= chunk ==> spec_window_count_raw(len, chunk, step) >= 1,
        spec_window_count_raw(len, chunk, step) <= len,
{
    if len >= chunk {
        vstd::arithmetic::div_mod::lemma_div_pos_is_pos(len - chunk, step);
        vstd::arithmetic::div_mod::lemma_div_nonincreasing(len - chunk, step);
    }
}

/// Raw form of the window count over plain integers.
pub open spec fn spec_window_count_raw(len: int, chunk: int, step: int) -> int {
    if len < chunk {
        0
    } else {
        (len - chunk) / step + 1
    }
}

/// One pass of the window loop keeps the count arithmetic: after `done`
/// windows the remaining queue yields `k - done` more.
proof fn lemma_window_count_step(len: int, done: int, chunk: int, step: int, k: int)
    requires
        1 <= step <= chunk,
        len >= 0,
        k == spec_window_count_raw(len, chunk, step),
        1 <= done <= k,
    ensures
        len - done * step < chunk ==> done == k,
        len - done * step >= chunk ==> done < k,
{
    vstd::arithmetic::div_mod::lemma_fundamental_div_mod(len - chunk, step);
    vstd::arithmetic::div_mod::lemma_mod_division_less_than_divisor(len - chunk, step);
    let q = (len - chunk) / step;
    let rm = (len - chunk) % step;
    assert(len - chunk == step * q + rm);
    assert(step * q == q * step) by (nonlinear_arith);
    if len - done * step < chunk {
        assert(done > q) by (nonlinear_arith)
            requires
                done * step > q * step + rm,
                rm >= 0,
                step >= 1,
        ;
        assert(done == q + 1);
    } else {
        assert(done <= q) by (nonlinear_arith)
            requires
                done * step <= q * step + rm,
                0 <= rm < step,
                step >= 1,
        ;
        assert(done < k);
    }
}

} // verus!
