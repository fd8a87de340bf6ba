//! Wake-word detection.
//!
//! The detector owns the rolling capture buffer, a voice-activity detector
//! used as a pre-gate, and the wake-word classifier. `process_audio` is the
//! hot path: incoming samples join the ring, and every complete frame is
//! taken in turn; with the pre-gate enabled, frames on which the
//! voice-activity machine reports no speech are consumed without reaching
//! the classifier. A classifier hit publishes a [`WakeWordEvent`] carrying
//! a detached snapshot of the buffer and a timestamp that never moves
//! backwards within the session, so the event queue is ordered.
//!
//! The classifier here is the deterministic energy stand-in: it reports
//! keyword zero on every hundredth processed frame whose energy exceeds
//! `0.4` of full scale. A trained model is a drop-in collaborator with the
//! same frame-to-option interface.

use crate::audio_buffer::{write_model, AudioBuffer, BUFFER_SIZE};
use crate::vad::{
    energy_exceeds, frame_is_speech, spec_is_speech_active, vad_step, VadConfig, VadState,
    VoiceActivityDetector, THRESHOLD_SCALE,
};
use vstd::prelude::*;

verus! {

/// Errors of the detector API.
#[derive(Debug)]
pub enum DetectorError {
    /// The classifier could not be set up.
    PorcupineInit(String),
    /// The audio configuration was unusable.
    InvalidAudioFormat(String),
    /// The model file is not there.
    ModelNotFound(String),
    /// A detection run failed.
    DetectionError(String),
    /// The event channel closed.
    ChannelClosed,
}

/// A wake-word detection. Confidence is a ratio scaled by `10000`.
#[derive(Debug, Clone)]
pub struct WakeWordEvent {
    /// When the wake word was detected, in microseconds since the epoch;
    /// never decreasing within a session.
    pub timestamp: i64,
    /// Confidence of the detection, in `[0, 10000]`.
    pub confidence: u32,
    /// Detached snapshot of the capture buffer at trigger time (up to
    /// three seconds).
    pub audio_context: Vec<i16>,
    /// Index of the detected keyword.
    pub keyword_index: i32,
}

/// Configuration of the detector. Sensitivity is a ratio scaled by
/// `10000`.
#[derive(Debug, Clone)]
pub struct DetectorConfig {
    /// Access credential for the classifier.
    pub access_key: String,
    /// Path of the wake-word model file.
    pub model_path: String,
    /// Sensitivity in `[0, 10000]`; forwarded to the classifier.
    pub sensitivity: u32,
    /// Capture sample rate; must be 16 kHz.
    pub sample_rate: usize,
    /// Configuration of the voice-activity pre-gate.
    pub vad_config: VadConfig,
    /// Whether the pre-gate keeps silent frames away from the classifier.
    pub enable_vad_prefilter: bool,
}

impl Default for DetectorConfig {
    /// Mid sensitivity, 16 kHz, pre-gate on; the access key must be
    /// supplied by the caller.
    fn default() -> (r: DetectorConfig)
        ensures
            r.access_key@ == Seq::<char>::empty(),
            r.model_path@ == "models/aether.ppn"@,
            r.sensitivity == 5000,
            r.sample_rate == 16000,
            r.vad_config == VadConfig::default_spec(),
            r.enable_vad_prefilter,
    {
        DetectorConfig {
            access_key: String::new(),
            model_path: "models/aether.ppn".to_owned(),
            sensitivity: 5000,
            sample_rate: 16000,
            vad_config: VadConfig::default(),
            enable_vad_prefilter: true,
        }
    }
}

impl DetectorConfig {
    /// The ranges that `validate` accepts.
    pub open spec fn valid(&self) -> bool {
        &&& self.access_key@.len() > 0
        &&& self.sensitivity <= THRESHOLD_SCALE
        &&& self.sample_rate == 16000
        &&& self.vad_config.valid()
    }

    /// Check the configuration: an access key must be present, the
    /// sensitivity must be a ratio in `[0, 1]`, the sample rate must be
    /// 16 kHz and the pre-gate configuration must validate, in that order.
    pub fn validate(&self) -> (r: Result<(), DetectorError>)
        ensures
            r is Ok <==> self.valid(),
            self.access_key@.len() == 0 ==> (r matches Err(DetectorError::PorcupineInit(_))),
            self.access_key@.len() > 0 && self.sensitivity > THRESHOLD_SCALE ==> (r matches Err(
                DetectorError::InvalidAudioFormat(_),
            )),
            self.access_key@.len() > 0 && self.sensitivity <= THRESHOLD_SCALE && self.sample_rate
                != 16000 ==> (r matches Err(DetectorError::InvalidAudioFormat(_))),
            self.access_key@.len() > 0 && self.sensitivity <= THRESHOLD_SCALE && self.sample_rate
                == 16000 && !self.vad_config.valid() ==> (r matches Err(
                DetectorError::InvalidAudioFormat(_),
            )),
    {
        if self.access_key.as_str().unicode_len() == 0 {
            return Err(DetectorError::PorcupineInit("Access key is required".to_owned()));
        }
        if self.sensitivity > THRESHOLD_SCALE {
            return Err(
                DetectorError::InvalidAudioFormat(
                    "Sensitivity must be between 0.0 and 1.0".to_owned(),
                ),
            );
        }
        if self.sample_rate != 16000 {
            return Err(
                DetectorError::InvalidAudioFormat("Sample rate must be 16000 Hz".to_owned()),
            );
        }
        match self.vad_config.validate() {
            Ok(_) => Ok(()),
            Err(_) => Err(DetectorError::InvalidAudioFormat("VAD config error".to_owned())),
        }
    }
}

/// The ghost trace of the hot path: the pre-gate machine, the processed
/// frame counter (saturating as the real counter does) and the number of
/// detections so far.
pub ghost struct DetectorTrace {
    pub vad_state: VadState,
    pub speech_count: int,
    pub silence_count: int,
    pub frames_processed: int,
    pub detections: int,
}

/// A counter increment that sticks at the machine limit.
pub open spec fn sat_inc(x: int) -> int {
    if x < u64::MAX {
        x + 1
    } else {
        x
    }
}

/// The stand-in classifier's decision on one frame, given the processed
/// frame counter at that moment: a hit needs energy above `0.4` of full
/// scale on a hundredth frame.
pub open spec fn classifier_hits(frame: Seq<i16>, frames_processed: int) -> bool {
    energy_exceeds(frame, 4000) && frames_processed % 100 == 0
}

/// One frame of the hot path: with the pre-gate on, the voice-activity
/// machine advances and a frame it reports inactive is consumed without
/// counting; otherwise the frame reaches the classifier and is counted.
pub open spec fn detector_frame_step(
    tr: DetectorTrace,
    frame: Seq<i16>,
    vcfg: VadConfig,
    prefilter: bool,
) -> DetectorTrace {
    if prefilter {
        let speech = frame_is_speech(frame, vcfg);
        let next = vad_step(
            tr.vad_state,
            tr.speech_count,
            tr.silence_count,
            speech,
            vcfg.speech_frames_required as int,
            vcfg.silence_frames_required as int,
        );
        if !spec_is_speech_active(next.0) {
            DetectorTrace {
                vad_state: next.0,
                speech_count: next.1,
                silence_count: next.2,
                frames_processed: tr.frames_processed,
                detections: tr.detections,
            }
        } else {
            DetectorTrace {
                vad_state: next.0,
                speech_count: next.1,
                silence_count: next.2,
                frames_processed: sat_inc(tr.frames_processed),
                detections: if classifier_hits(frame, tr.frames_processed) {
                    tr.detections + 1
                } else {
                    tr.detections
                },
            }
        }
    } else {
        DetectorTrace {
            vad_state: tr.vad_state,
            speech_count: tr.speech_count,
            silence_count: tr.silence_count,
            frames_processed: sat_inc(tr.frames_processed),
            detections: if classifier_hits(frame, tr.frames_processed) {
                tr.detections + 1
            } else {
                tr.detections
            },
        }
    }
}

/// The hot path folded over a sequence of frames.
pub open spec fn detector_run(
    tr: DetectorTrace,
    frames: Seq<Seq<i16>>,
    vcfg: VadConfig,
    prefilter: bool,
) -> DetectorTrace
    decreases frames.len(),
{
    if frames.len() == 0 {
        tr
    } else {
        detector_run(detector_frame_step(tr, frames[0], vcfg, prefilter), frames.skip(1), vcfg, prefilter)
    }
}

/// The frames a block of buffered samples splits into.
pub open spec fn frames_of(pushed: Seq<i16>, fsize: int) -> Seq<Seq<i16>> {
    Seq::new(
        ((pushed.len() as int) / fsize) as nat,
        |i: int| pushed.subrange(i * fsize, i * fsize + fsize),
    )
}

/// The event queue is ordered by timestamp.
pub open spec fn events_ordered(evs: Seq<WakeWordEvent>) -> bool {
    forall|i: int, j: int|
        0 <= i <= j < evs.len() ==> #[trigger] evs[i].timestamp <= #[trigger] evs[j].timestamp
}

/// Folding one more frame agrees with stepping the folded trace.
proof fn lemma_detector_run_push(
    tr: DetectorTrace,
    frames: Seq<Seq<i16>>,
    last: Seq<i16>,
    vcfg: VadConfig,
    prefilter: bool,
)
    ensures
        detector_run(tr, frames.push(last), vcfg, prefilter) == detector_frame_step(
            detector_run(tr, frames, vcfg, prefilter),
            last,
            vcfg,
            prefilter,
        ),
    decreases frames.len(),
{
    if frames.len() == 0 {
        let s = frames.push(last);
        assert(s.len() == 1);
        assert(s[0] == last);
        assert(s.skip(1) =~= Seq::<Seq<i16>>::empty());
        assert(detector_run(tr, s, vcfg, prefilter) == detector_run(
            detector_frame_step(tr, last, vcfg, prefilter),
            s.skip(1),
            vcfg,
            prefilter,
        ));
        assert(detector_run(tr, frames, vcfg, prefilter) == tr);
    } else {
        assert(frames.push(last)[0] == frames[0]);
        assert(frames.push(last).skip(1) =~= frames.skip(1).push(last));
        lemma_detector_run_push(
            detector_frame_step(tr, frames[0], vcfg, prefilter),
            frames.skip(1),
            last,
            vcfg,
            prefilter,
        );
    }
}

/// With the pre-filter on, all-zero audio starting from `Silence` reaches
/// the classifier never: the machine stays in `Silence`, and neither the
/// processed-frame counter nor the detection count moves.
pub proof fn lemma_silent_frames_reach_no_classifier(
    tr: DetectorTrace,
    frames: Seq<Seq<i16>>,
    vcfg: VadConfig,
)
    requires
        tr.vad_state == VadState::Silence,
        forall|i: int, j: int|
            0 <= i < frames.len() && 0 <= j < frames[i].len() ==> #[trigger] frames[i][j] == 0,
    ensures
        detector_run(tr, frames, vcfg, true).vad_state == VadState::Silence,
        detector_run(tr, frames, vcfg, true).frames_processed == tr.frames_processed,
        detector_run(tr, frames, vcfg, true).detections == tr.detections,
    decreases frames.len(),
{
    if frames.len() > 0 {
        crate::vad::lemma_zero_frame_is_not_speech(frames[0], vcfg);
        let next = detector_frame_step(tr, frames[0], vcfg, true);
        assert(next.vad_state == VadState::Silence);
        assert(forall|i: int, j: int|
            0 <= i < frames.skip(1).len() && 0 <= j < frames.skip(1)[i].len()
                ==> #[trigger] frames.skip(1)[i][j] == 0);
        lemma_silent_frames_reach_no_classifier(next, frames.skip(1), vcfg);
    }
}

/// Relies on `std::time::SystemTime::now` and `duration_since(UNIX_EPOCH)`
/// for a wall-clock timestamp in microseconds; clamped to a non-negative
/// value that fits the result type.
#[verifier::external_body]
fn now_micros() -> (r: i64)
    ensures
        r >= 0,
{
    let micros = std::time::SystemTime::now().duration_since(std::time::UNIX_EPOCH).map(
        |d| d.as_micros(),
    ).unwrap_or(0);
    i64::try_from(micros).unwrap_or(i64::MAX)
}

/// The wake-word detector: capture ring, voice-activity pre-gate,
/// classifier and the pending event queue.
pub struct WakeWordDetector {
    config: DetectorConfig,
    buffer: AudioBuffer,
    vad: VoiceActivityDetector,
    is_running: bool,
    frames_processed: u64,
    wake_words_detected: u64,
    total_detections: Ghost<int>,
    events: Vec<WakeWordEvent>,
    last_timestamp: i64,
}

/// Statistics of a detector.
#[derive(Debug, Clone)]
pub struct DetectorStats {
    /// Frames that reached the classifier.
    pub frames_processed: u64,
    /// Wake words detected.
    pub wake_words_detected: u64,
    /// Buffer fill level in whole percent.
    pub buffer_fill_percent: u64,
    /// Whether the detector is running.
    pub is_running: bool,
}

impl WakeWordDetector {
    /// Structural consistency: the ring has its fixed three-second
    /// capacity, the pre-gate machine is consistent with the stored
    /// configuration, and the event queue is ordered with the session's
    /// watermark at or above every queued timestamp.
    pub closed spec fn wf(&self) -> bool {
        &&& self.buffer.wf()
        &&& self.buffer.spec_capacity() == BUFFER_SIZE
        &&& self.vad.wf()
        &&& self.vad.spec_config() == self.config.vad_config
        &&& self.config.valid()
        &&& events_ordered(self.events@)
        &&& forall|i: int|
            0 <= i < self.events@.len() ==> #[trigger] self.events@[i].timestamp
                <= self.last_timestamp
        &&& self.last_timestamp >= 0
        &&& self.total_detections@ >= 0
        &&& self.wake_words_detected as int == vstd::math::min(
            self.total_detections@,
            u64::MAX as int,
        )
    }

    /// The stored configuration.
    pub closed spec fn spec_config(&self) -> DetectorConfig {
        self.config
    }

    /// The samples currently in the capture ring, oldest first.
    pub closed spec fn spec_buffer(&self) -> Seq<i16> {
        self.buffer.contents()
    }

    /// The pre-gate trace embedded in the detector state.
    pub closed spec fn spec_trace(&self) -> DetectorTrace {
        DetectorTrace {
            vad_state: self.vad.spec_state(),
            speech_count: self.vad.spec_speech_count(),
            silence_count: self.vad.spec_silence_count(),
            frames_processed: self.frames_processed as int,
            detections: self.total_detections@,
        }
    }

    /// Whether the detector is running.
    pub closed spec fn spec_running(&self) -> bool {
        self.is_running
    }

    /// The pending events, oldest first.
    pub closed spec fn spec_events(&self) -> Seq<WakeWordEvent> {
        self.events@
    }

    /// Frames that reached the classifier.
    pub closed spec fn spec_frames_processed(&self) -> int {
        self.frames_processed as int
    }

    /// Wake words detected.
    pub closed spec fn spec_wake_words_detected(&self) -> int {
        self.wake_words_detected as int
    }

    /// Create a detector. Fails exactly when the configuration does not
    /// validate, with the same error.
    pub fn new(config: DetectorConfig) -> (r: Result<WakeWordDetector, DetectorError>)
        ensures
            r is Ok <==> config.valid(),
            r matches Ok(d) ==> {
                &&& d.wf()
                &&& d.spec_config() == config
                &&& !d.spec_running()
                &&& d.spec_buffer() == Seq::<i16>::empty()
                &&& d.spec_events() == Seq::<WakeWordEvent>::empty()
                &&& d.spec_frames_processed() == 0
                &&& d.spec_wake_words_detected() == 0
                &&& d.spec_trace().vad_state == VadState::Silence
                &&& d.spec_trace().frames_processed == 0
                &&& d.spec_trace().detections == 0
            },
    {
        match config.validate() {
            Ok(_) => {
                let vad = VoiceActivityDetector::with_config(config.vad_config);
                Ok(
                    WakeWordDetector {
                        config,
                        buffer: AudioBuffer::new(),
                        vad,
                        is_running: false,
                        frames_processed: 0,
                        wake_words_detected: 0,
                        total_detections: Ghost(0int),
                        events: Vec::new(),
                        last_timestamp: 0,
                    },
                )
            },
            Err(e) => Err(e),
        }
    }

    /// Start the detector; starting a running detector is a no-op.
    pub fn start(&mut self) -> (r: Result<(), DetectorError>)
        requires
            old(self).wf(),
        ensures
            final(self).wf(),
            r is Ok,
            final(self).spec_running(),
            final(self).spec_config() == old(self).spec_config(),
            final(self).spec_buffer() == old(self).spec_buffer(),
            final(self).spec_events() == old(self).spec_events(),
            final(self).spec_trace() == old(self).spec_trace(),
    {
        self.is_running = true;
        Ok(())
    }

    /// Stop the detector; stopping a stopped detector is a no-op.
    pub fn stop(&mut self) -> (r: Result<(), DetectorError>)
        requires
            old(self).wf(),
        ensures
            final(self).wf(),
            r is Ok,
            !final(self).spec_running(),
            final(self).spec_config() == old(self).spec_config(),
            final(self).spec_buffer() == old(self).spec_buffer(),
            final(self).spec_events() == old(self).spec_events(),
            final(self).spec_trace() == old(self).spec_trace(),
    {
        self.is_running = false;
        Ok(())
    }

    /// The hot path. The samples join the capture ring (oldest leave on
    /// overflow); then every complete frame is taken in order: the
    /// pre-filter machine advances on it and, where it reports speech, the
    /// classifier sees it and a hit appends an event carrying a snapshot
    /// of the ring at that moment. The ring is left with less than one
    /// frame of backlog; the pre-gate, both counters and the number of
    /// appended events follow the hot-path trace exactly; queued events
    /// stay, and the queue stays ordered.
    #[verifier::loop_isolation(false)]
    pub fn process_audio(&mut self, samples: &[i16]) -> (r: Result<(), DetectorError>)
        requires
            old(self).wf(),
        ensures
            final(self).wf(),
            events_ordered(final(self).spec_events()),
            r is Ok,
            final(self).spec_config() == old(self).spec_config(),
            final(self).spec_running() == old(self).spec_running(),
            !old(self).spec_running() ==> *final(self) == *old(self),
            old(self).spec_running() ==> {
                let pushed = write_model(old(self).spec_buffer(), BUFFER_SIZE as nat, samples@);
                let fsize = old(self).spec_config().vad_config.frame_size as int;
                let k = pushed.len() as int / fsize;
                let end = detector_run(
                    old(self).spec_trace(),
                    frames_of(pushed, fsize),
                    old(self).spec_config().vad_config,
                    old(self).spec_config().enable_vad_prefilter,
                );
                &&& final(self).spec_buffer() == pushed.skip(k * fsize)
                &&& final(self).spec_buffer().len() < fsize
                &&& final(self).spec_trace() == end
                &&& final(self).spec_frames_processed() == end.frames_processed
                &&& final(self).spec_wake_words_detected() == vstd::math::min(
                    end.detections,
                    u64::MAX as int,
                )
                &&& final(self).spec_events().len() == old(self).spec_events().len()
                    + end.detections - old(self).spec_trace().detections
                &&& forall|i: int|
                    0 <= i < old(self).spec_events().len() ==> final(self).spec_events()[i] == old(
                        self,
                    ).spec_events()[i]
                &&& forall|i: int|
                    old(self).spec_events().len() <= i < final(self).spec_events().len() ==> {
                        &&& (#[trigger] final(self).spec_events()[i]).confidence == 8500
                        &&& final(self).spec_events()[i].keyword_index == 0
                        &&& final(self).spec_events()[i].timestamp >= 0
                        &&& final(self).spec_events()[i].audio_context@.len() <= BUFFER_SIZE
                        &&& exists|j: int|
                            0 <= j < k && final(self).spec_events()[i].audio_context@
                                == #[trigger] pushed.skip(j * fsize)
                    }
            },
    {
        if !self.is_running {
            return Ok(());
        }
        self.buffer.write(samples);
        let fsize = self.config.vad_config.frame_size;
        let ghost pushed = self.buffer.contents();
        let ghost k: int = pushed.len() as int / (fsize as int);
        let ghost tr0 = self.spec_trace();
        let ghost ev0 = self.events@;
        let ghost frames = frames_of(pushed, fsize as int);
        let mut done: usize = 0;
        proof {
            vstd::arithmetic::div_mod::lemma_fundamental_div_mod(pushed.len() as int, fsize as int);
            vstd::arithmetic::div_mod::lemma_mod_division_less_than_divisor(
                pushed.len() as int,
                fsize as int,
            );
            vstd::arithmetic::div_mod::lemma_div_pos_is_pos(pushed.len() as int, fsize as int);
            vstd::arithmetic::div_mod::lemma_div_nonincreasing(pushed.len() as int, fsize as int);
            assert(pushed.skip(0) =~= pushed);
            assert(frames.take(0) =~= Seq::<Seq<i16>>::empty());
            assert(0int * (fsize as int) == 0) by (nonlinear_arith);
            if pushed.len() >= fsize {
                vstd::arithmetic::div_mod::lemma_div_non_zero(pushed.len() as int, fsize as int);
            } else {
                vstd::arithmetic::div_mod::lemma_basic_div(pushed.len() as int, fsize as int);
            }
        }
        while self.buffer.len() >= fsize
            invariant
                fsize == self.config.vad_config.frame_size,
                0 <= done <= k,
                k <= pushed.len(),
                k == pushed.len() as int / (fsize as int),
                frames == frames_of(pushed, fsize as int),
                self.buffer.contents() == pushed.skip((done as int) * (fsize as int)),
                (done as int) * (fsize as int) <= pushed.len(),
                pushed.len() - (done as int) * (fsize as int) >= fsize ==> done < k,
                pushed.len() - (done as int) * (fsize as int) < fsize ==> done == k,
                self.wf(),
                self.config == old(self).config,
                self.is_running,
                self.spec_trace() == detector_run(
                    tr0,
                    frames.take(done as int),
                    self.config.vad_config,
                    self.config.enable_vad_prefilter,
                ),
                self.spec_trace().detections >= tr0.detections,
                self.events@.len() == ev0.len() + self.spec_trace().detections - tr0.detections,
                self.wake_words_detected as int == vstd::math::min(
                    self.spec_trace().detections,
                    u64::MAX as int,
                ),
                forall|i: int| 0 <= i < ev0.len() ==> #[trigger] self.events@[i] == ev0[i],
                forall|i: int|
                    ev0.len() <= i < self.events@.len() ==> {
                        &&& (#[trigger] self.events@[i]).confidence == 8500
                        &&& self.events@[i].keyword_index == 0
                        &&& self.events@[i].timestamp >= 0
                        &&& self.events@[i].audio_context@.len() <= BUFFER_SIZE
                        &&& exists|j: int|
                            0 <= j < k && self.events@[i].audio_context@ == #[trigger] pushed.skip(
                                j * (fsize as int),
                            )
                    },
            decreases self.buffer.contents().len(),
        {
            let ghost buf_now = self.buffer.contents();
            let frame: Vec<i16> = self.buffer.peek(fsize);
            proof {
                assert(frame@ =~= pushed.subrange(
                    (done as int) * (fsize as int),
                    (done as int) * (fsize as int) + (fsize as int),
                ));
                assert(0 <= done < k);
                assert(frames[done as int] == frame@);
            }
            let gate: bool = if self.config.enable_vad_prefilter {
                match self.vad.process_frame(frame.as_slice()) {
                    Ok(active) => active,
                    Err(_) => true,
                }
            } else {
                true
            };
            if gate {
                // The classifier sees the frame: the energy stand-in with
                // the hundredth-frame rule.
                let hit: bool = crate::vad::frame_energy_exceeds(frame.as_slice(), 4000)
                    && self.frames_processed % 100 == 0;
                if hit {
                    let now = now_micros();
                    let ts: i64 = if now < self.last_timestamp {
                        self.last_timestamp
                    } else {
                        now
                    };
                    let context: Vec<i16> = self.buffer.peek(self.buffer.len());
                    proof {
                        assert(context@ =~= self.buffer.contents());
                        assert(context@ == pushed.skip((done as int) * (fsize as int)));
                    }
                    let event = WakeWordEvent {
                        timestamp: ts,
                        confidence: 8500,
                        audio_context: context,
                        keyword_index: 0,
                    };
                    self.events.push(event);
                    self.last_timestamp = ts;
                    self.wake_words_detected = if self.wake_words_detected < u64::MAX {
                        self.wake_words_detected + 1
                    } else {
                        self.wake_words_detected
                    };
                    proof {
                        self.total_detections@ = self.total_detections@ + 1;
                    }
                }
                self.frames_processed = if self.frames_processed < u64::MAX {
                    self.frames_processed + 1
                } else {
                    self.frames_processed
                };
            }
            match self.buffer.read(fsize) {
                Ok(_) => (),
                Err(_) => (),
            }
            proof {
                assert(buf_now.skip(fsize as int) =~= pushed.skip(
                    (done as int) * (fsize as int) + (fsize as int),
                ));
                assert((done as int) * (fsize as int) + (fsize as int) == (done as int + 1) * (
                fsize as int)) by (nonlinear_arith);
                assert(frames.take(done as int + 1) =~= frames.take(done as int).push(
                    frames[done as int],
                ));
                lemma_detector_run_push(
                    tr0,
                    frames.take(done as int),
                    frames[done as int],
                    self.config.vad_config,
                    self.config.enable_vad_prefilter,
                );
                lemma_window_bounds(pushed.len() as int, fsize as int, done as int + 1, k);
            }
            done = done + 1;
        }
        proof {
            assert(frames.take(k) =~= frames);
        }
        Ok(())
    }

    /// The next pending event, oldest first.
    pub fn try_recv_event(&mut self) -> (r: Option<WakeWordEvent>)
        requires
            old(self).wf(),
        ensures
            final(self).wf(),
            events_ordered(final(self).spec_events()),
            final(self).spec_config() == old(self).spec_config(),
            final(self).spec_buffer() == old(self).spec_buffer(),
            final(self).spec_trace() == old(self).spec_trace(),
            final(self).spec_running() == old(self).spec_running(),
            old(self).spec_events().len() == 0 ==> r is None && final(self).spec_events() == old(
                self,
            ).spec_events(),
            old(self).spec_events().len() > 0 ==> {
                &&& r matches Some(e) && e == old(self).spec_events()[0]
                &&& final(self).spec_events() == old(self).spec_events().skip(1)
            },
    {
        if self.events.len() == 0 {
            None
        } else {
            let e = self.events.remove(0);
            proof {
                assert(self.events@ =~= old(self).events@.skip(1));
            }
            Some(e)
        }
    }

    /// The detector statistics.
    pub fn stats(&self) -> (r: DetectorStats)
        requires
            self.wf(),
        ensures
            r.frames_processed == self.spec_frames_processed(),
            r.wake_words_detected == self.spec_wake_words_detected(),
            r.is_running == self.spec_running(),
            r.buffer_fill_percent as int == (self.spec_buffer().len() as int) * 100int / (
            BUFFER_SIZE as int),
    {
        let len = self.buffer.len();
        let cap = self.buffer.capacity();
        DetectorStats {
            frames_processed: self.frames_processed,
            wake_words_detected: self.wake_words_detected,
            buffer_fill_percent: ((len as u64) * 100) / (cap as u64),
            is_running: self.is_running,
        }
    }

    /// Clear the buffer, reset the pre-gate and zero the counters; pending
    /// events stay queued.
    pub fn reset(&mut self)
        requires
            old(self).wf(),
        ensures
            final(self).wf(),
            final(self).spec_config() == old(self).spec_config(),
            final(self).spec_running() == old(self).spec_running(),
            final(self).spec_buffer() == Seq::<i16>::empty(),
            final(self).spec_events() == old(self).spec_events(),
            final(self).spec_frames_processed() == 0,
            final(self).spec_wake_words_detected() == 0,
            final(self).spec_trace().vad_state == VadState::Silence,
            final(self).spec_trace().frames_processed == 0,
            final(self).spec_trace().detections == 0,
    {
        self.buffer.clear();
        self.vad.reset();
        self.frames_processed = 0;
        self.wake_words_detected = 0;
        proof {
            self.total_detections@ = 0;
        }
    }
}

/// Window-count bookkeeping for the frame loop.
proof fn lemma_window_bounds(len: int, fsize: int, done: int, k: int)
    requires
        fsize >= 1,
        len >= 0,
        k == len / fsize,
        1 <= done <= k,
    ensures
        len - done * fsize >= fsize ==> done < k,
        len - done * fsize < fsize ==> done == k,
        done * fsize <= len,
{
    vstd::arithmetic::div_mod::lemma_fundamental_div_mod(len, fsize);
    vstd::arithmetic::div_mod::lemma_mod_division_less_than_divisor(len, fsize);
    let rm = len % fsize;
    assert(fsize * k == k * fsize) by (nonlinear_arith);
    if len - done * fsize >= fsize {
        assert(done < k) by (nonlinear_arith)
            requires
                done * fsize + fsize <= k * fsize + rm,
                0 <= rm < fsize,
                fsize >= 1,
                done <= k,
        ;
    } else {
        assert(done >= k) by (nonlinear_arith)
            requires
                done * fsize > k * fsize + rm - fsize,
                0 <= rm < fsize,
                fsize >= 1,
        ;
    }
    assert(done * fsize <= k * fsize) by (nonlinear_arith)
        requires
            done <= k,
            fsize >= 1,
            done >= 0,
    ;
}

} // verus!
