//! Voice activity detection.
//!
//! Classifies frames of PCM audio as speech or silence from two features,
//! signal energy and zero-crossing rate, and runs a hysteretic four-state
//! machine over the per-frame decisions so that speech must be confirmed for
//! a number of frames before it is reported, and must stay away for a number
//! of frames before it is released.
//!
//! Ratios in `[0, 1]` (thresholds, energy, zero-crossing rate) are held as
//! integers scaled by [`THRESHOLD_SCALE`]: the value `1.0` is `10000`. The
//! comparisons against the thresholds are exact: a frame has
//! energy above `t` if and only if `sum(s^2) * SCALE^2 > t^2 * n * 32767^2`,
//! which is the square of the root-mean-square test, cleared of denominators.

use vstd::arithmetic::mul::*;
use vstd::prelude::*;

verus! {

/// Fixed-point unit for ratios in `[0, 1]`: `10000` stands for `1.0`.
pub const THRESHOLD_SCALE: u32 = 10000;

/// The largest magnitude of an `i16` sample used for normalization.
pub const PCM_MAX: u32 = 32767;

/// Errors of the detector API.
#[derive(Debug)]
pub enum VadError {
    /// A frame was shorter than the configured frame size; the payload is
    /// the number of samples needed.
    InsufficientData(usize),
    /// A configuration field was out of range.
    InvalidConfig(String),
}

/// Configuration of the detector. Thresholds are ratios scaled by
/// [`THRESHOLD_SCALE`].
#[derive(Debug, Clone, Copy)]
pub struct VadConfig {
    /// Energy threshold for speech detection, in `[0, THRESHOLD_SCALE]`.
    pub energy_threshold: u32,
    /// Zero-crossing-rate threshold for speech detection, in
    /// `[0, THRESHOLD_SCALE]`.
    pub zcr_threshold: u32,
    /// Frame size in samples on which one decision is computed.
    pub frame_size: usize,
    /// Consecutive speech frames needed to confirm speech.
    pub speech_frames_required: usize,
    /// Consecutive silence frames needed to end speech.
    pub silence_frames_required: usize,
}

impl VadConfig {
    /// The ranges that `validate` accepts.
    pub open spec fn valid(&self) -> bool {
        &&& self.energy_threshold <= THRESHOLD_SCALE
        &&& self.zcr_threshold <= THRESHOLD_SCALE
        &&& self.frame_size >= 1
    }

    /// Check the configuration: both thresholds must be ratios in `[0, 1]`
    /// and the frame size must be positive.
    pub fn validate(&self) -> (r: Result<(), VadError>)
        ensures
            r is Ok <==> self.valid(),
            r is Err ==> r matches Err(VadError::InvalidConfig(_)),
    {
        if self.energy_threshold > THRESHOLD_SCALE {
            return Err(
                VadError::InvalidConfig("energy_threshold must be between 0.0 and 1.0".to_owned()),
            );
        }
        if self.zcr_threshold > THRESHOLD_SCALE {
            return Err(
                VadError::InvalidConfig("zcr_threshold must be between 0.0 and 1.0".to_owned()),
            );
        }
        if self.frame_size == 0 {
            return Err(VadError::InvalidConfig("frame_size must be greater than 0".to_owned()));
        }
        Ok(())
    }
}

impl Default for VadConfig {
    /// The default tuning: energy 0.02, zero-crossing rate 0.15, 30 ms
    /// frames at 16 kHz, 90 ms to confirm speech, 300 ms to release it.
    fn default() -> (r: VadConfig)
        ensures
            r.energy_threshold == 200,
            r.zcr_threshold == 1500,
            r.frame_size == 480,
            r.speech_frames_required == 3,
            r.silence_frames_required == 10,
            r.valid(),
    {
        VadConfig {
            energy_threshold: 200,
            zcr_threshold: 1500,
            frame_size: 480,
            speech_frames_required: 3,
            silence_frames_required: 10,
        }
    }
}

/// The four states of the hysteresis machine.
#[derive(Debug, Clone, Copy, PartialEq, Eq, Structural)]
pub enum VadState {
    /// Currently detecting silence.
    Silence,
    /// Potential speech, waiting for confirmation.
    MaybeSpeech,
    /// Active speech confirmed.
    Speech,
    /// Speech possibly ending, waiting for confirmation.
    MaybeSilence,
}

/// The sum of the squares of the samples.
pub open spec fn sum_squares(s: Seq<i16>) -> int
    decreases s.len(),
{
    if s.len() == 0 {
        0
    } else {
        sum_squares(s.drop_last()) + s.last() * s.last()
    }
}

/// Whether an adjacent pair of samples crosses zero. A zero sample counts as
/// non-negative.
pub open spec fn is_sign_crossing(a: i16, b: i16) -> bool {
    (a >= 0 && b < 0) || (a < 0 && b >= 0)
}

/// The number of adjacent pairs with opposite sign.
pub open spec fn zero_crossings(s: Seq<i16>) -> int
    decreases s.len(),
{
    if s.len() < 2 {
        0
    } else {
        zero_crossings(s.drop_last()) + if is_sign_crossing(s[s.len() - 2], s.last()) {
            1int
        } else {
            0int
        }
    }
}

/// Exact test of `rms(s) > t / SCALE` where `rms` is the root mean square of
/// the samples normalized by `PCM_MAX`: squaring both sides and clearing
/// denominators leaves integers only.
pub open spec fn energy_exceeds(s: Seq<i16>, threshold: u32) -> bool {
    sum_squares(s) * (THRESHOLD_SCALE * THRESHOLD_SCALE) > (threshold * threshold) * s.len() * (
    PCM_MAX * PCM_MAX)
}

/// Exact test of `crossings / (n - 1) > t / SCALE`. Frames of fewer than two
/// samples have no adjacent pairs and never exceed the threshold.
pub open spec fn zcr_exceeds(s: Seq<i16>, threshold: u32) -> bool {
    if s.len() < 2 {
        false
    } else {
        zero_crossings(s) * THRESHOLD_SCALE > threshold * (s.len() - 1)
    }
}

/// A frame is speech exactly when both features exceed their thresholds.
pub open spec fn frame_is_speech(s: Seq<i16>, cfg: VadConfig) -> bool {
    energy_exceeds(s, cfg.energy_threshold) && zcr_exceeds(s, cfg.zcr_threshold)
}

/// One transition of the state machine: from a state and its two counters,
/// on one frame decision, to the next state and counters.
pub open spec fn vad_step(st: VadState, sc: int, lc: int, speech: bool, sreq: int, lreq: int) -> (
    VadState,
    int,
    int,
) {
    match st {
        VadState::Silence => if speech {
            (VadState::MaybeSpeech, 1int, 0int)
        } else {
            (VadState::Silence, sc, lc)
        },
        VadState::MaybeSpeech => if speech {
            if sc + 1 >= sreq {
                (VadState::Speech, sc + 1, lc)
            } else {
                (VadState::MaybeSpeech, sc + 1, lc)
            }
        } else {
            (VadState::Silence, 0int, lc)
        },
        VadState::Speech => if speech {
            (VadState::Speech, sc, 0int)
        } else {
            (VadState::MaybeSilence, 0int, 1int)
        },
        VadState::MaybeSilence => if speech {
            (VadState::Speech, sc, 0int)
        } else {
            if lc + 1 >= lreq {
                (VadState::Silence, sc, lc + 1)
            } else {
                (VadState::MaybeSilence, sc, lc + 1)
            }
        },
    }
}

/// The machine folded over a sequence of frame decisions.
pub open spec fn vad_run(st: VadState, sc: int, lc: int, flags: Seq<bool>, sreq: int, lreq: int) -> (
    VadState,
    int,
    int,
)
    decreases flags.len(),
{
    if flags.len() == 0 {
        (st, sc, lc)
    } else {
        let next = vad_step(st, sc, lc, flags[0], sreq, lreq);
        vad_run(next.0, next.1, next.2, flags.skip(1), sreq, lreq)
    }
}

/// Speech is reported while confirmed or while its end is unconfirmed.
pub open spec fn spec_is_speech_active(st: VadState) -> bool {
    st == VadState::Speech || st == VadState::MaybeSilence
}

/// Voice activity detector: the per-frame classifier together with the
/// state machine.
pub struct VoiceActivityDetector {
    config: VadConfig,
    state: VadState,
    speech_frame_count: usize,
    silence_frame_count: usize,
}

impl VoiceActivityDetector {
    /// Internal consistency: thresholds are in range so that the feature
    /// comparisons stay exact, and a confirmation counter never sits at a
    /// value from which its increment could overflow.
    pub closed spec fn wf(&self) -> bool {
        &&& self.config.energy_threshold <= THRESHOLD_SCALE
        &&& self.config.zcr_threshold <= THRESHOLD_SCALE
        &&& (self.state == VadState::MaybeSpeech ==> 1 <= self.speech_frame_count
            && (self.speech_frame_count < self.config.speech_frames_required
            || self.speech_frame_count == 1))
        &&& (self.state == VadState::MaybeSilence ==> 1 <= self.silence_frame_count
            && (self.silence_frame_count < self.config.silence_frames_required
            || self.silence_frame_count == 1))
    }

    /// The configuration the detector was built with.
    pub closed spec fn spec_config(&self) -> VadConfig {
        self.config
    }

    /// The current machine state.
    pub closed spec fn spec_state(&self) -> VadState {
        self.state
    }

    /// The consecutive-speech counter.
    pub closed spec fn spec_speech_count(&self) -> int {
        self.speech_frame_count as int
    }

    /// The consecutive-silence counter.
    pub closed spec fn spec_silence_count(&self) -> int {
        self.silence_frame_count as int
    }

    /// Create a detector with the default configuration.
    pub fn new() -> (r: VoiceActivityDetector)
        ensures
            r.wf(),
            r.spec_config() == VadConfig::default_spec(),
            r.spec_state() == VadState::Silence,
            r.spec_speech_count() == 0,
            r.spec_silence_count() == 0,
    {
        Self::with_config(VadConfig::default())
    }

    /// Create a detector with a custom configuration. The thresholds must be
    /// ratios in `[0, 1]`.
    pub fn with_config(config: VadConfig) -> (r: VoiceActivityDetector)
        requires
            config.energy_threshold <= THRESHOLD_SCALE,
            config.zcr_threshold <= THRESHOLD_SCALE,
        ensures
            r.wf(),
            r.spec_config() == config,
            r.spec_state() == VadState::Silence,
            r.spec_speech_count() == 0,
            r.spec_silence_count() == 0,
    {
        VoiceActivityDetector {
            config,
            state: VadState::Silence,
            speech_frame_count: 0,
            silence_frame_count: 0,
        }
    }

    /// Classify one frame and advance the state machine. Fails with
    /// `InsufficientData` when fewer samples than one frame are given, and
    /// the state is then unchanged. On success returns whether speech is
    /// active after the transition.
    pub fn process_frame(&mut self, samples: &[i16]) -> (r: Result<bool, VadError>)
        requires
            old(self).wf(),
        ensures
            final(self).wf(),
            final(self).spec_config() == old(self).spec_config(),
            samples@.len() < old(self).spec_config().frame_size ==> {
                &&& r matches Err(VadError::InsufficientData(need)) && need == old(
                    self,
                ).spec_config().frame_size
                &&& *final(self) == *old(self)
            },
            samples@.len() >= old(self).spec_config().frame_size ==> {
                let speech = frame_is_speech(samples@, old(self).spec_config());
                let next = vad_step(
                    old(self).spec_state(),
                    old(self).spec_speech_count(),
                    old(self).spec_silence_count(),
                    speech,
                    old(self).spec_config().speech_frames_required as int,
                    old(self).spec_config().silence_frames_required as int,
                );
                &&& final(self).spec_state() == next.0
                &&& final(self).spec_speech_count() == next.1
                &&& final(self).spec_silence_count() == next.2
                &&& r matches Ok(active) && active == spec_is_speech_active(next.0)
            },
    {
        if samples.len() < self.config.frame_size {
            return Err(VadError::InsufficientData(self.config.frame_size));
        }
        let is_speech_frame = frame_energy_exceeds(samples, self.config.energy_threshold)
            && frame_zcr_exceeds(samples, self.config.zcr_threshold);
        self.update_state(is_speech_frame);
        Ok(self.is_speech_active())
    }

    /// Advance the state machine on one frame decision.
    fn update_state(&mut self, is_speech_frame: bool)
        requires
            old(self).wf(),
        ensures
            final(self).wf(),
            final(self).spec_config() == old(self).spec_config(),
            (final(self).spec_state(), final(self).spec_speech_count(), final(self).spec_silence_count())
                == vad_step(
                old(self).spec_state(),
                old(self).spec_speech_count(),
                old(self).spec_silence_count(),
                is_speech_frame,
                old(self).spec_config().speech_frames_required as int,
                old(self).spec_config().silence_frames_required as int,
            ),
    {
        match self.state {
            VadState::Silence => {
                if is_speech_frame {
                    self.speech_frame_count = 1;
                    self.silence_frame_count = 0;
                    self.state = VadState::MaybeSpeech;
                }
            },
            VadState::MaybeSpeech => {
                if is_speech_frame {
                    self.speech_frame_count = self.speech_frame_count + 1;
                    if self.speech_frame_count >= self.config.speech_frames_required {
                        self.state = VadState::Speech;
                    }
                } else {
                    self.state = VadState::Silence;
                    self.speech_frame_count = 0;
                }
            },
            VadState::Speech => {
                if !is_speech_frame {
                    self.silence_frame_count = 1;
                    self.speech_frame_count = 0;
                    self.state = VadState::MaybeSilence;
                } else {
                    self.silence_frame_count = 0;
                }
            },
            VadState::MaybeSilence => {
                if !is_speech_frame {
                    self.silence_frame_count = self.silence_frame_count + 1;
                    if self.silence_frame_count >= self.config.silence_frames_required {
                        self.state = VadState::Silence;
                    }
                } else {
                    self.state = VadState::Speech;
                    self.silence_frame_count = 0;
                }
            },
        }
    }

    /// Whether speech is currently reported.
    pub fn is_speech_active(&self) -> (r: bool)
        ensures
            r == spec_is_speech_active(self.spec_state()),
    {
        match self.state {
            VadState::Speech | VadState::MaybeSilence => true,
            _ => false,
        }
    }

    /// The current machine state.
    pub fn state(&self) -> (r: VadState)
        ensures
            r == self.spec_state(),
    {
        self.state
    }

    /// Return to the initial state and zero both counters.
    pub fn reset(&mut self)
        requires
            old(self).wf(),
        ensures
            final(self).wf(),
            final(self).spec_config() == old(self).spec_config(),
            final(self).spec_state() == VadState::Silence,
            final(self).spec_speech_count() == 0,
            final(self).spec_silence_count() == 0,
    {
        self.state = VadState::Silence;
        self.speech_frame_count = 0;
        self.silence_frame_count = 0;
    }

    /// The configuration of this detector.
    pub fn config(&self) -> (r: &VadConfig)
        ensures
            *r == self.spec_config(),
    {
        &self.config
    }

    /// The frame energy as a scaled ratio: the floor of
    /// `rms(samples) * THRESHOLD_SCALE`, where samples are normalized by
    /// `PCM_MAX`. An empty frame reports zero energy.
    pub fn calculate_energy(&self, samples: &[i16]) -> (r: u32)
        ensures
            samples@.len() > 0 ==> {
                let q = sum_squares(samples@) * (THRESHOLD_SCALE * THRESHOLD_SCALE) / (
                samples@.len() * (PCM_MAX * PCM_MAX));
                r * r <= q < (r + 1) * (r + 1)
            },
            samples@.len() == 0 ==> r == 0,
    {
        let n = samples.len();
        if n == 0 {
            return 0;
        }
        let sum: u128 = sum_of_squares(samples);
        let ghost denom_int: int = samples@.len() * ((PCM_MAX * PCM_MAX) as int);
        proof {
            lemma_mul_strictly_positive(n as int, (PCM_MAX * PCM_MAX) as int);
        }
        let denom: u128 = (n as u128) * ((PCM_MAX as u128) * (PCM_MAX as u128));
        proof {
            // Each square term is at most 32768^2 <= 2 * 32767^2, so the
            // scaled numerator is at most twice the squared scale times the
            // denominator, which bounds the quotient by 200_000_000.
            assert(sum as int * 100_000_000int <= 200_000_000int * denom_int) by (nonlinear_arith)
                requires
                    0 <= sum as int <= samples@.len() * 1_073_741_824int,
                    denom_int == samples@.len() * 1_073_676_289int,
                    samples@.len() >= 1,
            ;
            assert(sum as int * 100_000_000int <= u128::MAX as int) by (nonlinear_arith)
                requires
                    0 <= sum as int <= samples@.len() * 1_073_741_824int,
                    samples@.len() <= 0xFFFF_FFFF_FFFF_FFFFint,
            ;
            vstd::arithmetic::div_mod::lemma_div_is_ordered(
                sum as int * 100_000_000int,
                200_000_000int * denom_int,
                denom_int,
            );
            vstd::arithmetic::div_mod::lemma_div_by_multiple(200_000_000int, denom_int);
        }
        let q: u128 = sum * ((THRESHOLD_SCALE as u128) * (THRESHOLD_SCALE as u128)) / denom;
        assert(q <= 200_000_000u128);
        let r: u64 = isqrt_u64(q as u64);
        proof {
            assert(r as int <= 14143int) by (nonlinear_arith)
                requires
                    (r as int) * (r as int) <= q as int,
                    q as int <= 200_000_000int,
            ;
        }
        r as u32
    }

    /// The zero-crossing rate as a scaled ratio: the floor of
    /// `crossings / (n - 1) * THRESHOLD_SCALE`. Frames of fewer than two
    /// samples report zero.
    pub fn calculate_zero_crossing_rate(&self, samples: &[i16]) -> (r: u32)
        ensures
            samples@.len() >= 2 ==> r == zero_crossings(samples@) * THRESHOLD_SCALE / (samples@.len()
                - 1),
            samples@.len() < 2 ==> r == 0,
    {
        let n = samples.len();
        if n < 2 {
            return 0;
        }
        let count: usize = crossing_count(samples);
        proof {
            lemma_zero_crossings_bound(samples@);
        }
        let scaled: u128 = (count as u128) * (THRESHOLD_SCALE as u128) / ((n - 1) as u128);
        assert(scaled <= THRESHOLD_SCALE as u128) by {
            lemma_mul_inequality(
                zero_crossings(samples@),
                samples@.len() - 1,
                THRESHOLD_SCALE as int,
            );
            vstd::arithmetic::div_mod::lemma_div_is_ordered(
                zero_crossings(samples@) * (THRESHOLD_SCALE as int),
                (samples@.len() - 1) * (THRESHOLD_SCALE as int),
                samples@.len() - 1,
            );
            vstd::arithmetic::div_mod::lemma_div_multiples_vanish(
                THRESHOLD_SCALE as int,
                samples@.len() - 1,
            );
        }
        scaled as u32
    }
}

impl Default for VoiceActivityDetector {
    /// A detector with the default configuration.
    fn default() -> (r: VoiceActivityDetector)
        ensures
            r.wf(),
            r.spec_state() == VadState::Silence,
    {
        VoiceActivityDetector::new()
    }
}

/// The spec-level value of `VadConfig::default`.
pub open spec fn default_vad_config() -> VadConfig {
    VadConfig {
        energy_threshold: 200,
        zcr_threshold: 1500,
        frame_size: 480,
        speech_frames_required: 3,
        silence_frames_required: 10,
    }
}

impl VadConfig {
    /// The spec-level value of `Default::default`.
    pub open spec fn default_spec() -> VadConfig {
        default_vad_config()
    }
}

/// Step of `sum_squares` over a growing prefix.
proof fn lemma_sum_squares_take_step(s: Seq<i16>, i: int)
    requires
        0 <= i < s.len(),
    ensures
        sum_squares(s.take(i + 1)) == sum_squares(s.take(i)) + s[i] * s[i],
{
    assert(s.take(i + 1).drop_last() =~= s.take(i));
    assert(s.take(i + 1).last() == s[i]);
}

/// `zero_crossings` counts at most one per adjacent pair.
proof fn lemma_zero_crossings_bound(s: Seq<i16>)
    ensures
        0 <= zero_crossings(s),
        s.len() >= 1 ==> zero_crossings(s) <= s.len() - 1,
        s.len() < 2 ==> zero_crossings(s) == 0,
    decreases s.len(),
{
    if s.len() < 2 {
    } else {
        lemma_zero_crossings_bound(s.drop_last());
    }
}

/// Step of `zero_crossings` over a growing prefix.
proof fn lemma_zero_crossings_take_step(s: Seq<i16>, i: int)
    requires
        1 <= i < s.len(),
    ensures
        zero_crossings(s.take(i + 1)) == zero_crossings(s.take(i)) + if is_sign_crossing(
            s[i - 1],
            s[i],
        ) {
            1int
        } else {
            0int
        },
{
    assert(s.take(i + 1).drop_last() =~= s.take(i));
    assert(s.take(i + 1).last() == s[i]);
    assert(s.take(i + 1)[i - 1] == s[i - 1]);
}

/// Sum of squares of a frame, computed exactly.
fn sum_of_squares(samples: &[i16]) -> (r: u128)
    ensures
        r == sum_squares(samples@),
        r <= samples@.len() * 1_073_741_824int,
{
    let n = samples.len();
    let mut acc: u128 = 0;
    let mut i: usize = 0;
    assert(samples@.take(0) =~= Seq::<i16>::empty());
    while i < n
        invariant
            i <= n,
            n == samples@.len(),
            acc == sum_squares(samples@.take(i as int)),
            acc <= (i as int) * 1_073_741_824int,
        decreases n - i,
    {
        let v: i64 = samples[i] as i64;
        proof {
            assert((v as int) * (v as int) <= 1_073_741_824int && (v as int) * (v as int) >= 0)
                by (nonlinear_arith)
                requires
                    -32768 <= v as int <= 32767,
            ;
        }
        let sq: i64 = v * v;
        proof {
            lemma_sum_squares_take_step(samples@, i as int);
            assert((i as int) * 1_073_741_824int + 1_073_741_824int == (i as int + 1)
                * 1_073_741_824int) by (nonlinear_arith);
            assert(acc + sq <= u128::MAX) by {
                lemma_mul_inequality(i as int, u64::MAX as int, 1_073_741_824int);
            }
        }
        acc = acc + (sq as u128);
        i = i + 1;
    }
    assert(samples@.take(n as int) =~= samples@);
    acc
}

/// Number of zero crossings of a frame, computed exactly.
fn crossing_count(samples: &[i16]) -> (r: usize)
    requires
        samples@.len() >= 2,
    ensures
        r == zero_crossings(samples@),
        r <= samples@.len() - 1,
{
    let n = samples.len();
    let mut count: usize = 0;
    let mut i: usize = 1;
    proof {
        lemma_zero_crossings_bound(samples@.take(1));
    }
    while i < n
        invariant
            1 <= i <= n,
            n == samples@.len(),
            count == zero_crossings(samples@.take(i as int)),
            count <= i - 1,
        decreases n - i,
    {
        let a = samples[i - 1];
        let b = samples[i];
        proof {
            lemma_zero_crossings_take_step(samples@, i as int);
        }
        if (a >= 0 && b < 0) || (a < 0 && b >= 0) {
            count = count + 1;
        }
        i = i + 1;
    }
    assert(samples@.take(n as int) =~= samples@);
    count
}

/// Exact test of the frame energy against a threshold.
pub(crate) fn frame_energy_exceeds(samples: &[i16], threshold: u32) -> (r: bool)
    requires
        threshold <= THRESHOLD_SCALE,
    ensures
        r == energy_exceeds(samples@, threshold),
{
    let n = samples.len();
    let sum: u128 = sum_of_squares(samples);
    proof {
        assert((THRESHOLD_SCALE as int) * (THRESHOLD_SCALE as int) == 100_000_000int);
        assert((PCM_MAX as int) * (PCM_MAX as int) == 1_073_676_289int);
        assert((threshold as int) * (threshold as int) <= 100_000_000int) by (nonlinear_arith)
            requires
                0 <= threshold as int <= 10000int,
        ;
        assert((sum as int) * 100_000_000int <= u128::MAX as int) by (nonlinear_arith)
            requires
                0 <= sum as int <= (n as int) * 1_073_741_824int,
                0 <= n as int <= 0xFFFF_FFFF_FFFF_FFFFint,
        ;
        assert((threshold as int) * (threshold as int) * (n as int) <= u128::MAX as int)
            by (nonlinear_arith)
            requires
                0 <= threshold as int <= 10000int,
                0 <= n as int <= 0xFFFF_FFFF_FFFF_FFFFint,
        ;
        assert((threshold as int) * (threshold as int) * (n as int) * 1_073_676_289int
            <= u128::MAX as int) by (nonlinear_arith)
            requires
                0 <= threshold as int <= 10000int,
                0 <= n as int <= 0xFFFF_FFFF_FFFF_FFFFint,
        ;
    }
    let lhs: u128 = sum * ((THRESHOLD_SCALE as u128) * (THRESHOLD_SCALE as u128));
    let rhs: u128 = ((threshold as u128) * (threshold as u128)) * (n as u128) * ((PCM_MAX as u128)
        * (PCM_MAX as u128));
    lhs > rhs
}

/// Exact test of the frame zero-crossing rate against a threshold.
fn frame_zcr_exceeds(samples: &[i16], threshold: u32) -> (r: bool)
    ensures
        r == zcr_exceeds(samples@, threshold),
{
    let n = samples.len();
    if n < 2 {
        return false;
    }
    let count: usize = crossing_count(samples);
    proof {
        assert((threshold as int) * ((n - 1) as int) <= u128::MAX as int) by (nonlinear_arith)
            requires
                0 <= threshold as int <= 0xFFFF_FFFFint,
                0 <= (n - 1) as int <= 0xFFFF_FFFF_FFFF_FFFFint,
        ;
        assert((count as int) * 10000int <= u128::MAX as int) by (nonlinear_arith)
            requires
                0 <= count as int <= 0xFFFF_FFFF_FFFF_FFFFint,
        ;
    }
    let lhs: u128 = (count as u128) * (THRESHOLD_SCALE as u128);
    let rhs: u128 = (threshold as u128) * ((n - 1) as u128);
    lhs > rhs
}

/// Integer square root: the floor of the square root of `q`. The running
/// square is kept by addition (`(r + 1)^2 == r^2 + 2r + 1`), so every bound
/// in the loop is linear.
fn isqrt_u64(q: u64) -> (r: u64)
    requires
        q <= 0xFFFF_FFFF,
    ensures
        r * r <= q < (r + 1) * (r + 1),
{
    let mut r: u64 = 0;
    let mut s: u64 = 0;
    while s + 2 * r + 1 <= q
        invariant
            q <= 0xFFFF_FFFF,
            s == r * r,
            s <= q,
            r <= q,
        decreases q - s,
    {
        s = s + 2 * r + 1;
        r = r + 1;
        proof {
            assert(r * r == (r - 1) * (r - 1) + 2 * (r - 1) + 1) by (nonlinear_arith)
                requires
                    r >= 1,
            ;
        }
    }
    proof {
        assert((r + 1) * (r + 1) == r * r + 2 * r + 1) by (nonlinear_arith);
    }
    r
}

/// An all-zero frame is never classified as speech: its energy is zero and
/// it has no zero crossings.
pub proof fn lemma_zero_frame_is_not_speech(s: Seq<i16>, cfg: VadConfig)
    requires
        forall|i: int| 0 <= i < s.len() ==> s[i] == 0,
    ensures
        !frame_is_speech(s, cfg),
    decreases s.len(),
{
    lemma_sum_squares_zero(s);
    lemma_zero_crossings_zero(s);
    let t: int = cfg.energy_threshold as int;
    let len: int = s.len() as int;
    assert(t * t * len * 1_073_676_289int >= 0) by (nonlinear_arith)
        requires
            t >= 0,
            len >= 0,
    ;
    if s.len() >= 2 {
        assert((cfg.zcr_threshold as int) * (len - 1) >= 0) by (nonlinear_arith)
            requires
                cfg.zcr_threshold as int >= 0,
                len >= 2,
        ;
    }
}

/// The sum of squares of an all-zero sequence is zero.
proof fn lemma_sum_squares_zero(s: Seq<i16>)
    requires
        forall|i: int| 0 <= i < s.len() ==> s[i] == 0,
    ensures
        sum_squares(s) == 0,
    decreases s.len(),
{
    if s.len() > 0 {
        lemma_sum_squares_zero(s.drop_last());
    }
}

/// An all-zero sequence has no zero crossings.
proof fn lemma_zero_crossings_zero(s: Seq<i16>)
    requires
        forall|i: int| 0 <= i < s.len() ==> s[i] == 0,
    ensures
        zero_crossings(s) == 0,
    decreases s.len(),
{
    if s.len() >= 2 {
        lemma_zero_crossings_zero(s.drop_last());
    }
}

/// From any counters, a run of non-speech decisions starting in `Silence`
/// leaves the machine in `Silence`.
pub proof fn lemma_silence_stays_on_silence(
    sc: int,
    lc: int,
    flags: Seq<bool>,
    sreq: int,
    lreq: int,
)
    requires
        forall|i: int| 0 <= i < flags.len() ==> !flags[i],
    ensures
        vad_run(VadState::Silence, sc, lc, flags, sreq, lreq).0 == VadState::Silence,
    decreases flags.len(),
{
    if flags.len() > 0 {
        lemma_silence_stays_on_silence(sc, lc, flags.skip(1), sreq, lreq);
    }
}

/// A run of speech decisions keeps the machine in `Speech`.
proof fn lemma_speech_stays_on_speech(sc: int, lc: int, flags: Seq<bool>, sreq: int, lreq: int)
    requires
        forall|i: int| 0 <= i < flags.len() ==> flags[i],
    ensures
        vad_run(VadState::Speech, sc, lc, flags, sreq, lreq).0 == VadState::Speech,
    decreases flags.len(),
{
    if flags.len() > 0 {
        lemma_speech_stays_on_speech(sc, 0, flags.skip(1), sreq, lreq);
    }
}

/// From `MaybeSpeech` with `sc` confirmations, `sreq - sc` further speech
/// decisions reach `Speech`.
proof fn lemma_speech_confirm_aux(sc: int, lc: int, flags: Seq<bool>, sreq: int, lreq: int)
    requires
        1 <= sc < sreq,
        flags.len() >= sreq - sc,
        forall|i: int| 0 <= i < flags.len() ==> flags[i],
    ensures
        vad_run(VadState::MaybeSpeech, sc, lc, flags, sreq, lreq).0 == VadState::Speech,
    decreases flags.len(),
{
    let next = vad_step(VadState::MaybeSpeech, sc, lc, true, sreq, lreq);
    if sc + 1 >= sreq {
        lemma_speech_stays_on_speech(sc + 1, lc, flags.skip(1), sreq, lreq);
    } else {
        lemma_speech_confirm_aux(sc + 1, lc, flags.skip(1), sreq, lreq);
    }
}

/// After `speech_frames_required` consecutive speech-classified frames
/// starting from `Silence`, the machine is in `Speech`. This needs at least
/// two required frames: the first speech frame only moves the machine to
/// `MaybeSpeech`, where the confirmation count begins.
pub proof fn lemma_speech_confirmation(sc: int, lc: int, flags: Seq<bool>, sreq: int, lreq: int)
    requires
        sreq >= 2,
        flags.len() == sreq,
        forall|i: int| 0 <= i < flags.len() ==> flags[i],
    ensures
        vad_run(VadState::Silence, sc, lc, flags, sreq, lreq).0 == VadState::Speech,
{
    lemma_speech_confirm_aux(1, 0, flags.skip(1), sreq, lreq);
}

/// From `MaybeSilence` with `lc` confirmations, `lreq - lc` further silence
/// decisions reach `Silence`.
proof fn lemma_silence_release_aux(sc: int, lc: int, flags: Seq<bool>, sreq: int, lreq: int)
    requires
        1 <= lc < lreq,
        flags.len() >= lreq - lc,
        forall|i: int| 0 <= i < flags.len() ==> !flags[i],
    ensures
        vad_run(VadState::MaybeSilence, sc, lc, flags, sreq, lreq).0 == VadState::Silence,
    decreases flags.len(),
{
    if lc + 1 >= lreq {
        lemma_silence_stays_on_silence(sc, lc + 1, flags.skip(1), sreq, lreq);
    } else {
        lemma_silence_release_aux(sc, lc + 1, flags.skip(1), sreq, lreq);
    }
}

/// After `silence_frames_required` consecutive silence-classified frames
/// starting from `Speech`, the machine is in `Silence`. This needs at least
/// two required frames: the first silence frame only moves the machine to
/// `MaybeSilence`, where the confirmation count begins.
pub proof fn lemma_silence_release(sc: int, lc: int, flags: Seq<bool>, sreq: int, lreq: int)
    requires
        lreq >= 2,
        flags.len() == lreq,
        forall|i: int| 0 <= i < flags.len() ==> !flags[i],
    ensures
        vad_run(VadState::Speech, sc, lc, flags, sreq, lreq).0 == VadState::Silence,
{
    lemma_silence_release_aux(0, 1, flags.skip(1), sreq, lreq);
}

} // verus!
