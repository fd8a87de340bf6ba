//! Audio preprocessing for the transcription path.
//!
//! Brings captured audio into the canonical transcription format: 16 kHz,
//! mono, full-scale samples in `[-1, 1]`. A sample on this path is a
//! fixed-point integer: the full-scale value `1.0` is [`SAMPLE_UNIT`], so
//! every stage (stereo downmix, peak normalization, PCM width conversion)
//! is exact integer arithmetic with truncating division, matching a
//! float pipeline to within one unit of the fixed-point grid.
//!
//! Sample-rate conversion is the one stage that does not live here: a
//! windowed-sinc resampler is irreducibly floating-point work, which this
//! crate does not hold. `process` runs the full pipeline for input already
//! at the canonical rate; for other rates the caller runs `stereo_to_mono`,
//! its resampler, and `normalize` in that order, which is the same
//! pipeline with the conversion stage spliced in.

use vstd::arithmetic::div_mod::*;
use vstd::arithmetic::mul::*;
use vstd::prelude::*;

verus! {

/// Target sample rate of the transcription engine, in Hz.
pub const WHISPER_SAMPLE_RATE: u32 = 16000;

/// Fixed-point unit of the transcription path: `1_000_000` stands for the
/// full-scale value `1.0`.
pub const SAMPLE_UNIT: i32 = 1000000;

/// Audio sample on the transcription path (fixed point, [`SAMPLE_UNIT`]
/// per unit of full scale).
pub type AudioSample = i32;

/// Errors of the preprocessing pipeline.
#[derive(Debug)]
pub enum PreprocessorError {
    /// The sample rate was zero.
    InvalidSampleRate(u32),
    /// The channel count was not one or two.
    InvalidChannelCount(u16),
    /// Sample-rate conversion could not be carried out.
    ResamplingError(String),
    /// The input held no samples.
    EmptyBuffer,
    /// A sample-format conversion failed.
    FormatConversionError(String),
}

/// Description of a PCM stream: rate, channel count and sample width.
#[derive(Debug, Clone, Copy, PartialEq, Eq, Structural)]
pub struct AudioFormat {
    pub sample_rate: u32,
    pub channels: u16,
    pub bits_per_sample: u16,
}

impl AudioFormat {
    /// The ranges that `validate` accepts: a positive rate, one or two
    /// channels.
    pub open spec fn valid(&self) -> bool {
        self.sample_rate >= 1 && 1 <= self.channels <= 2
    }

    /// Create a new audio format.
    pub fn new(sample_rate: u32, channels: u16, bits_per_sample: u16) -> (r: AudioFormat)
        ensures
            r == (AudioFormat { sample_rate, channels, bits_per_sample }),
    {
        AudioFormat { sample_rate, channels, bits_per_sample }
    }

    /// The canonical transcription format: 16 kHz, mono, 32-bit samples.
    pub fn whisper_format() -> (r: AudioFormat)
        ensures
            r == (AudioFormat { sample_rate: 16000u32, channels: 1u16, bits_per_sample: 32u16 }),
    {
        AudioFormat { sample_rate: WHISPER_SAMPLE_RATE, channels: 1, bits_per_sample: 32 }
    }

    /// Check the format: rejects a zero sample rate and a channel count
    /// other than one or two, in that order.
    pub fn validate(&self) -> (r: Result<(), PreprocessorError>)
        ensures
            r is Ok <==> self.valid(),
            self.sample_rate == 0 ==> (r matches Err(PreprocessorError::InvalidSampleRate(h)) && h
                == self.sample_rate),
            self.sample_rate != 0 && !(1 <= self.channels <= 2) ==> (r matches Err(
                PreprocessorError::InvalidChannelCount(c),
            ) && c == self.channels),
    {
        if self.sample_rate == 0 {
            return Err(PreprocessorError::InvalidSampleRate(self.sample_rate));
        }
        if self.channels == 0 || self.channels > 2 {
            return Err(PreprocessorError::InvalidChannelCount(self.channels));
        }
        Ok(())
    }
}

/// The absolute value.
pub open spec fn abs_val(v: int) -> int {
    if v >= 0 {
        v
    } else {
        -v
    }
}

/// The largest sample magnitude of a block, zero when the block is empty.
pub open spec fn peak_spec(s: Seq<i32>) -> int
    decreases s.len(),
{
    if s.len() == 0 {
        0
    } else {
        let rest = peak_spec(s.drop_last());
        let a = abs_val(s.last() as int);
        if a > rest {
            a
        } else {
            rest
        }
    }
}

/// The average of one stereo pair, with truncating (toward-zero) division.
pub open spec fn avg_pair(a: int, b: int) -> int {
    let s = a + b;
    if s >= 0 {
        s / 2
    } else {
        -((-s) / 2)
    }
}

/// Stereo interleaved samples folded to mono by averaging each pair. An odd
/// trailing sample is dropped.
pub open spec fn stereo_to_mono_spec(s: Seq<i32>) -> Seq<i32> {
    Seq::new(s.len() / 2, |i: int| avg_pair(s[2 * i] as int, s[2 * i + 1] as int) as i32)
}

/// One sample scaled by `950_000 / peak`, with truncating division: the
/// peak itself maps to exactly `0.95` of full scale.
pub open spec fn scaled_sample(v: int, peak: int) -> int {
    if v >= 0 {
        v * 950000 / peak
    } else {
        -((-v) * 950000 / peak)
    }
}

/// Peak normalization: blocks whose peak stays within full scale (silence
/// included) pass unchanged; a block that clips is scaled so that its peak
/// becomes `0.95` of full scale, leaving headroom.
pub open spec fn normalize_spec(s: Seq<i32>) -> Seq<i32> {
    let p = peak_spec(s);
    if p <= SAMPLE_UNIT {
        s
    } else {
        Seq::new(s.len(), |i: int| scaled_sample(s[i] as int, p) as i32)
    }
}

/// The whole verified pipeline for canonical-rate input: downmix if the
/// format is stereo, then normalize.
pub open spec fn process_spec(s: Seq<i32>, channels: u16) -> Seq<i32> {
    let mono = if channels == 2 {
        stereo_to_mono_spec(s)
    } else {
        s
    };
    normalize_spec(mono)
}

/// A 16-bit PCM value mapped to fixed point: `x * SAMPLE_UNIT / 32767`,
/// truncating toward zero, so `i16::MAX` maps to exactly `1.0`.
pub open spec fn sample_from_pcm(x: int) -> int {
    if x >= 0 {
        x * 1000000 / 32767
    } else {
        -((-x) * 1000000 / 32767)
    }
}

/// A value clamped to full scale `[-1.0, 1.0]`.
pub open spec fn clamp_unit(v: int) -> int {
    if v > 1000000 {
        1000000
    } else if v < -1000000 {
        -1000000
    } else {
        v
    }
}

/// A fixed-point sample mapped back to 16-bit PCM: clamp to full scale,
/// then `c * 32767 / SAMPLE_UNIT` truncating toward zero. The negative
/// extreme becomes `-32767`, not `i16::MIN`.
pub open spec fn pcm_from_sample(v: int) -> int {
    let c = clamp_unit(v);
    if c >= 0 {
        c * 32767 / 1000000
    } else {
        -((-c) * 32767 / 1000000)
    }
}

/// Audio preprocessor: validates the input format once and carries the
/// canonical output format.
pub struct AudioPreprocessor {
    input_format: AudioFormat,
    output_format: AudioFormat,
}

impl AudioPreprocessor {
    /// The input format was validated and the output format is canonical.
    pub closed spec fn wf(&self) -> bool {
        &&& self.input_format.valid()
        &&& self.output_format == (AudioFormat {
            sample_rate: 16000u32,
            channels: 1u16,
            bits_per_sample: 32u16,
        })
    }

    /// The format this preprocessor accepts.
    pub closed spec fn spec_input_format(&self) -> AudioFormat {
        self.input_format
    }

    /// Create a preprocessor for one input format. Fails exactly when the
    /// format does not validate, with the same error.
    pub fn new(input_format: AudioFormat) -> (r: Result<AudioPreprocessor, PreprocessorError>)
        ensures
            r is Ok <==> input_format.valid(),
            r matches Ok(p) ==> p.wf() && p.spec_input_format() == input_format,
            input_format.sample_rate == 0 ==> (r matches Err(
                PreprocessorError::InvalidSampleRate(h),
            ) && h == input_format.sample_rate),
            input_format.sample_rate != 0 && !(1 <= input_format.channels <= 2) ==> (r matches Err(
                PreprocessorError::InvalidChannelCount(c),
            ) && c == input_format.channels),
    {
        match input_format.validate() {
            Ok(_) => Ok(
                AudioPreprocessor { input_format, output_format: AudioFormat::whisper_format() },
            ),
            Err(e) => Err(e),
        }
    }

    /// The format this preprocessor accepts.
    pub fn input_format(&self) -> (r: AudioFormat)
        ensures
            r == self.spec_input_format(),
    {
        self.input_format
    }

    /// The canonical output format.
    pub fn output_format(&self) -> (r: AudioFormat)
        requires
            self.wf(),
        ensures
            r == (AudioFormat { sample_rate: 16000u32, channels: 1u16, bits_per_sample: 32u16 }),
    {
        self.output_format
    }

    /// Whether this preprocessor's input needs sample-rate conversion
    /// before `normalize`.
    pub fn needs_resampling(&self) -> (r: bool)
        ensures
            r == (self.spec_input_format().sample_rate != 16000),
    {
        self.input_format.sample_rate != WHISPER_SAMPLE_RATE
    }

    /// Run the pipeline on one block of samples: empty input is rejected;
    /// stereo input is downmixed; the result is peak-normalized. Input at a
    /// non-canonical rate is rejected with `ResamplingError`, since the
    /// rate-conversion stage runs outside this crate; the caller then
    /// composes `stereo_to_mono`, its resampler and `normalize` itself.
    pub fn process(&self, samples: &[i32]) -> (r: Result<Vec<i32>, PreprocessorError>)
        requires
            self.wf(),
        ensures
            samples@.len() == 0 ==> (r matches Err(PreprocessorError::EmptyBuffer)),
            samples@.len() > 0 && self.spec_input_format().sample_rate != 16000 ==> (r matches Err(
                PreprocessorError::ResamplingError(_),
            )),
            samples@.len() > 0 && self.spec_input_format().sample_rate == 16000 ==> (r matches Ok(v)
                && v@ == process_spec(samples@, self.spec_input_format().channels)),
    {
        if samples.len() == 0 {
            return Err(PreprocessorError::EmptyBuffer);
        }
        let mono: Vec<i32> = if self.input_format.channels == 2 {
            self.stereo_to_mono(samples)
        } else {
            copy_samples(samples)
        };
        if self.input_format.sample_rate != WHISPER_SAMPLE_RATE {
            return Err(
                PreprocessorError::ResamplingError(
                    "sample-rate conversion runs outside the verified pipeline".to_owned(),
                ),
            );
        }
        Ok(self.normalize(mono.as_slice()))
    }

    /// Fold interleaved stereo to mono by averaging each pair of samples.
    /// An odd trailing sample is dropped.
    pub fn stereo_to_mono(&self, stereo: &[i32]) -> (r: Vec<i32>)
        ensures
            r@ == stereo_to_mono_spec(stereo@),
    {
        let n = stereo.len();
        let half = n / 2;
        let mut r: Vec<i32> = Vec::new();
        let mut i: usize = 0;
        while i < half
            invariant
                i <= half,
                half == stereo@.len() / 2,
                n == stereo@.len(),
                r@.len() == i,
                forall|j: int|
                    0 <= j < i ==> r@[j] == avg_pair(
                        stereo@[2 * j] as int,
                        stereo@[2 * j + 1] as int,
                    ) as i32,
            decreases half - i,
        {
            proof {
                lemma_fundamental_div_mod(n as int, 2);
            }
            let a = stereo[2 * i];
            let b = stereo[2 * i + 1];
            r.push(average_of(a, b));
            i = i + 1;
        }
        assert(r@ =~= stereo_to_mono_spec(stereo@));
        r
    }

    /// Normalize a block so that nothing clips: silent or in-range audio
    /// passes unchanged, and a block whose peak exceeds full scale is
    /// scaled down to a peak of `0.95`.
    pub fn normalize(&self, samples: &[i32]) -> (r: Vec<i32>)
        ensures
            r@ == normalize_spec(samples@),
            peak_spec(samples@) > SAMPLE_UNIT ==> peak_spec(r@) <= 950000,
    {
        let peak = peak_of(samples);
        if peak <= SAMPLE_UNIT as u64 {
            let r = copy_samples(samples);
            return r;
        }
        let n = samples.len();
        let mut r: Vec<i32> = Vec::new();
        let mut i: usize = 0;
        while i < n
            invariant
                i <= n,
                n == samples@.len(),
                peak == peak_spec(samples@),
                peak > 1000000,
                r@.len() == i,
                forall|j: int|
                    0 <= j < i ==> r@[j] == scaled_sample(samples@[j] as int, peak as int) as i32
                        && -950000 <= r@[j] <= 950000,
            decreases n - i,
        {
            let v = samples[i];
            proof {
                lemma_peak_ge_abs(samples@, i as int);
            }
            let scaled = scale_by_peak(v, peak);
            r.push(scaled);
            i = i + 1;
        }
        assert(r@ =~= normalize_spec(samples@));
        proof {
            lemma_peak_bounded(r@, 950000);
        }
        r
    }

    /// Convert 16-bit PCM samples to fixed point: `i16::MAX` maps to
    /// full-scale `1.0`.
    pub fn pcm_to_samples(pcm: &[i16]) -> (r: Vec<i32>)
        ensures
            r@.len() == pcm@.len(),
            forall|i: int| 0 <= i < pcm@.len() ==> r@[i] == sample_from_pcm(pcm@[i] as int) as i32,
    {
        let n = pcm.len();
        let mut r: Vec<i32> = Vec::new();
        let mut i: usize = 0;
        while i < n
            invariant
                i <= n,
                n == pcm@.len(),
                r@.len() == i,
                forall|j: int| 0 <= j < i ==> r@[j] == sample_from_pcm(pcm@[j] as int) as i32,
            decreases n - i,
        {
            r.push(sample_of_pcm(pcm[i]));
            i = i + 1;
        }
        r
    }

    /// Convert fixed-point samples back to 16-bit PCM, clamping to full
    /// scale first; the negative extreme becomes `-32767`.
    pub fn samples_to_pcm(samples: &[i32]) -> (r: Vec<i16>)
        ensures
            r@.len() == samples@.len(),
            forall|i: int|
                0 <= i < samples@.len() ==> r@[i] == pcm_from_sample(samples@[i] as int) as i16,
    {
        let n = samples.len();
        let mut r: Vec<i16> = Vec::new();
        let mut i: usize = 0;
        while i < n
            invariant
                i <= n,
                n == samples@.len(),
                r@.len() == i,
                forall|j: int| 0 <= j < i ==> r@[j] == pcm_from_sample(samples@[j] as int) as i16,
            decreases n - i,
        {
            r.push(pcm_of_sample(samples[i]));
            i = i + 1;
        }
        r
    }

    /// The expected output length of the rate-conversion stage:
    /// `input_length * 16000 / input_rate`, truncated, saturated at the
    /// machine word.
    pub fn calculate_output_length(&self, input_length: usize) -> (r: usize)
        requires
            self.wf(),
        ensures
            r as int == vstd::math::min(
                (input_length as int) * 16000 / (self.spec_input_format().sample_rate as int),
                usize::MAX as int,
            ),
    {
        let rate = self.input_format.sample_rate;
        let prod: u128 = (input_length as u128) * 16000u128;
        let q: u128 = prod / (rate as u128);
        if q > usize::MAX as u128 {
            usize::MAX
        } else {
            q as usize
        }
    }
}

/// Copy a sample slice into an owned vector.
fn copy_samples(samples: &[i32]) -> (r: Vec<i32>)
    ensures
        r@ == samples@,
{
    let n = samples.len();
    let mut r: Vec<i32> = Vec::new();
    let mut i: usize = 0;
    while i < n
        invariant
            i <= n,
            n == samples@.len(),
            r@ =~= samples@.take(i as int),
        decreases n - i,
    {
        r.push(samples[i]);
        assert(r@ =~= samples@.take(i + 1));
        i = i + 1;
    }
    assert(samples@.take(n as int) =~= samples@);
    r
}

/// The truncating average of one stereo pair.
fn average_of(a: i32, b: i32) -> (r: i32)
    ensures
        r == avg_pair(a as int, b as int) as i32,
        r == avg_pair(a as int, b as int),
{
    let s: i64 = (a as i64) + (b as i64);
    if s >= 0 {
        let h: u64 = (s as u64) / 2;
        proof {
            lemma_div_is_ordered(s as int, 4294967294int, 2);
            assert(4294967294int / 2 == 2147483647int);
        }
        h as i32
    } else {
        let m: u64 = (-s) as u64;
        let h: u64 = m / 2;
        proof {
            lemma_div_is_ordered(m as int, 4294967296int, 2);
            assert(4294967296int / 2 == 2147483648int);
            lemma_div_pos_is_pos(m as int, 2);
        }
        (-(h as i64)) as i32
    }
}

/// The peak magnitude of a block.
fn peak_of(samples: &[i32]) -> (r: u64)
    ensures
        r == peak_spec(samples@),
{
    let n = samples.len();
    let mut peak: u64 = 0;
    let mut i: usize = 0;
    assert(samples@.take(0) =~= Seq::<i32>::empty());
    while i < n
        invariant
            i <= n,
            n == samples@.len(),
            peak == peak_spec(samples@.take(i as int)),
        decreases n - i,
    {
        let v = samples[i];
        let m: u64 = if v >= 0 {
            v as u64
        } else {
            (-(v as i64)) as u64
        };
        proof {
            assert(samples@.take(i + 1).drop_last() =~= samples@.take(i as int));
        }
        if m > peak {
            peak = m;
        }
        i = i + 1;
    }
    assert(samples@.take(n as int) =~= samples@);
    peak
}

/// One sample scaled by `950_000 / peak` in magnitude.
fn scale_by_peak(v: i32, peak: u64) -> (r: i32)
    requires
        peak > 1000000,
        abs_val(v as int) <= peak,
    ensures
        r == scaled_sample(v as int, peak as int) as i32,
        -950000 <= r <= 950000,
{
    let m: u64 = if v >= 0 {
        v as u64
    } else {
        (-(v as i64)) as u64
    };
    proof {
        assert((m as int) * 950000int <= u64::MAX as int) by (nonlinear_arith)
            requires
                0 <= m as int <= 0x8000_0000int,
        ;
        lemma_mul_inequality(m as int, peak as int, 950000int);
        lemma_div_is_ordered((m as int) * 950000int, (peak as int) * 950000int, peak as int);
        lemma_mul_is_commutative(peak as int, 950000int);
        lemma_div_by_multiple(950000int, peak as int);
        lemma_div_pos_is_pos((m as int) * 950000int, peak as int);
        lemma_mul_nonnegative(m as int, 950000int);
    }
    let scaled: u64 = m * 950000 / peak;
    if v >= 0 {
        scaled as i32
    } else {
        -(scaled as i32)
    }
}

/// One PCM value mapped to fixed point.
fn sample_of_pcm(x: i16) -> (r: i32)
    ensures
        r == sample_from_pcm(x as int) as i32,
        r == sample_from_pcm(x as int),
{
    if x >= 0 {
        let m: u64 = (x as u64) * 1000000 / 32767;
        proof {
            lemma_div_is_ordered((x as int) * 1000000int, 32767000000int, 32767int);
        }
        m as i32
    } else {
        let mag: u64 = (-(x as i64)) as u64;
        let m: u64 = mag * 1000000 / 32767;
        proof {
            lemma_div_is_ordered((mag as int) * 1000000int, 32768000000int, 32767int);
        }
        -(m as i32)
    }
}

/// One fixed-point sample mapped back to PCM.
fn pcm_of_sample(v: i32) -> (r: i16)
    ensures
        r == pcm_from_sample(v as int) as i16,
        r == pcm_from_sample(v as int),
{
    let c: i32 = if v > SAMPLE_UNIT {
        SAMPLE_UNIT
    } else if v < -SAMPLE_UNIT {
        -SAMPLE_UNIT
    } else {
        v
    };
    if c >= 0 {
        let m: u64 = (c as u64) * 32767 / 1000000;
        proof {
            lemma_div_is_ordered((c as int) * 32767int, 32767000000int, 1000000int);
        }
        m as i16
    } else {
        let mag: u64 = (-(c as i64)) as u64;
        let m: u64 = mag * 32767 / 1000000;
        proof {
            lemma_div_is_ordered((mag as int) * 32767int, 32767000000int, 1000000int);
        }
        -(m as i16)
    }
}

/// Every element's magnitude is bounded by the peak.
proof fn lemma_peak_ge_abs(s: Seq<i32>, i: int)
    requires
        0 <= i < s.len(),
    ensures
        abs_val(s[i] as int) <= peak_spec(s),
        peak_spec(s) >= 0,
    decreases s.len(),
{
    if i == s.len() - 1 {
        lemma_peak_nonneg(s.drop_last());
    } else {
        lemma_peak_ge_abs(s.drop_last(), i);
    }
}

/// The peak is never negative.
proof fn lemma_peak_nonneg(s: Seq<i32>)
    ensures
        peak_spec(s) >= 0,
    decreases s.len(),
{
    if s.len() > 0 {
        lemma_peak_nonneg(s.drop_last());
    }
}

/// A block whose every element is within `bound` has its peak within
/// `bound`.
proof fn lemma_peak_bounded(s: Seq<i32>, bound: int)
    requires
        bound >= 0,
        forall|i: int| 0 <= i < s.len() ==> -bound <= #[trigger] s[i] <= bound,
    ensures
        peak_spec(s) <= bound,
    decreases s.len(),
{
    if s.len() > 0 {
        lemma_peak_bounded(s.drop_last(), bound);
    }
}

/// One scaled sample stays within `0.95` of full scale when its magnitude
/// is bounded by the peak it is scaled against.
proof fn lemma_scaled_sample_bound(v: int, peak: int)
    requires
        peak >= 1,
        abs_val(v) <= peak,
    ensures
        -950000 <= scaled_sample(v, peak) <= 950000,
{
    let m = abs_val(v);
    lemma_mul_nonnegative(m, 950000);
    lemma_div_pos_is_pos(m * 950000, peak);
    lemma_mul_inequality(m, peak, 950000);
    lemma_div_is_ordered(m * 950000, peak * 950000, peak);
    assert(peak * 950000 == 950000 * peak) by {
        lemma_mul_is_commutative(peak, 950000);
    }
    assert((950000 * peak) / peak == 950000) by {
        lemma_div_by_multiple(950000, peak);
    }
}

/// Peak normalization leaves headroom: on a block whose peak exceeds full
/// scale, the normalized block's peak is at most `0.95` of full scale.
/// (A block already within full scale passes unchanged, so its peak may
/// lie anywhere up to `1.0`; this is the clipping case.)
pub proof fn lemma_normalize_peak_bound(s: Seq<i32>)
    requires
        peak_spec(s) > SAMPLE_UNIT,
    ensures
        peak_spec(normalize_spec(s)) <= 950000,
{
    let p = peak_spec(s);
    let r = normalize_spec(s);
    assert forall|i: int| 0 <= i < r.len() implies -950000 <= #[trigger] r[i] <= 950000 by {
        lemma_peak_ge_abs(s, i);
        lemma_scaled_sample_bound(s[i] as int, p);
    }
    lemma_peak_bounded(r, 950000);
}

/// Round trip of one in-range PCM magnitude: mapping `m` to fixed point
/// and back lands on `m` or `m - 1`.
proof fn lemma_round_trip_nonneg(m: int)
    requires
        0 <= m <= 32767,
    ensures
        m - 1 <= pcm_from_sample(sample_from_pcm(m)) <= m,
{
    let q = m * 1000000 / 32767;
    lemma_mul_nonnegative(m, 1000000);
    lemma_div_pos_is_pos(m * 1000000, 32767);
    lemma_mul_inequality(m, 32767, 1000000);
    lemma_div_is_ordered(m * 1000000, 32767000000int, 32767);
    assert(32767000000int / 32767 == 1000000) by {
        lemma_div_by_multiple(1000000int, 32767int);
        assert(1000000int * 32767 == 32767000000int);
    }
    assert(0 <= q <= 1000000);
    assert(sample_from_pcm(m) == q);
    assert(clamp_unit(q) == q);
    let y = q * 32767 / 1000000;
    assert(pcm_from_sample(q) == y);
    lemma_fundamental_div_mod(m * 1000000, 32767);
    lemma_mod_division_less_than_divisor(m * 1000000, 32767);
    let r1 = (m * 1000000) % 32767;
    assert(q * 32767 == m * 1000000 - r1) by {
        lemma_mul_is_commutative(32767int, q);
    }
    if r1 == 0 {
        assert(m * 1000000 == 1000000 * m) by {
            lemma_mul_is_commutative(m, 1000000int);
        }
        assert((m * 1000000) / 1000000 == m) by {
            lemma_div_by_multiple(m, 1000000int);
        }
        assert(y == m);
    } else {
        assert(1000000 * (m - 1) == 1000000 * m - 1000000) by {
            lemma_mul_is_distributive_sub(1000000int, m, 1);
        }
        assert(m * 1000000 == 1000000 * m) by {
            lemma_mul_is_commutative(m, 1000000int);
        }
        assert(q * 32767 == 1000000 * (m - 1) + (1000000 - r1));
        lemma_div_multiples_vanish_fancy(m - 1, 1000000 - r1, 1000000int);
        assert(y == m - 1);
    }
}

/// Mapping back to PCM is an odd function of the fixed-point value.
proof fn lemma_pcm_from_sample_neg(v: int)
    requires
        v >= 0,
    ensures
        pcm_from_sample(-v) == -pcm_from_sample(v),
{
    lemma_div_pos_is_pos(clamp_unit(v) * 32767, 1000000);
    lemma_mul_nonnegative(clamp_unit(v), 32767);
}

/// Round trip of the width conversions: for every 16-bit PCM value, going
/// to fixed point and back lands within one least-significant bit of where
/// it started.
pub proof fn lemma_pcm_round_trip(x: i16)
    ensures
        abs_val(pcm_from_sample(sample_from_pcm(x as int)) - x) <= 1,
{
    if x >= 0 {
        lemma_round_trip_nonneg(x as int);
    } else if x >= -32767 {
        let m = -(x as int);
        lemma_round_trip_nonneg(m);
        lemma_mul_nonnegative(m, 1000000);
        lemma_div_pos_is_pos(m * 1000000, 32767);
        assert(sample_from_pcm(x as int) == -sample_from_pcm(m));
        lemma_pcm_from_sample_neg(sample_from_pcm(m));
    } else {
        let m = 32768int;
        let qm = m * 1000000 / 32767;
        assert(m * 1000000 == 32768000000int);
        assert(32768000000int == 32767 * 1000030 + 16990);
        assert(qm == 1000030) by {
            lemma_fundamental_div_mod_converse_div(32768000000int, 32767, 1000030, 16990);
        }
        assert(sample_from_pcm(x as int) == -1000030);
        assert(clamp_unit(-1000030) == -1000000);
        assert(pcm_from_sample(-1000030) == -(1000000int * 32767 / 1000000));
        assert((1000000int * 32767) / 32767 == 1000000) by {
            lemma_div_by_multiple(1000000int, 32767int);
        }
        assert(1000000int * 32767 == 32767 * 1000000) by {
            lemma_mul_is_commutative(1000000int, 32767int);
        }
        assert((32767int * 1000000) / 1000000 == 32767) by {
            lemma_div_by_multiple(32767int, 1000000int);
        }
        assert(pcm_from_sample(sample_from_pcm(x as int)) == -32767);
    }
}

} // verus!
