//! Rolling audio store for real-time capture.
//!
//! A fixed-capacity single-producer/single-consumer ring of PCM samples with
//! drop-oldest-on-overflow semantics: a write never blocks and never fails;
//! when the buffer is full the oldest samples make room for the new ones.
//! Sized by default to hold three seconds of 16 kHz audio.

use vstd::prelude::*;

verus! {

/// Audio sample format on the capture path (16-bit PCM).
pub type AudioSample = i16;

/// Default buffer length in seconds.
pub const BUFFER_DURATION_SECS: usize = 3;

/// Capture sample rate in Hz.
pub const SAMPLE_RATE: usize = 16000;

/// Default ring capacity in samples (three seconds at 16 kHz).
pub const BUFFER_SIZE: usize = 48000;

/// Errors of the buffer API. Overflow is not produced by `write` (the policy
/// is drop-oldest), but the variant is part of the public error surface.
#[derive(Debug)]
pub enum AudioBufferError {
    /// A write was asked to place more samples than the free space held.
    Overflow(usize, usize),
    /// A read asked for more samples than were available.
    Underflow(usize, usize),
    /// A size that the buffer cannot be built with.
    InvalidSize(usize),
}

/// Wraps an index `j` in `[0, 2*cap)` into `[0, cap)`.
pub open spec fn wrap_idx(j: int, cap: int) -> int {
    if j < cap {
        j
    } else {
        j - cap
    }
}

/// What the buffer holds after `write(samples)` on a buffer that held
/// `contents` and has capacity `cap`: the last `cap` samples of the
/// concatenation, oldest first.
pub open spec fn write_model(contents: Seq<i16>, cap: nat, samples: Seq<i16>) -> Seq<i16> {
    let total = contents + samples;
    if total.len() <= cap {
        total
    } else {
        total.skip(total.len() - cap)
    }
}

/// Ring buffer for audio samples. One producer writes, one consumer reads;
/// the store itself is a fixed block of `capacity()` samples and the two
/// cursors never allocate after construction.
pub struct AudioBuffer {
    data: Vec<i16>,
    head: usize,
    size: usize,
    sample_rate: usize,
    channels: usize,
}

impl AudioBuffer {
    /// Structural well-formedness: the cursor and the fill level stay within
    /// the fixed store. Constructors establish it and every method keeps it.
    pub closed spec fn wf(&self) -> bool {
        &&& self.size <= self.data@.len()
        &&& if self.data@.len() == 0 {
            self.head == 0
        } else {
            self.head < self.data@.len()
        }
        &&& self.sample_rate == SAMPLE_RATE
        &&& self.channels == 1
    }

    /// The fixed capacity of the ring.
    pub closed spec fn spec_capacity(&self) -> nat {
        self.data@.len()
    }

    /// The samples currently held, oldest first.
    pub closed spec fn contents(&self) -> Seq<i16> {
        Seq::new(
            self.size as nat,
            |i: int| self.data@[wrap_idx(self.head + i, self.data@.len() as int)],
        )
    }

    /// Create a new buffer with the default three-second capacity.
    pub fn new() -> (r: AudioBuffer)
        ensures
            r.wf(),
            r.spec_capacity() == BUFFER_SIZE,
            r.contents() == Seq::<i16>::empty(),
    {
        Self::with_capacity(BUFFER_SIZE)
    }

    /// Create a buffer with a custom capacity.
    pub fn with_capacity(capacity: usize) -> (r: AudioBuffer)
        ensures
            r.wf(),
            r.spec_capacity() == capacity,
            r.contents() == Seq::<i16>::empty(),
    {
        let mut data: Vec<i16> = Vec::new();
        let mut i: usize = 0;
        while i < capacity
            invariant
                i <= capacity,
                data@.len() == i,
            decreases capacity - i,
        {
            data.push(0i16);
            i = i + 1;
        }
        let r = AudioBuffer { data, head: 0, size: 0, sample_rate: SAMPLE_RATE, channels: 1 };
        assert(r.contents() =~= Seq::<i16>::empty());
        r
    }

    /// Place one sample at the logical end of the ring; when the ring is
    /// full, the oldest sample leaves to make room.
    fn push_sample(&mut self, s: i16)
        requires
            old(self).wf(),
        ensures
            final(self).wf(),
            final(self).spec_capacity() == old(self).spec_capacity(),
            final(self).contents() == write_model(
                old(self).contents(),
                old(self).spec_capacity(),
                seq![s],
            ),
    {
        let cap = self.data.len();
        if cap == 0 {
            assert(self.contents() =~= write_model(self.contents(), 0, seq![s]));
            return ;
        }
        if self.size < cap {
            let idx = if self.head >= cap - self.size {
                self.head - (cap - self.size)
            } else {
                self.head + self.size
            };
            self.data.set(idx, s);
            self.size = self.size + 1;
            assert(self.contents() =~= old(self).contents().push(s));
            assert(write_model(old(self).contents(), cap as nat, seq![s]) =~= old(
                self,
            ).contents().push(s));
        } else {
            self.data.set(self.head, s);
            self.head = if self.head + 1 == cap {
                0
            } else {
                self.head + 1
            };
            assert(self.contents() =~= old(self).contents().skip(1).push(s));
            assert(write_model(old(self).contents(), cap as nat, seq![s]) =~= old(
                self,
            ).contents().skip(1).push(s));
        }
    }

    /// Append one sample to the write model: folding samples one at a time
    /// agrees with folding them all at once.
    proof fn lemma_write_model_step(contents: Seq<i16>, cap: nat, samples: Seq<i16>, i: int)
        requires
            0 <= i < samples.len(),
        ensures
            write_model(contents, cap, samples.take(i + 1)) == write_model(
                write_model(contents, cap, samples.take(i)),
                cap,
                seq![samples[i]],
            ),
    {
        assert(samples.take(i + 1) =~= samples.take(i).push(samples[i]));
        assert((contents + samples.take(i + 1)) =~= (contents + samples.take(i)).push(samples[i]));
        let pre = contents + samples.take(i);
        let post = contents + samples.take(i + 1);
        if pre.len() <= cap {
            assert(write_model(contents, cap, samples.take(i + 1)) =~= write_model(
                write_model(contents, cap, samples.take(i)),
                cap,
                seq![samples[i]],
            ));
        } else {
            assert((pre.skip(pre.len() - cap) + seq![samples[i]]).skip(1) =~= post.skip(
                post.len() - cap,
            ));
            assert(write_model(contents, cap, samples.take(i + 1)) =~= write_model(
                write_model(contents, cap, samples.take(i)),
                cap,
                seq![samples[i]],
            ));
        }
    }

    /// Write audio samples to the buffer (non-blocking).
    ///
    /// Every sample of the input is accepted; when the input outgrows the
    /// free space, exactly as many oldest samples are dropped as the
    /// overflow amount. When the input alone outgrows the capacity only its
    /// last `capacity()` samples remain. Returns the number of samples
    /// accepted, which is always the input length.
    pub fn write(&mut self, samples: &[i16]) -> (written: usize)
        requires
            old(self).wf(),
        ensures
            final(self).wf(),
            final(self).spec_capacity() == old(self).spec_capacity(),
            written == samples@.len(),
            final(self).contents() == write_model(
                old(self).contents(),
                old(self).spec_capacity(),
                samples@,
            ),
    {
        let ghost cap = self.spec_capacity();
        let ghost orig = self.contents();
        let n = samples.len();
        let mut i: usize = 0;
        assert(self.contents() =~= write_model(orig, cap, samples@.take(0)));
        while i < n
            invariant
                i <= n,
                n == samples@.len(),
                self.wf(),
                self.spec_capacity() == cap,
                self.contents() == write_model(orig, cap, samples@.take(i as int)),
            decreases n - i,
        {
            self.push_sample(samples[i]);
            proof {
                Self::lemma_write_model_step(orig, cap, samples@, i as int);
            }
            i = i + 1;
        }
        assert(samples@.take(n as int) =~= samples@);
        n
    }

    /// Read samples from the buffer without removing them.
    ///
    /// Returns the oldest `min(count, len())` samples in FIFO order.
    pub fn peek(&self, count: usize) -> (r: Vec<i16>)
        requires
            self.wf(),
        ensures
            r@ == self.contents().take(vstd::math::min(count as int, self.contents().len() as int)),
    {
        let to_read = if count < self.size {
            count
        } else {
            self.size
        };
        let cap = self.data.len();
        let mut r: Vec<i16> = Vec::new();
        let mut i: usize = 0;
        while i < to_read
            invariant
                i <= to_read,
                to_read <= self.size,
                self.wf(),
                cap == self.data@.len(),
                r@ =~= self.contents().take(i as int),
            decreases to_read - i,
        {
            let idx = if self.head >= cap - i {
                self.head - (cap - i)
            } else {
                self.head + i
            };
            r.push(self.data[idx]);
            assert(r@ =~= self.contents().take(i + 1));
            i = i + 1;
        }
        r
    }

    /// Read and remove samples from the buffer.
    ///
    /// Fails with `Underflow` exactly when more samples are asked for than
    /// the buffer holds; the buffer is then left unchanged. On success the
    /// oldest `count` samples are returned in FIFO order and leave the
    /// buffer.
    pub fn read(&mut self, count: usize) -> (r: Result<Vec<i16>, AudioBufferError>)
        requires
            old(self).wf(),
        ensures
            final(self).wf(),
            final(self).spec_capacity() == old(self).spec_capacity(),
            count > old(self).contents().len() ==> {
                &&& r matches Err(AudioBufferError::Underflow(c, avail)) && c == count && avail
                    == old(self).contents().len()
                &&& *final(self) == *old(self)
            },
            count <= old(self).contents().len() ==> {
                &&& r matches Ok(v) && v@ == old(self).contents().take(count as int)
                &&& final(self).contents() == old(self).contents().skip(count as int)
            },
    {
        if count > self.size {
            return Err(AudioBufferError::Underflow(count, self.size));
        }
        let r = self.peek(count);
        let cap = self.data.len();
        self.head = if self.head >= cap - count {
            self.head - (cap - count)
        } else {
            self.head + count
        };
        self.size = self.size - count;
        assert(self.contents() =~= old(self).contents().skip(count as int));
        Ok(r)
    }

    /// The number of samples currently in the buffer.
    pub fn len(&self) -> (r: usize)
        requires
            self.wf(),
        ensures
            r == self.contents().len(),
            r <= self.spec_capacity(),
    {
        self.size
    }

    /// Whether the buffer holds no samples.
    pub fn is_empty(&self) -> (r: bool)
        requires
            self.wf(),
        ensures
            r == (self.contents().len() == 0),
    {
        self.size == 0
    }

    /// The fixed capacity of the buffer.
    pub fn capacity(&self) -> (r: usize)
        requires
            self.wf(),
        ensures
            r == self.spec_capacity(),
    {
        self.data.len()
    }

    /// The number of samples that can be written before the oldest are
    /// dropped. At all times `len() + free_space() == capacity()`.
    pub fn free_space(&self) -> (r: usize)
        requires
            self.wf(),
        ensures
            r + self.contents().len() == self.spec_capacity(),
    {
        self.data.len() - self.size
    }

    /// Remove all samples.
    pub fn clear(&mut self)
        requires
            old(self).wf(),
        ensures
            final(self).wf(),
            final(self).spec_capacity() == old(self).spec_capacity(),
            final(self).contents() == Seq::<i16>::empty(),
    {
        self.size = 0;
        assert(self.contents() =~= Seq::<i16>::empty());
    }

    /// The sample rate the buffer is sized for.
    pub fn sample_rate(&self) -> (r: usize)
        requires
            self.wf(),
        ensures
            r == SAMPLE_RATE,
    {
        self.sample_rate
    }

    /// The number of channels held (the capture path is mono).
    pub fn channels(&self) -> (r: usize)
        requires
            self.wf(),
        ensures
            r == 1,
    {
        self.channels
    }
}

/// On an initially empty buffer whose capacity holds the whole input,
/// writing `samples` and then peeking them back yields exactly `samples`.
pub proof fn lemma_write_then_peek_roundtrip(cap: nat, samples: Seq<i16>)
    requires
        samples.len() <= cap,
    ensures
        write_model(Seq::<i16>::empty(), cap, samples).take(samples.len() as int) == samples,
{
    assert(Seq::<i16>::empty() + samples =~= samples);
    assert(write_model(Seq::<i16>::empty(), cap, samples).take(samples.len() as int) =~= samples);
}

/// When a single write exceeds the whole capacity, the buffer is left with
/// exactly the last `cap` samples of the input, in order.
pub proof fn lemma_write_overflow_keeps_newest(cap: nat, samples: Seq<i16>)
    requires
        samples.len() > cap,
    ensures
        write_model(Seq::<i16>::empty(), cap, samples) == samples.skip(samples.len() - cap),
{
    assert(Seq::<i16>::empty() + samples =~= samples);
    assert(write_model(Seq::<i16>::empty(), cap, samples) =~= samples.skip(
        samples.len() - cap,
    ));
}

} // verus!
