//! The rolling store of mono samples that feeds the transform.

use crate::fifo::{fifo_extend, fifo_push, lemma_fifo_extend_fills, lemma_fifo_extend_keeps_newest, lemma_fifo_push_len};
use std::collections::VecDeque;
use vstd::prelude::*;

verus! {

/// A fixed-capacity first-in-first-out buffer of mono samples.
///
/// Its view is the samples it holds, oldest first. It never holds more than
/// its capacity, the transform length it was made for.
pub struct SampleRingBuffer {
    samples: VecDeque<i32>,
    fft_size: usize,
}

impl View for SampleRingBuffer {
    type V = Seq<i32>;

    closed spec fn view(&self) -> Seq<i32> {
        self.samples@
    }
}

impl SampleRingBuffer {
    /// The buffer is within its capacity.
    #[verifier::type_invariant]
    pub closed spec fn wf(self) -> bool {
        self.samples@.len() <= self.fft_size
    }

    /// The capacity the buffer was made with.
    pub closed spec fn spec_capacity(&self) -> usize {
        self.fft_size
    }

    /// The buffer holds as many samples as one transform consumes.
    pub open spec fn spec_is_full(&self) -> bool {
        self@.len() == self.spec_capacity()
    }

    /// An empty buffer for transforms of length `fft_size`. The storage is
    /// reserved here, so that pushing never has to grow it.
    pub fn new(fft_size: usize) -> (buffer: Self)
        ensures
            buffer@ == Seq::<i32>::empty(),
            buffer.spec_capacity() == fft_size,
            buffer.wf(),
    {
        SampleRingBuffer { samples: VecDeque::with_capacity(fft_size), fft_size }
    }

    #[verifier::when_used_as_spec(spec_capacity)]
    pub fn capacity(&self) -> (capacity: usize)
        ensures
            capacity == self.spec_capacity(),
    {
        self.fft_size
    }

    /// The number of samples held, which never exceeds the capacity.
    pub fn len(&self) -> (len: usize)
        ensures
            len == self@.len(),
            len <= self.spec_capacity(),
            self.wf(),
    {
        proof {
            use_type_invariant(&*self);
        }
        self.samples.len()
    }

    #[verifier::when_used_as_spec(spec_is_full)]
    pub fn is_full(&self) -> (full: bool)
        ensures
            full == self.spec_is_full(),
    {
        self.samples.len() == self.fft_size
    }

    /// Appends one sample; if the buffer was full, the oldest sample leaves.
    pub fn push(&mut self, sample: i32)
        ensures
            final(self)@ == fifo_push(old(self)@, sample, old(self).spec_capacity() as nat),
            final(self).spec_capacity() == old(self).spec_capacity(),
            final(self)@.len() <= final(self).spec_capacity(),
            final(self).wf(),
    {
        proof {
            use_type_invariant(&*self);
            lemma_fifo_push_len(self@, sample, self.fft_size as nat);
        }
        if self.fft_size == 0 {
            return;
        }
        let mut samples: VecDeque<i32> = VecDeque::new();
        std::mem::swap(&mut samples, &mut self.samples);
        if samples.len() == self.fft_size {
            let _ = samples.pop_front();
        }
        samples.push_back(sample);
        self.samples = samples;
    }

    /// Pushes every sample of `samples`, in order.
    pub fn extend(&mut self, samples: &[i32])
        ensures
            final(self)@ == fifo_extend(old(self)@, samples@, old(self).spec_capacity() as nat),
            final(self).spec_capacity() == old(self).spec_capacity(),
            final(self)@.len() <= final(self).spec_capacity(),
            samples@.len() >= old(self).spec_capacity() ==> final(self).spec_is_full(),
            final(self).wf(),
    {
        proof {
            use_type_invariant(&*self);
        }
        let mut i: usize = 0;
        while i < samples.len()
            invariant
                i <= samples.len(),
                self.spec_capacity() == old(self).spec_capacity(),
                self@ == fifo_extend(
                    old(self)@,
                    samples@.take(i as int),
                    old(self).spec_capacity() as nat,
                ),
                self.wf(),
            decreases samples.len() - i,
        {
            proof {
                assert(samples@.take(i + 1).drop_last() =~= samples@.take(i as int));
            }
            self.push(samples[i]);
            i += 1;
        }
        proof {
            assert(samples@.take(i as int) =~= samples@);
            lemma_fifo_extend_keeps_newest(old(self)@, samples@, self.fft_size as nat);
            if samples@.len() >= self.fft_size {
                lemma_fifo_extend_fills(old(self)@, samples@, self.fft_size as nat);
            }
        }
    }

    /// A copy of the samples held, oldest first. The buffer is left as it is.
    pub fn snapshot(&self) -> (samples: Vec<i32>)
        ensures
            samples@ == self@,
    {
        let n = self.samples.len();
        let mut out: Vec<i32> = Vec::with_capacity(n);
        let mut i: usize = 0;
        while i < n
            invariant
                n == self.samples@.len(),
                i <= n,
                out@ == self.samples@.take(i as int),
            decreases n - i,
        {
            out.push(self.samples[i]);
            proof {
                assert(self.samples@.take(i as int).push(self.samples@[i as int])
                    =~= self.samples@.take(i + 1));
            }
            i += 1;
        }
        proof {
            assert(self.samples@.take(n as int) =~= self.samples@);
        }
        out
    }

    /// Drops every sample; the capacity stays.
    pub fn clear(&mut self)
        ensures
            final(self)@ == Seq::<i32>::empty(),
            final(self).spec_capacity() == old(self).spec_capacity(),
            final(self).wf(),
    {
        let mut samples: VecDeque<i32> = VecDeque::new();
        std::mem::swap(&mut samples, &mut self.samples);
        samples.clear();
        self.samples = samples;
    }
}

/// However many samples are pushed into a buffer, it never holds more than
/// its capacity; and once as many as its capacity have been pushed, it holds
/// exactly the last `capacity` of them, in arrival order.
pub proof fn lemma_pushes_keep_last_samples(buffer: SampleRingBuffer, pushed: Seq<i32>)
    requires
        buffer.wf(),
    ensures
        fifo_extend(buffer@, pushed, buffer.spec_capacity() as nat).len()
            <= buffer.spec_capacity(),
        pushed.len() >= buffer.spec_capacity() ==> fifo_extend(
            buffer@,
            pushed,
            buffer.spec_capacity() as nat,
        ) == pushed.subrange(pushed.len() - buffer.spec_capacity(), pushed.len() as int),
{
    lemma_fifo_extend_keeps_newest(buffer@, pushed, buffer.spec_capacity() as nat);
    if pushed.len() >= buffer.spec_capacity() {
        lemma_fifo_extend_fills(buffer@, pushed, buffer.spec_capacity() as nat);
    }
}

} // verus!
