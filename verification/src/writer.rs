//! Core of the stereo synchronizer/writer: two per-channel backlog buffers
//! and the flush that emits interleaved, quantized stereo frames.
//!
//! Each flush pops one sample from each backlog per frame, substituting
//! silence (zero amplitude) for whichever side is exhausted, so the two
//! channels never drift out of frame alignment. Samples are clamped to full
//! scale before 16-bit quantization, so clipped input saturates instead of
//! wrapping. The buffer also counts every frame it has emitted; the sink
//! itself (the durable audio file) is outside this type.

use std::collections::VecDeque;
use vstd::prelude::*;

use crate::sample::{quantize, quantized};

verus! {

/// One interleaved stereo frame as written to the sink: `left` carries the
/// mic channel, `right` the monitor channel.
#[derive(Clone, Copy, Debug, PartialEq, Eq, Structural)]
pub struct StereoFrame {
    pub left: i16,
    pub right: i16,
}

/// The fixed-point sample a backlog yields at flush position `i`: its own
/// sample while it has one, silence once it is exhausted.
pub open spec fn padded_sample(q: Seq<i32>, i: int) -> int {
    if i < q.len() {
        q[i] as int
    } else {
        0
    }
}

/// How many frames a flush of the two backlogs emits: one per position of
/// the longer backlog.
pub open spec fn flush_count(left: Seq<i32>, right: Seq<i32>) -> nat {
    if left.len() >= right.len() {
        left.len()
    } else {
        right.len()
    }
}

/// What remains of a backlog after `k` frames have been flushed.
pub open spec fn drained(q: Seq<i32>, k: int) -> Seq<i32> {
    if k < q.len() {
        q.subrange(k, q.len() as int)
    } else {
        Seq::empty()
    }
}

/// The per-channel backlogs of the stereo synchronizer, plus the count of
/// frames emitted so far.
pub struct StereoFrameBuffer {
    pub left_buffer: VecDeque<i32>,
    pub right_buffer: VecDeque<i32>,
    pub samples_written: u64,
}

impl StereoFrameBuffer {
    /// An empty synchronizer that has emitted nothing.
    pub fn new() -> (w: StereoFrameBuffer)
        ensures
            w.left_buffer@ == Seq::<i32>::empty(),
            w.right_buffer@ == Seq::<i32>::empty(),
            w.samples_written == 0,
    {
        StereoFrameBuffer {
            left_buffer: VecDeque::new(),
            right_buffer: VecDeque::new(),
            samples_written: 0,
        }
    }

    /// Append a block of mic-channel samples to the left backlog.
    pub fn buffer_left(&mut self, samples: &Vec<i32>)
        ensures
            final(self).left_buffer@ == old(self).left_buffer@ + samples@,
            final(self).right_buffer == old(self).right_buffer,
            final(self).samples_written == old(self).samples_written,
    {
        let mut k: usize = 0;
        while k < samples.len()
            invariant
                k <= samples@.len(),
                self.left_buffer@ == old(self).left_buffer@ + samples@.take(k as int),
                self.right_buffer == old(self).right_buffer,
                self.samples_written == old(self).samples_written,
            decreases samples@.len() - k,
        {
            self.left_buffer.push_back(samples[k]);
            assert(self.left_buffer@ =~= old(self).left_buffer@ + samples@.take(k + 1));
            k = k + 1;
        }
        assert(old(self).left_buffer@ + samples@.take(samples@.len() as int) =~= old(
            self,
        ).left_buffer@ + samples@);
    }

    /// Append a block of monitor-channel samples to the right backlog.
    pub fn buffer_right(&mut self, samples: &Vec<i32>)
        ensures
            final(self).right_buffer@ == old(self).right_buffer@ + samples@,
            final(self).left_buffer == old(self).left_buffer,
            final(self).samples_written == old(self).samples_written,
    {
        let mut k: usize = 0;
        while k < samples.len()
            invariant
                k <= samples@.len(),
                self.right_buffer@ == old(self).right_buffer@ + samples@.take(k as int),
                self.left_buffer == old(self).left_buffer,
                self.samples_written == old(self).samples_written,
            decreases samples@.len() - k,
        {
            self.right_buffer.push_back(samples[k]);
            assert(self.right_buffer@ =~= old(self).right_buffer@ + samples@.take(k + 1));
            k = k + 1;
        }
        assert(old(self).right_buffer@ + samples@.take(samples@.len() as int) =~= old(
            self,
        ).right_buffer@ + samples@);
    }

    /// Quantize one (left, right) sample pair into a frame and count it.
    /// Both samples are clamped to full scale, so out-of-range input
    /// saturates at the extreme quantized values.
    pub fn write_frame(&mut self, left: i32, right: i32) -> (f: StereoFrame)
        requires
            old(self).samples_written < u64::MAX,
        ensures
            f.left == quantized(left as int),
            f.right == quantized(right as int),
            final(self).samples_written == old(self).samples_written + 1,
            final(self).left_buffer == old(self).left_buffer,
            final(self).right_buffer == old(self).right_buffer,
    {
        let f = StereoFrame { left: quantize(left), right: quantize(right) };
        self.samples_written = self.samples_written + 1;
        f
    }

    /// Flush the backlogs into interleaved frames: while either backlog is
    /// non-empty, pop one sample from each side, substituting silence for
    /// an empty side, and emit one quantized frame. Both backlogs are empty
    /// afterwards and every emitted frame is counted.
    pub fn flush_buffers(&mut self) -> (frames: Vec<StereoFrame>)
        requires
            old(self).samples_written + flush_count(
                old(self).left_buffer@,
                old(self).right_buffer@,
            ) <= u64::MAX,
        ensures
            frames@.len() == flush_count(old(self).left_buffer@, old(self).right_buffer@),
            forall|i: int|
                0 <= i < frames@.len() ==> #[trigger] frames@[i].left == quantized(
                    padded_sample(old(self).left_buffer@, i),
                ) && frames@[i].right == quantized(padded_sample(old(self).right_buffer@, i)),
            final(self).left_buffer@ == Seq::<i32>::empty(),
            final(self).right_buffer@ == Seq::<i32>::empty(),
            final(self).samples_written == old(self).samples_written + frames@.len(),
    {
        let ghost l0 = old(self).left_buffer@;
        let ghost r0 = old(self).right_buffer@;
        let mut frames: Vec<StereoFrame> = Vec::new();
        while self.left_buffer.len() > 0 || self.right_buffer.len() > 0
            invariant
                frames@.len() <= flush_count(l0, r0),
                self.left_buffer@ == drained(l0, frames@.len() as int),
                self.right_buffer@ == drained(r0, frames@.len() as int),
                forall|i: int|
                    0 <= i < frames@.len() ==> #[trigger] frames@[i].left == quantized(
                        padded_sample(l0, i),
                    ) && frames@[i].right == quantized(padded_sample(r0, i)),
                self.samples_written == old(self).samples_written + frames@.len(),
                old(self).samples_written + flush_count(l0, r0) <= u64::MAX,
            decreases flush_count(l0, r0) - frames@.len(),
        {
            let ghost k = frames@.len() as int;
            let left_sample: i32 = match self.left_buffer.pop_front() {
                Some(v) => v,
                None => 0,
            };
            let right_sample: i32 = match self.right_buffer.pop_front() {
                Some(v) => v,
                None => 0,
            };
            assert(left_sample == padded_sample(l0, k));
            assert(right_sample == padded_sample(r0, k));
            assert(self.left_buffer@ =~= drained(l0, k + 1));
            assert(self.right_buffer@ =~= drained(r0, k + 1));
            let f = self.write_frame(left_sample, right_sample);
            frames.push(f);
        }
        frames
    }
}

} // verus!
