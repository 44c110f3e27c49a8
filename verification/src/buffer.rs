//! The two staging buffers between the audio callbacks and the window
//! loop. Each holds at most one block: the capture buffer the samples of
//! the window being recorded, the playback buffer what is left to play of
//! the block last received.
//!
//! The buffers are plain values here. Whoever shares one between a
//! callback and the loop guards it with a lock, and lets the callback pass
//! when the lock is taken.

use vstd::prelude::*;
use crate::sample::SILENCE;

verus! {

/// Samples recorded in the current window, never more than `limit()`.
pub struct CaptureBuffer {
    samples: Vec<u32>,
    limit: usize,
}

impl CaptureBuffer {
    /// The pending block.
    pub closed spec fn pending(&self) -> Seq<u32> {
        self.samples@
    }

    /// The most samples the buffer ever holds: one window's worth.
    pub closed spec fn limit(&self) -> nat {
        self.limit as nat
    }

    #[verifier::type_invariant]
    closed spec fn bounded(&self) -> bool {
        self.samples@.len() <= self.limit
    }

    /// An empty buffer for windows of `limit` samples.
    pub fn new(limit: usize) -> (buffer: CaptureBuffer)
        ensures
            buffer.pending() == Seq::<u32>::empty(),
            buffer.limit() == limit,
    {
        CaptureBuffer { samples: Vec::new(), limit }
    }

    /// Number of pending samples.
    pub fn len(&self) -> (n: usize)
        ensures
            n == self.pending().len(),
            n <= self.limit(),
    {
        proof {
            use_type_invariant(self);
        }
        self.samples.len()
    }

    /// Appends `samples` to the pending block as far as the window has
    /// room, and drops the rest. Returns how many were taken.
    pub fn append(&mut self, samples: &[u32]) -> (accepted: usize)
        ensures
            final(self).limit() == old(self).limit(),
            old(self).pending().len() <= old(self).limit(),
            accepted == if samples@.len() <= old(self).limit() - old(self).pending().len() {
                samples@.len() as int
            } else {
                old(self).limit() - old(self).pending().len()
            },
            final(self).pending() == old(self).pending() + samples@.take(accepted as int),
            final(self).pending().len() <= final(self).limit(),
    {
        proof {
            use_type_invariant(&*self);
        }
        let room: usize = self.limit - self.samples.len();
        let offered: usize = samples.len();
        let accepted: usize = if offered <= room {
            offered
        } else {
            room
        };
        let mut pending: Vec<u32> = Vec::new();
        std::mem::swap(&mut pending, &mut self.samples);
        let mut i: usize = 0;
        while i < accepted
            invariant
                i <= accepted,
                accepted <= samples@.len(),
                pending@ == old(self).samples@ + samples@.take(i as int),
            decreases accepted - i,
        {
            pending.push(samples[i]);
            assert(samples@.take(i + 1) =~= samples@.take(i as int).push(samples@[i as int]));
            i = i + 1;
        }
        self.samples = pending;
        accepted
    }

    /// Hands over the pending block and leaves the buffer empty: `None` if
    /// nothing was recorded.
    pub fn take_and_clear(&mut self) -> (block: Option<Vec<u32>>)
        ensures
            final(self).limit() == old(self).limit(),
            final(self).pending() == Seq::<u32>::empty(),
            match block {
                Some(samples) => samples@ == old(self).pending() && samples@.len() > 0,
                None => old(self).pending().len() == 0,
            },
    {
        if self.samples.len() == 0 {
            None
        } else {
            let mut block: Vec<u32> = Vec::new();
            std::mem::swap(&mut block, &mut self.samples);
            Some(block)
        }
    }
}

/// What the capture callback does with its samples. With the buffer in
/// hand it appends them as [`CaptureBuffer::append`] does; without it,
/// because the window loop holds the lock, it drops them and returns at
/// once.
pub fn try_append(buffer: Option<&mut CaptureBuffer>, samples: &[u32]) -> (accepted: usize)
    ensures
        match buffer {
            Some(held) => {
                &&& final(held).limit() == held.limit()
                &&& accepted == if samples@.len() <= held.limit() - held.pending().len() {
                    samples@.len() as int
                } else {
                    held.limit() - held.pending().len()
                }
                &&& final(held).pending() == held.pending() + samples@.take(accepted as int)
            },
            None => accepted == 0,
        },
{
    match buffer {
        Some(held) => held.append(samples),
        None => 0,
    }
}

/// What is left to play of the block last received.
pub struct PlaybackBuffer {
    block: Vec<u32>,
    cursor: usize,
}

impl PlaybackBuffer {
    /// The samples not yet played, next one first.
    pub closed spec fn remaining(&self) -> Seq<u32> {
        self.block@.skip(self.cursor as int)
    }

    #[verifier::type_invariant]
    closed spec fn in_block(&self) -> bool {
        self.cursor <= self.block@.len()
    }

    /// A buffer with nothing to play.
    pub fn new() -> (buffer: PlaybackBuffer)
        ensures
            buffer.remaining() == Seq::<u32>::empty(),
    {
        let buffer = PlaybackBuffer { block: Vec::new(), cursor: 0 };
        assert(buffer.remaining() =~= Seq::<u32>::empty());
        buffer
    }

    /// Stores `block` as the one to play; what was left of the block before
    /// it is dropped.
    pub fn push_for_playback(&mut self, block: Vec<u32>)
        ensures
            final(self).remaining() == block@,
    {
        self.cursor = 0;
        self.block = block;
        assert(self.remaining() =~= block@);
    }

    /// The next sample to play, or silence once the block is used up.
    pub fn pop_for_playback(&mut self) -> (sample: u32)
        ensures
            old(self).remaining().len() > 0 ==> sample == old(self).remaining()[0]
                && final(self).remaining() == old(self).remaining().skip(1),
            old(self).remaining().len() == 0 ==> sample == SILENCE && final(self).remaining()
                == old(self).remaining(),
    {
        proof {
            use_type_invariant(&*self);
        }
        if self.cursor < self.block.len() {
            let sample: u32 = self.block[self.cursor];
            self.cursor = self.cursor + 1;
            assert(self.remaining() =~= old(self).remaining().skip(1));
            sample
        } else {
            assert(self.remaining() =~= old(self).remaining());
            SILENCE
        }
    }

    /// The next `count` samples to play, as the output callback asks for
    /// them: what is left of the block first, then silence.
    pub fn fill(&mut self, count: usize) -> (out: Vec<u32>)
        ensures
            out@.len() == count,
            forall|i: int|
                0 <= i < count ==> #[trigger] out@[i] == if i < old(self).remaining().len() {
                    old(self).remaining()[i]
                } else {
                    SILENCE
                },
            final(self).remaining() == if count <= old(self).remaining().len() {
                old(self).remaining().skip(count as int)
            } else {
                Seq::<u32>::empty()
            },
    {
        proof {
            use_type_invariant(&*self);
        }
        let mut out: Vec<u32> = Vec::new();
        let mut i: usize = 0;
        while i < count
            invariant
                i <= count,
                out@.len() == i,
                self.block@ == old(self).block@,
                old(self).cursor <= self.cursor <= self.block@.len(),
                self.cursor == if i <= old(self).remaining().len() {
                    old(self).cursor + i
                } else {
                    self.block@.len() as int
                },
                forall|k: int|
                    0 <= k < i ==> #[trigger] out@[k] == if k < old(self).remaining().len() {
                        old(self).remaining()[k]
                    } else {
                        SILENCE
                    },
            decreases count - i,
        {
            if self.cursor < self.block.len() {
                out.push(self.block[self.cursor]);
                self.cursor = self.cursor + 1;
            } else {
                out.push(SILENCE);
            }
            i = i + 1;
        }
        assert(self.remaining() =~= if count <= old(self).remaining().len() {
            old(self).remaining().skip(count as int)
        } else {
            Seq::<u32>::empty()
        });
        out
    }
}

/// What the playback callback plays. With the buffer in hand it takes the
/// next `count` samples as [`PlaybackBuffer::fill`] does; without it,
/// because the window loop holds the lock, it plays `count` samples of
/// silence and returns at once.
pub fn try_fill(buffer: Option<&mut PlaybackBuffer>, count: usize) -> (out: Vec<u32>)
    ensures
        out@.len() == count,
        match buffer {
            Some(held) => {
                &&& forall|i: int|
                    0 <= i < count ==> #[trigger] out@[i] == if i < held.remaining().len() {
                        held.remaining()[i]
                    } else {
                        SILENCE
                    }
                &&& final(held).remaining() == if count <= held.remaining().len() {
                    held.remaining().skip(count as int)
                } else {
                    Seq::<u32>::empty()
                }
            },
            None => forall|i: int| 0 <= i < count ==> #[trigger] out@[i] == SILENCE,
        },
{
    match buffer {
        Some(held) => held.fill(count),
        None => {
            let mut out: Vec<u32> = Vec::new();
            let mut i: usize = 0;
            while i < count
                invariant
                    i <= count,
                    out@.len() == i,
                    forall|k: int| 0 <= k < i ==> #[trigger] out@[k] == SILENCE,
                decreases count - i,
            {
                out.push(SILENCE);
                i = i + 1;
            }
            out
        },
    }
}

} // verus!
