//! Frames on the wire: each sample as four little-endian bytes, samples in
//! channel-interleaved order, with no header and no length prefix.

use vstd::prelude::*;
use crate::format::{lemma_whole_sample_framing, AudioFormat, WindowDuration};

verus! {

/// The four bytes of one sample, least significant first.
pub open spec fn sample_bytes(sample: u32) -> Seq<u8> {
    seq![
        (sample % 256) as u8,
        (sample / 256 % 256) as u8,
        (sample / 65536 % 256) as u8,
        (sample / 16777216) as u8,
    ]
}

/// The sample whose little-endian bytes are `b0` to `b3`.
pub open spec fn sample_of(b0: u8, b1: u8, b2: u8, b3: u8) -> u32 {
    (b0 + 256 * b1 + 65536 * b2 + 16777216 * b3) as u32
}

/// The frame that carries `block`: sample `i` fills bytes `4 * i` to
/// `4 * i + 3`.
pub open spec fn encoded(block: Seq<u32>) -> Seq<u8> {
    Seq::new(4 * block.len(), |k: int| sample_bytes(block[k / 4])[k % 4])
}

/// The samples held by `bytes`: one for every complete group of four, a
/// shorter tail left out.
pub open spec fn decoded(bytes: Seq<u8>) -> Seq<u32> {
    Seq::new(
        bytes.len() / 4,
        |i: int| sample_of(bytes[4 * i], bytes[4 * i + 1], bytes[4 * i + 2], bytes[4 * i + 3]),
    )
}

/// Serialises a block of samples into a frame.
pub fn audio_data_to_buffer(block: &[u32]) -> (buffer: Vec<u8>)
    ensures
        buffer@ == encoded(block@),
        buffer@.len() == 4 * block@.len(),
{
    let mut buffer: Vec<u8> = Vec::new();
    let mut i: usize = 0;
    while i < block.len()
        invariant
            i <= block.len(),
            buffer@.len() == 4 * i,
            forall|k: int| 0 <= k < 4 * i ==> buffer@[k] == #[trigger] encoded(block@)[k],
        decreases block.len() - i,
    {
        let sample: u32 = block[i];
        buffer.push((sample % 256) as u8);
        buffer.push((sample / 256 % 256) as u8);
        buffer.push((sample / 65536 % 256) as u8);
        buffer.push((sample / 16777216) as u8);
        i = i + 1;
    }
    buffer
}

/// Reads the samples out of received bytes. Works on any number of bytes:
/// a group of fewer than four at the end is dropped.
pub fn buffer_to_audio_data(buffer: &[u8]) -> (block: Vec<u32>)
    ensures
        block@ == decoded(buffer@),
        block@.len() == buffer@.len() / 4,
{
    let mut block: Vec<u32> = Vec::new();
    let length: usize = buffer.len();
    let count: usize = length / 4;
    let mut i: usize = 0;
    while i < count
        invariant
            i <= count,
            length == buffer@.len(),
            count == length / 4,
            block@.len() == i,
            forall|j: int| 0 <= j < i ==> block@[j] == #[trigger] decoded(buffer@)[j],
        decreases count - i,
    {
        let b0: u32 = buffer[4 * i] as u32;
        let b1: u32 = buffer[4 * i + 1] as u32;
        let b2: u32 = buffer[4 * i + 2] as u32;
        let b3: u32 = buffer[4 * i + 3] as u32;
        block.push(b0 + 256 * b1 + 65536 * b2 + 16777216 * b3);
        i = i + 1;
    }
    block
}

/// Four bytes written for a sample read back as that sample.
pub proof fn lemma_sample_round_trip(sample: u32)
    ensures
        sample_of(
            sample_bytes(sample)[0],
            sample_bytes(sample)[1],
            sample_bytes(sample)[2],
            sample_bytes(sample)[3],
        ) == sample,
{
}

/// Decoding the frame of a block gives the block back, bit for bit.
pub proof fn lemma_round_trip(block: Seq<u32>)
    ensures
        encoded(block).len() == 4 * block.len(),
        decoded(encoded(block)) == block,
{
    let frame = encoded(block);
    assert forall|i: int| 0 <= i < block.len() implies decoded(frame)[i] == block[i] by {
        lemma_sample_round_trip(block[i]);
    }
    assert(decoded(frame) =~= block);
}

/// A block of one window's samples, a quarter of the frame length in
/// number, encodes to exactly one frame and decodes back to itself.
pub proof fn lemma_window_round_trip(format: AudioFormat, window: WindowDuration, block: Seq<u32>)
    requires
        format.valid(),
        block.len() == format.frame_bytes(window) / 4,
    ensures
        encoded(block).len() == format.frame_bytes(window),
        decoded(encoded(block)) == block,
{
    lemma_whole_sample_framing(format, window);
    lemma_round_trip(block);
}

/// What a shorter read decodes to is a prefix of what the whole frame
/// decodes to: the first `n / 4` samples.
pub proof fn lemma_partial_read(bytes: Seq<u8>, n: int)
    requires
        0 <= n <= bytes.len(),
    ensures
        decoded(bytes.take(n)) == decoded(bytes).take(n / 4),
{
    assert(decoded(bytes.take(n)) =~= decoded(bytes).take(n / 4));
}

} // verus!
