//! The audio format of a session and the frame length that follows from it.

use vstd::prelude::*;

verus! {

/// Bytes that one sample occupies on the wire.
pub const BYTES_PER_SAMPLE: usize = 4;

/// Sample rate and channel count of a stream of single-precision samples.
/// It is fixed for the lifetime of a session.
#[derive(Clone, Copy, Debug, PartialEq, Eq, Structural)]
pub struct AudioFormat {
    /// Samples per second and channel, in Hz.
    pub sample_rate: u32,
    /// Number of interleaved channels.
    pub channel_count: u16,
}

/// The wall-clock span of audio that travels as one frame, in whole seconds.
#[derive(Clone, Copy, Debug, PartialEq, Eq, Structural)]
pub struct WindowDuration {
    pub seconds: u32,
}

impl WindowDuration {
    /// A window lasts at least one second.
    pub open spec fn valid(self) -> bool {
        self.seconds > 0
    }

    /// A window of `seconds` seconds, or `None` for an empty one.
    pub fn new(seconds: u32) -> (r: Option<WindowDuration>)
        ensures
            r == if seconds > 0 {
                Some(WindowDuration { seconds })
            } else {
                None
            },
    {
        if seconds > 0 {
            Some(WindowDuration { seconds })
        } else {
            None
        }
    }
}

impl AudioFormat {
    /// Both the rate and the channel count are positive.
    pub open spec fn valid(self) -> bool {
        self.sample_rate > 0 && self.channel_count > 0
    }

    /// Samples, over all channels, that one window holds.
    pub open spec fn window_samples(self, window: WindowDuration) -> nat {
        (window.seconds as nat) * (self.sample_rate as nat) * (self.channel_count as nat)
    }

    /// Bytes of one frame: four for each sample of the window.
    pub open spec fn frame_bytes(self, window: WindowDuration) -> nat {
        self.window_samples(window) * 4
    }

    /// The format with the given rate and channel count, or `None` if
    /// either is zero.
    pub fn new(sample_rate: u32, channel_count: u16) -> (r: Option<AudioFormat>)
        ensures
            r == if sample_rate > 0 && channel_count > 0 {
                Some(AudioFormat { sample_rate, channel_count })
            } else {
                None
            },
    {
        if sample_rate > 0 && channel_count > 0 {
            Some(AudioFormat { sample_rate, channel_count })
        } else {
            None
        }
    }

    /// Number of samples in one window, or `None` where that number does
    /// not fit the machine's word.
    pub fn samples_per_window(&self, window: &WindowDuration) -> (r: Option<usize>)
        ensures
            match r {
                Some(n) => n == self.window_samples(*window),
                None => self.window_samples(*window) > usize::MAX,
            },
    {
        let seconds: u128 = window.seconds as u128;
        let rate: u128 = self.sample_rate as u128;
        let channels: u128 = self.channel_count as u128;
        assert(seconds * rate <= 0xffff_ffff * 0xffff_ffff) by (nonlinear_arith)
            requires
                seconds <= 0xffff_ffff,
                rate <= 0xffff_ffff,
        ;
        let per_channel: u128 = seconds * rate;
        assert(per_channel * channels <= 0xffff_ffff * 0xffff_ffff * 0xffff) by (nonlinear_arith)
            requires
                per_channel <= 0xffff_ffff * 0xffff_ffff,
                channels <= 0xffff,
        ;
        let samples: u128 = per_channel * channels;
        if samples <= usize::MAX as u128 {
            Some(samples as usize)
        } else {
            None
        }
    }

    /// Length in bytes of one frame, or `None` where it does not fit the
    /// machine's word.
    pub fn frame_byte_length(&self, window: &WindowDuration) -> (r: Option<usize>)
        ensures
            match r {
                Some(n) => n == self.frame_bytes(*window),
                None => self.frame_bytes(*window) > usize::MAX,
            },
    {
        match self.samples_per_window(window) {
            Some(samples) => {
                if samples <= usize::MAX / BYTES_PER_SAMPLE {
                    Some(samples * BYTES_PER_SAMPLE)
                } else {
                    None
                }
            },
            None => None,
        }
    }
}

/// A frame holds whole samples of every channel: its length is a multiple
/// of four and of four times the channel count.
pub proof fn lemma_whole_sample_framing(format: AudioFormat, window: WindowDuration)
    requires
        format.valid(),
    ensures
        format.frame_bytes(window) % 4 == 0,
        format.frame_bytes(window) % (format.channel_count as nat * 4) == 0,
        format.frame_bytes(window) / 4 == format.window_samples(window),
{
    let per_channel: nat = (window.seconds as nat) * (format.sample_rate as nat);
    let channels: nat = format.channel_count as nat;
    assert(format.frame_bytes(window) == per_channel * (channels * 4)) by (nonlinear_arith)
        requires
            format.frame_bytes(window) == per_channel * channels * 4,
    ;
    assert((per_channel * (channels * 4)) % (channels * 4) == 0) by (nonlinear_arith)
        requires
            channels > 0,
    ;
}

} // verus!
