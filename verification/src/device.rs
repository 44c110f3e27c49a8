//! Choosing the devices and their format: which device a name stands for,
//! and which of the configurations a device supports is taken.

use vstd::prelude::*;
use crate::error::ErrorKind;
use crate::format::AudioFormat;

verus! {

/// The sample rate asked for first, in Hz.
pub const PREFERRED_SAMPLE_RATE: u32 = 22050;

/// What the command line says about the audio devices.
pub struct Opt {
    input_device: String,
    output_device: String,
    jack: bool,
}

/// The options as plain values.
pub struct OptView {
    pub input_device: Seq<char>,
    pub output_device: Seq<char>,
    pub jack: bool,
}

impl View for Opt {
    type V = OptView;

    closed spec fn view(&self) -> OptView {
        OptView {
            input_device: self.input_device@,
            output_device: self.output_device@,
            jack: self.jack,
        }
    }
}

/// The argument at `index`, or the word `default` where the command line
/// is too short to have one.
pub open spec fn device_argument(args: Seq<String>, index: int) -> Seq<char> {
    if index < args.len() {
        args[index]@
    } else {
        "default"@
    }
}

impl Opt {
    /// Reads the options off the command line: the input device is the
    /// fourth word and the output device the fifth, each `default` if
    /// absent. `jack` says whether the JACK host is to be used.
    pub fn new(args: &Vec<String>, jack: bool) -> (opt: Opt)
        ensures
            opt@ == (OptView {
                input_device: device_argument(args@, 3),
                output_device: device_argument(args@, 4),
                jack,
            }),
    {
        let input_device: String = if args.len() > 3 {
            args[3].clone()
        } else {
            "default".to_string()
        };
        let output_device: String = if args.len() > 4 {
            args[4].clone()
        } else {
            "default".to_string()
        };
        Opt { input_device, output_device, jack }
    }

    /// The name of the input device.
    pub fn input_device(&self) -> (name: &String)
        ensures
            name@ == self@.input_device,
    {
        &self.input_device
    }

    /// The name of the output device.
    pub fn output_device(&self) -> (name: &String)
        ensures
            name@ == self@.output_device,
    {
        &self.output_device
    }

    /// Whether the JACK host is to be used.
    pub fn jack(&self) -> (r: bool)
        ensures
            r == self@.jack,
    {
        self.jack
    }
}

/// Whether `name` asks for the host's default device.
pub fn is_default_device(name: &String) -> (r: bool)
    ensures
        r == (name@ == "default"@),
{
    let default: String = "default".to_string();
    *name == default
}

/// Whether `wanted` is the name of the device at `index`. A device whose
/// name could not be read matches nothing.
pub open spec fn names_device(names: Seq<Option<String>>, index: int, wanted: Seq<char>) -> bool {
    0 <= index < names.len() && (names[index] matches Some(name) && name@ == wanted)
}

/// Finds the first device named `wanted` among the names of a host's
/// devices, in the host's order. Fails with `DeviceSetupError` if no device
/// has that name.
pub fn find_device(names: &Vec<Option<String>>, wanted: &String) -> (r: Result<usize, ErrorKind>)
    ensures
        match r {
            Ok(index) => names_device(names@, index as int, wanted@) && forall|k: int|
                0 <= k < index ==> !names_device(names@, k, wanted@),
            Err(error) => error == ErrorKind::DeviceSetupError && forall|k: int|
                0 <= k < names@.len() ==> !names_device(names@, k, wanted@),
        },
{
    let mut i: usize = 0;
    while i < names.len()
        invariant
            i <= names@.len(),
            forall|k: int| 0 <= k < i ==> !names_device(names@, k, wanted@),
        decreases names@.len() - i,
    {
        let matches: bool = match &names[i] {
            Some(name) => *name == *wanted,
            None => false,
        };
        if matches {
            return Ok(i);
        }
        i = i + 1;
    }
    Err(ErrorKind::DeviceSetupError)
}

/// One range of configurations that a device supports: a channel count
/// with every sample rate from `min_sample_rate` to `max_sample_rate`.
#[derive(Clone, Copy, Debug, PartialEq, Eq, Structural)]
pub struct ConfigRange {
    pub channels: u16,
    pub min_sample_rate: u32,
    pub max_sample_rate: u32,
}

impl ConfigRange {
    /// Whether the range offers the sample rate `rate`.
    pub open spec fn offers(self, rate: u32) -> bool {
        self.min_sample_rate <= rate <= self.max_sample_rate
    }

    /// Tells whether the range offers the sample rate `rate`.
    pub fn offers_rate(&self, rate: u32) -> (r: bool)
        ensures
            r == self.offers(rate),
    {
        self.min_sample_rate <= rate && rate <= self.max_sample_rate
    }
}

/// The range at its highest rate.
pub open spec fn at_highest_rate(range: ConfigRange) -> AudioFormat {
    AudioFormat { sample_rate: range.max_sample_rate, channel_count: range.channels }
}

/// The format that `ranges` leads to, if any. The first range is taken at
/// the preferred rate where it offers that rate. Where it does not, the
/// second range is taken at its highest rate, or the first range at its
/// highest rate if it is the only one. Only a device without any range
/// leads to no format.
pub open spec fn selected_format(ranges: Seq<ConfigRange>) -> Option<AudioFormat> {
    if ranges.len() == 0 {
        None
    } else if ranges[0].offers(PREFERRED_SAMPLE_RATE) {
        Some(AudioFormat { sample_rate: PREFERRED_SAMPLE_RATE, channel_count: ranges[0].channels })
    } else if ranges.len() >= 2 {
        Some(at_highest_rate(ranges[1]))
    } else {
        Some(at_highest_rate(ranges[0]))
    }
}

/// The place, among the ranges, of the one that the format is taken from:
/// the second where there is one and the first does not offer the preferred
/// rate, else the first.
pub open spec fn selected_range(ranges: Seq<ConfigRange>) -> int {
    if ranges.len() >= 2 && !ranges[0].offers(PREFERRED_SAMPLE_RATE) {
        1
    } else {
        0
    }
}

/// A device that supports any range gets a format, and the format comes
/// from a range it supports: it has that range's channel count and, if the
/// range holds any rate at all, a rate that the range offers.
pub proof fn lemma_selected_format_is_supported(ranges: Seq<ConfigRange>)
    requires
        ranges.len() > 0,
    ensures
        0 <= selected_range(ranges) < ranges.len(),
        selected_format(ranges) matches Some(format) && {
            let range = ranges[selected_range(ranges)];
            &&& format.channel_count == range.channels
            &&& range.min_sample_rate <= range.max_sample_rate ==> range.offers(format.sample_rate)
        },
{
}

/// Picks the format of a device from the ranges it supports, in the
/// device's order: the format that the ranges lead to, if it has a rate
/// and a channel. Fails with `DeviceSetupError` where the device supports
/// no range, or where the range taken has no channels or no rate.
pub fn select_config(ranges: &Vec<ConfigRange>) -> (r: Result<AudioFormat, ErrorKind>)
    ensures
        r == match selected_format(ranges@) {
            Some(format) => if format.valid() {
                Ok::<AudioFormat, ErrorKind>(format)
            } else {
                Err(ErrorKind::DeviceSetupError)
            },
            None => Err(ErrorKind::DeviceSetupError),
        },
{
    if ranges.len() == 0 {
        return Err(ErrorKind::DeviceSetupError);
    }
    let first: ConfigRange = ranges[0];
    let chosen: Option<AudioFormat> = if first.offers_rate(PREFERRED_SAMPLE_RATE) {
        AudioFormat::new(PREFERRED_SAMPLE_RATE, first.channels)
    } else if ranges.len() >= 2 {
        let second: ConfigRange = ranges[1];
        AudioFormat::new(second.max_sample_rate, second.channels)
    } else {
        AudioFormat::new(first.max_sample_rate, first.channels)
    };
    match chosen {
        Some(format) => Ok(format),
        None => Err(ErrorKind::DeviceSetupError),
    }
}

} // verus!
