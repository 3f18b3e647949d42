//! Stream configuration and its mapping to container header parameters.

use vstd::prelude::*;

verus! {

/// Native encoding of the samples a capture device delivers.
#[derive(Clone, Copy, Debug, PartialEq, Eq, Structural)]
pub enum SampleFormat {
    Int16,
    Float32,
}

/// Sample encoding a segment container distinguishes: integer or
/// floating-point linear PCM.
#[derive(Clone, Copy, Debug, PartialEq, Eq, Structural)]
pub enum SampleEncoding {
    Int,
    Float,
}

impl SampleFormat {
    /// Whether this device format carries floating-point samples.
    pub open spec fn spec_is_float(self) -> bool {
        self is Float32
    }

    /// Byte width of one sample in this format.
    pub open spec fn spec_sample_size(self) -> u16 {
        match self {
            SampleFormat::Int16 => 2,
            SampleFormat::Float32 => 4,
        }
    }

    pub fn is_float(self) -> (r: bool)
        ensures
            r == self.spec_is_float(),
    {
        match self {
            SampleFormat::Float32 => true,
            SampleFormat::Int16 => false,
        }
    }

    pub fn sample_size(self) -> (n: u16)
        ensures
            n == self.spec_sample_size(),
    {
        match self {
            SampleFormat::Int16 => 2,
            SampleFormat::Float32 => 4,
        }
    }
}

/// The capture configuration, fixed for the life of the process.
#[derive(Clone, Copy, Debug, PartialEq, Eq, Structural)]
pub struct StreamConfig {
    pub channels: u16,
    pub sample_rate: u32,
    pub buffer_min: u32,
    pub buffer_max: u32,
    pub format: SampleFormat,
}

impl StreamConfig {
    /// The configuration invariant: at least one channel and a positive rate.
    pub open spec fn wf(self) -> bool {
        &&& self.channels >= 1
        &&& self.sample_rate >= 1
    }

    /// Builds a configuration; yields `Some` exactly when the invariant
    /// (`channels >= 1`, `sample_rate >= 1`) holds of the arguments.
    pub fn new(
        channels: u16,
        sample_rate: u32,
        buffer_min: u32,
        buffer_max: u32,
        format: SampleFormat,
    ) -> (r: Option<StreamConfig>)
        ensures
            r is Some <==> channels >= 1 && sample_rate >= 1,
            r is Some ==> {
                &&& r->0.channels == channels
                &&& r->0.sample_rate == sample_rate
                &&& r->0.buffer_min == buffer_min
                &&& r->0.buffer_max == buffer_max
                &&& r->0.format == format
                &&& r->0.wf()
            },
    {
        if channels >= 1 && sample_rate >= 1 {
            Some(StreamConfig { channels, sample_rate, buffer_min, buffer_max, format })
        } else {
            None
        }
    }
}

/// Container header parameters of one segment file.
#[derive(Clone, Copy, Debug, PartialEq, Eq, Structural)]
pub struct WavSpec {
    pub channels: u16,
    pub sample_rate: u32,
    pub bits_per_sample: u16,
    pub sample_format: SampleEncoding,
}

impl WavSpec {
    /// Well-formed header parameters: the fields describe a stream the
    /// container can declare, with the per-frame and per-second byte counts
    /// inside the header's 16- and 32-bit fields.
    pub open spec fn wf(self) -> bool {
        &&& self.channels >= 1
        &&& self.sample_rate >= 1
        &&& (self.bits_per_sample == 16 || self.bits_per_sample == 32)
        &&& (self.sample_format is Float ==> self.bits_per_sample == 32)
        &&& self.channels * (self.bits_per_sample / 8) <= u16::MAX
        &&& self.sample_rate * self.channels * (self.bits_per_sample / 8) <= u32::MAX
    }
}

/// Container encoding chosen for a device format: floating-point formats are
/// declared as float PCM, everything else as integer PCM.
pub fn sample_format(format: SampleFormat) -> (r: SampleEncoding)
    ensures
        r == (if format.spec_is_float() {
            SampleEncoding::Float
        } else {
            SampleEncoding::Int
        }),
{
    if format.is_float() {
        SampleEncoding::Float
    } else {
        SampleEncoding::Int
    }
}

/// The header parameters a given stream configuration maps to.
pub open spec fn spec_of_config(c: StreamConfig) -> WavSpec {
    WavSpec {
        channels: c.channels,
        sample_rate: c.sample_rate,
        bits_per_sample: (8 * c.format.spec_sample_size()) as u16,
        sample_format: if c.format.spec_is_float() {
            SampleEncoding::Float
        } else {
            SampleEncoding::Int
        },
    }
}

/// Derives the container header parameters from a stream configuration:
/// channel count and sample rate are carried over unchanged, the bit depth is
/// eight times the device sample size, and the encoding flag follows the
/// device format's integer/float kind.
pub fn wav_spec_from_config(config: &StreamConfig) -> (s: WavSpec)
    ensures
        s == spec_of_config(*config),
{
    let bits: u16 = 8 * config.format.sample_size();
    WavSpec {
        channels: config.channels,
        sample_rate: config.sample_rate,
        bits_per_sample: bits,
        sample_format: sample_format(config.format),
    }
}

} // verus!
