//! Capture configuration: the sample format, and the resolved set of
//! user parameters that drive the rest of the pipeline.

use vstd::prelude::*;

verus! {

/// The closed set of sample representations the pipeline supports.
/// The choice is made once at startup and fixes the wire width and
/// numeric semantics for the life of the stream.
#[derive(Clone, Copy, PartialEq, Eq, Structural, Debug)]
pub enum SampleFormat {
    /// 16-bit signed integer samples.
    S16,
    /// 32-bit signed integer samples.
    S32,
    /// 32-bit IEEE-754 samples, carried through the pipeline as their
    /// 32-bit patterns.
    F32,
}

impl SampleFormat {
    /// Bytes each sample of this format occupies on the wire.
    pub open spec fn spec_width(self) -> nat {
        match self {
            SampleFormat::S16 => 2,
            SampleFormat::S32 => 4,
            SampleFormat::F32 => 4,
        }
    }

    /// Bytes each sample of this format occupies on the wire.
    pub fn width(&self) -> (r: usize)
        ensures
            r == self.spec_width(),
    {
        match self {
            SampleFormat::S16 => 2,
            SampleFormat::S32 => 4,
            SampleFormat::F32 => 4,
        }
    }

    /// The format a given name selects, if any.
    pub open spec fn spec_of_name(name: Seq<char>) -> Option<SampleFormat> {
        if name == "S16"@ {
            Some(SampleFormat::S16)
        } else if name == "S32"@ {
            Some(SampleFormat::S32)
        } else if name == "F32"@ {
            Some(SampleFormat::F32)
        } else {
            None
        }
    }

    /// Resolves a format name. Any name outside the closed set is
    /// rejected, so an invalid format is caught before any device is
    /// queried.
    pub fn of_name(name: &str) -> (r: Option<SampleFormat>)
        ensures
            r == Self::spec_of_name(name@),
    {
        proof {
            reveal_strlit("S16");
            reveal_strlit("S32");
            reveal_strlit("F32");
        }
        let len = name.unicode_len();
        if len != 3 {
            return None;
        }
        let c0 = name.get_char(0);
        let c1 = name.get_char(1);
        let c2 = name.get_char(2);
        if c0 == 'S' && c1 == '1' && c2 == '6' {
            proof {
                assert(name@ =~= "S16"@);
            }
            Some(SampleFormat::S16)
        } else if c0 == 'S' && c1 == '3' && c2 == '2' {
            proof {
                assert(name@ =~= "S32"@);
            }
            Some(SampleFormat::S32)
        } else if c0 == 'F' && c1 == '3' && c2 == '2' {
            proof {
                assert(name@ =~= "F32"@);
            }
            Some(SampleFormat::F32)
        } else {
            None
        }
    }
}

/// Why a set of user parameters was rejected.
#[derive(Clone, Copy, PartialEq, Eq, Structural, Debug)]
pub enum ValidationError {
    /// The sample-rate override is not a positive rate.
    InvalidSampleRate,
    /// The format name is outside the closed set of supported formats.
    UnknownFormat,
    /// The buffer size is not a positive number of frames.
    InvalidBufferSize,
}

impl ValidationError {
    /// What the one-line report of this error says.
    pub open spec fn spec_message(self) -> Seq<char> {
        match self {
            ValidationError::InvalidSampleRate => "sample rate must be positive"@,
            ValidationError::UnknownFormat => "unknown sample format"@,
            ValidationError::InvalidBufferSize => "buffer size must be positive"@,
        }
    }

    /// The one-line report of this error.
    pub fn message(&self) -> (r: String)
        ensures
            r@ == self.spec_message(),
    {
        match self {
            ValidationError::InvalidSampleRate => "sample rate must be positive".to_owned(),
            ValidationError::UnknownFormat => "unknown sample format".to_owned(),
            ValidationError::InvalidBufferSize => "buffer size must be positive".to_owned(),
        }
    }
}

/// The resolved capture parameters. Built once at startup and never
/// mutated. Sample rates are carried in millihertz so that fractional
/// rates keep an exact integer representation.
#[derive(Clone, Copy, PartialEq, Eq, Structural, Debug)]
pub struct CaptureConfig {
    /// Overrides the device's default sample rate when present,
    /// in millihertz.
    pub sample_rate_mhz: Option<u64>,
    /// The sample representation the whole pipeline is fixed to.
    pub format: SampleFormat,
    /// Frames delivered per callback.
    pub frames_per_buffer: u32,
    /// Channel-major sample ordering instead of frame-major.
    pub deinterleaved: bool,
}

impl CaptureConfig {
    /// What resolution guarantees of every configuration it returns:
    /// a present sample-rate override is positive, and the buffer size
    /// is positive.
    pub open spec fn valid(self) -> bool {
        &&& (self.sample_rate_mhz matches Some(r) ==> r > 0)
        &&& self.frames_per_buffer > 0
    }
}

/// Resolves user parameters into a capture configuration, or rejects
/// them. The checks run in the order the parameters are listed: a
/// non-positive sample-rate override is reported first, then an
/// unknown format name, then a non-positive buffer size. An invalid
/// format is so rejected before any device is queried.
pub fn resolve_config(
    sample_rate_mhz: Option<u64>,
    format_name: &str,
    frames_per_buffer: u32,
    deinterleaved: bool,
) -> (r: Result<CaptureConfig, ValidationError>)
    ensures
        r matches Ok(c) ==> {
            &&& c.valid()
            &&& c.sample_rate_mhz == sample_rate_mhz
            &&& Some(c.format) == SampleFormat::spec_of_name(format_name@)
            &&& c.frames_per_buffer == frames_per_buffer
            &&& c.deinterleaved == deinterleaved
        },
        r is Ok <==> {
            &&& (sample_rate_mhz matches Some(s) ==> s > 0)
            &&& SampleFormat::spec_of_name(format_name@) is Some
            &&& frames_per_buffer > 0
        },
        r == Err::<CaptureConfig, _>(ValidationError::InvalidSampleRate) <==> (sample_rate_mhz
            matches Some(s) && s == 0),
        r == Err::<CaptureConfig, _>(ValidationError::UnknownFormat) <==> {
            &&& (sample_rate_mhz matches Some(s) ==> s > 0)
            &&& SampleFormat::spec_of_name(format_name@) is None
        },
        r == Err::<CaptureConfig, _>(ValidationError::InvalidBufferSize) <==> {
            &&& (sample_rate_mhz matches Some(s) ==> s > 0)
            &&& SampleFormat::spec_of_name(format_name@) is Some
            &&& frames_per_buffer == 0
        },
{
    if let Some(rate) = sample_rate_mhz {
        if rate == 0 {
            return Err(ValidationError::InvalidSampleRate);
        }
    }
    let format = match SampleFormat::of_name(format_name) {
        Some(f) => f,
        None => {
            return Err(ValidationError::UnknownFormat);
        },
    };
    if frames_per_buffer == 0 {
        return Err(ValidationError::InvalidBufferSize);
    }
    Ok(CaptureConfig { sample_rate_mhz, format, frames_per_buffer, deinterleaved })
}

} // verus!
