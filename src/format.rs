//! Device/format negotiation: the first configuration the output device
//! offers, at its highest rate, and the resampler format that matches its
//! sample type.
use vstd::prelude::*;
use crate::frame::{Layout, PcmFormat};

verus! {

/// The numeric sample types an output device may ask for.
#[derive(Clone, Copy, Debug, PartialEq, Eq, Structural)]
pub enum SampleFormat {
    I8,
    I16,
    I32,
    I64,
    U8,
    U16,
    U32,
    U64,
    F32,
    F64,
}

/// A fatal error of setting up or running playback.
#[derive(Clone, Copy, Debug, PartialEq, Eq, Structural)]
pub enum SetupError {
    /// The device offers no output configuration.
    NoSupportedConfig,
    /// The device's sample type has no resampler equivalent.
    UnsupportedFormat,
    /// The resampler could take the sample type, but the player does not
    /// write it to the device.
    UnimplementedOutput,
}

/// The resampler format matching a device sample type, if there is one.
pub open spec fn resampler_format(f: SampleFormat) -> Option<PcmFormat> {
    match f {
        SampleFormat::I16 => Some(PcmFormat::I16(Layout::Packed)),
        SampleFormat::I32 => Some(PcmFormat::I32(Layout::Packed)),
        SampleFormat::I64 => Some(PcmFormat::I64(Layout::Packed)),
        SampleFormat::U8 => Some(PcmFormat::U8(Layout::Packed)),
        SampleFormat::F32 => Some(PcmFormat::F32(Layout::Packed)),
        SampleFormat::F64 => Some(PcmFormat::F64(Layout::Packed)),
        _ => None,
    }
}

impl SampleFormat {
    /// The packed resampler format with the same sample type; the narrow
    /// signed and the unsigned wide types have none.
    pub fn as_ffmpeg_sample(&self) -> (r: Result<PcmFormat, SetupError>)
        ensures
            match resampler_format(*self) {
                Some(p) => r == Ok::<PcmFormat, SetupError>(p),
                None => r == Err::<PcmFormat, SetupError>(SetupError::UnsupportedFormat),
            },
    {
        match self {
            SampleFormat::I16 => Ok(PcmFormat::I16(Layout::Packed)),
            SampleFormat::I32 => Ok(PcmFormat::I32(Layout::Packed)),
            SampleFormat::I64 => Ok(PcmFormat::I64(Layout::Packed)),
            SampleFormat::U8 => Ok(PcmFormat::U8(Layout::Packed)),
            SampleFormat::F32 => Ok(PcmFormat::F32(Layout::Packed)),
            SampleFormat::F64 => Ok(PcmFormat::F64(Layout::Packed)),
            _ => Err(SetupError::UnsupportedFormat),
        }
    }
}

/// One range of configurations an output device supports.
#[derive(Clone, Copy, Debug, PartialEq, Eq, Structural)]
pub struct ConfigRange {
    pub channels: u16,
    pub min_rate: u32,
    pub max_rate: u32,
    pub format: SampleFormat,
}

/// The configuration playback runs with, fixed once at startup.
#[derive(Clone, Copy, Debug, PartialEq, Eq, Structural)]
pub struct StreamConfig {
    pub channels: u16,
    pub rate: u32,
    pub format: SampleFormat,
    /// What the resampler is asked to produce.
    pub resample_format: PcmFormat,
}

/// The outcome of negotiating over the ranges a device offers, first first.
pub open spec fn negotiated(ranges: Seq<ConfigRange>) -> Result<StreamConfig, SetupError> {
    if ranges.len() == 0 {
        Err(SetupError::NoSupportedConfig)
    } else {
        let c = ranges[0];
        match resampler_format(c.format) {
            None => Err(SetupError::UnsupportedFormat),
            Some(p) => if c.format != SampleFormat::F32 {
                Err(SetupError::UnimplementedOutput)
            } else {
                Ok(
                    StreamConfig {
                        channels: c.channels,
                        rate: c.max_rate,
                        format: c.format,
                        resample_format: p,
                    },
                )
            },
        }
    }
}

/// Takes the first range the device offers at its highest rate, and the
/// matching resampler format; fails if there is no range, if the sample type
/// has no resampler equivalent, or if the player cannot write that type.
pub fn negotiate(ranges: &Vec<ConfigRange>) -> (r: Result<StreamConfig, SetupError>)
    ensures
        r == negotiated(ranges@),
{
    if ranges.len() == 0 {
        return Err(SetupError::NoSupportedConfig);
    }
    let c = ranges[0];
    let p = match c.format.as_ffmpeg_sample() {
        Ok(p) => p,
        Err(e) => return Err(e),
    };
    if c.format != SampleFormat::F32 {
        return Err(SetupError::UnimplementedOutput);
    }
    Ok(StreamConfig { channels: c.channels, rate: c.max_rate, format: c.format, resample_format: p })
}

} // verus!
