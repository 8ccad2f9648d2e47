//! Audio formats.

use vstd::prelude::*;

verus! {

/// Platform code of unsigned 8-bit samples.
pub const AUDIO_U8: u32 = 0x0008;
/// Platform code of signed 8-bit samples.
pub const AUDIO_S8: u32 = 0x8008;
/// Platform code of signed 16-bit samples (little-endian).
pub const AUDIO_S16: u32 = 0x8010;
/// Platform code of signed 32-bit samples (little-endian).
pub const AUDIO_S32: u32 = 0x8020;
/// Platform code of 32-bit floating point samples (little-endian).
pub const AUDIO_F32: u32 = 0x8120;
/// Platform code of an unspecified format.
pub const AUDIO_UNKNOWN: u32 = 0x0000;

/// Audio data format.
#[derive(Clone, Copy, PartialEq, Eq, Structural, Hash, Debug)]
pub enum AudioFormat {
    /// Unsigned 8-bit samples.
    U8,
    /// Signed 8-bit samples.
    S8,
    /// Signed 16-bit samples.
    S16,
    /// Signed 32-bit samples.
    S32,
    /// Signed 32-bit floating point samples.
    F32,
    /// Unspecified format.
    Unknown,
}

/// The platform code of a format.
pub open spec fn format_code(f: AudioFormat) -> u32 {
    match f {
        AudioFormat::U8 => AUDIO_U8,
        AudioFormat::S8 => AUDIO_S8,
        AudioFormat::S16 => AUDIO_S16,
        AudioFormat::S32 => AUDIO_S32,
        AudioFormat::F32 => AUDIO_F32,
        AudioFormat::Unknown => AUDIO_UNKNOWN,
    }
}

/// True for the platform codes that have a format.
pub open spec fn is_format_code(code: u32) -> bool {
    code == AUDIO_U8 || code == AUDIO_S8 || code == AUDIO_S16 || code == AUDIO_S32 || code == AUDIO_F32
        || code == AUDIO_UNKNOWN
}

impl AudioFormat {
    /// Returns the format with a platform code.
    pub fn from_code(code: u32) -> (r: Self)
        requires
            is_format_code(code),
        ensures
            r == format_of(code),
            format_code(r) == code,
    {
        match code {
            AUDIO_U8 => AudioFormat::U8,
            AUDIO_S8 => AudioFormat::S8,
            AUDIO_S16 => AudioFormat::S16,
            AUDIO_S32 => AudioFormat::S32,
            AUDIO_F32 => AudioFormat::F32,
            _ => AudioFormat::Unknown,
        }
    }

    /// Returns the platform code of the format.
    pub fn code(self) -> (r: u32)
        ensures
            r == format_code(self),
            is_format_code(r),
    {
        match self {
            AudioFormat::U8 => AUDIO_U8,
            AudioFormat::S8 => AUDIO_S8,
            AudioFormat::S16 => AUDIO_S16,
            AudioFormat::S32 => AUDIO_S32,
            AudioFormat::F32 => AUDIO_F32,
            AudioFormat::Unknown => AUDIO_UNKNOWN,
        }
    }
}

/// The format with a platform code; codes without a format give
/// [`AudioFormat::Unknown`].
pub open spec fn format_of(code: u32) -> AudioFormat {
    if code == AUDIO_U8 {
        AudioFormat::U8
    } else if code == AUDIO_S8 {
        AudioFormat::S8
    } else if code == AUDIO_S16 {
        AudioFormat::S16
    } else if code == AUDIO_S32 {
        AudioFormat::S32
    } else if code == AUDIO_F32 {
        AudioFormat::F32
    } else {
        AudioFormat::Unknown
    }
}

/// Converting a format to its code and back gives the format; converting a
/// code that has a format to its format and back gives the code.
pub proof fn lemma_format_code_roundtrip(f: AudioFormat, code: u32)
    ensures
        format_of(format_code(f)) == f,
        is_format_code(code) ==> format_code(format_of(code)) == code,
{
}

/// A spec converted to platform values and back is the same spec.
pub proof fn lemma_spec_raw_roundtrip(spec: AudioSpec)
    ensures
        ({
            let raw = (format_code(spec.format), spec.channel_count as i32, spec.freq as i32);
            &&& is_format_code(raw.0)
            &&& format_of(raw.0) == spec.format
            &&& raw.1 as u32 == spec.channel_count
            &&& raw.2 as u32 == spec.freq
        }),
{
    let c = spec.channel_count;
    let f = spec.freq;
    assert(c as i32 as u32 == c) by (bit_vector);
    assert(f as i32 as u32 == f) by (bit_vector);
}

/// Format description for audio data.
#[derive(Clone, Copy, PartialEq, Eq, Structural, Hash, Debug)]
pub struct AudioSpec {
    /// Audio data format.
    pub format: AudioFormat,
    /// Number of channels (1 is mono, 2 is stereo, etc.).
    pub channel_count: u32,
    /// Sample frames per second.
    pub freq: u32,
}

impl AudioSpec {
    /// Returns the spec with a platform format code, channel count and
    /// frequency; the counts are reinterpreted as unsigned.
    pub fn from_raw(format: u32, channels: i32, freq: i32) -> (r: Self)
        requires
            is_format_code(format),
        ensures
            r.format == format_of(format),
            r.channel_count == channels as u32,
            r.freq == freq as u32,
    {
        AudioSpec { format: AudioFormat::from_code(format), channel_count: channels as u32, freq: freq as u32 }
    }

    /// Returns the spec with a platform format code, channel count and
    /// frequency, or `None` when the code has no format.
    pub fn try_from_raw(format: u32, channels: i32, freq: i32) -> (r: Option<Self>)
        ensures
            r is Some <==> is_format_code(format),
            r matches Some(spec) ==> spec.format == format_of(format) && spec.channel_count == channels as u32
                && spec.freq == freq as u32,
    {
        if format == AUDIO_U8 || format == AUDIO_S8 || format == AUDIO_S16 || format == AUDIO_S32
            || format == AUDIO_F32 || format == AUDIO_UNKNOWN {
            Some(AudioSpec::from_raw(format, channels, freq))
        } else {
            None
        }
    }

    /// Returns the platform format code, channel count and frequency; the
    /// counts are reinterpreted as signed.
    pub fn to_raw(&self) -> (r: (u32, i32, i32))
        ensures
            r.0 == format_code(self.format),
            r.1 == self.channel_count as i32,
            r.2 == self.freq as i32,
    {
        (self.format.code(), self.channel_count as i32, self.freq as i32)
    }
}

} // verus!
