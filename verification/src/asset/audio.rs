//! Audio data.

use vstd::prelude::*;
use crate::audio::AudioSpec;

verus! {

/// Audio data.
pub struct Audio {
    /// The raw audio data.
    data: Vec<u8>,
    /// The format of the audio data.
    spec: AudioSpec,
}

impl Audio {
    /// The raw audio data.
    pub closed spec fn samples(&self) -> Seq<u8> {
        self.data@
    }

    /// The format of the audio data.
    pub closed spec fn format(&self) -> AudioSpec {
        self.spec
    }

    /// Returns audio holding raw data in a format.
    pub fn from_parts(data: Vec<u8>, spec: AudioSpec) -> (r: Self)
        ensures
            r.samples() == data@,
            r.format() == spec,
    {
        Audio { data, spec }
    }

    /// Returns the [`AudioSpec`] associated with the audio.
    pub fn spec(&self) -> (r: &AudioSpec)
        ensures
            *r == self.format(),
    {
        &self.spec
    }

    /// Returns a reference to the raw data of the audio.
    pub fn data(&self) -> (r: &[u8])
        ensures
            r@ == self.samples(),
    {
        self.data.as_slice()
    }
}

} // verus!
