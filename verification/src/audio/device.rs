//! Audio devices.

use vstd::prelude::*;

verus! {

/// A unique ID for an audio device. Never zero: the zero ID is used by the
/// platform to signify an invalid or null device.
#[derive(Clone, Copy, PartialEq, Eq, Structural, Hash, Debug)]
pub struct AudioDeviceId(u32);

impl AudioDeviceId {
    #[verifier::type_invariant]
    spec fn nonzero(self) -> bool {
        self.0 != 0
    }

    /// The raw ID.
    pub closed spec fn id(self) -> u32 {
        self.0
    }

    /// The ID for the default audio playback device.
    pub fn default_playback() -> (r: Self)
        ensures
            r.id() == 0xffff_ffff,
    {
        AudioDeviceId(0xffff_ffff)
    }

    /// The ID for the default audio recording device.
    pub fn default_recording() -> (r: Self)
        ensures
            r.id() == 0xffff_fffe,
    {
        AudioDeviceId(0xffff_fffe)
    }

    /// Returns a new audio device ID.
    ///
    /// Returns `None` if `id` is `0`.
    pub fn new(id: u32) -> (r: Option<Self>)
        ensures
            r is Some <==> id != 0,
            r matches Some(d) ==> d.id() == id,
    {
        if id == 0 {
            None
        } else {
            Some(AudioDeviceId(id))
        }
    }

    /// Returns the ID for a raw platform ID, or an error for the zero ID.
    pub fn try_from_raw(id: u32) -> (r: Result<Self, &'static str>)
        ensures
            r is Ok <==> id != 0,
            r matches Ok(d) ==> d.id() == id,
            r matches Err(m) ==> m@ == "`0` is not a valid audio device ID"@,
    {
        match AudioDeviceId::new(id) {
            Some(d) => Ok(d),
            None => Err("`0` is not a valid audio device ID"),
        }
    }

    /// Returns the raw ID.
    pub fn get(self) -> (r: u32)
        ensures
            r == self.id(),
            r != 0,
    {
        proof {
            use_type_invariant(self);
        }
        self.0
    }
}

} // verus!
