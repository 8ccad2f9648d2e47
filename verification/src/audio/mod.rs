//! Audio playback.

pub mod device;
pub mod player;
pub mod spec;

pub use device::AudioDeviceId;
pub use player::{AudioPlaybackData, SeekFrom};
pub use spec::{AudioFormat, AudioSpec};
