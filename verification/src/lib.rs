//! A little game engine: the platform-independent core.
//!
//! This crate holds the engine's logic that does not talk to the platform
//! layer: geometry, colors, input decoding, audio playback bookkeeping, the
//! asset cache, the timing decisions of the main loop, and the Aseprite
//! sprite format together with its *zlib* cel decompression.

pub mod math;
pub mod asset;
pub mod util;
pub mod event;
pub mod audio;
pub mod run;
