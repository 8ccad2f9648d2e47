//! Assets: data loaded from files or byte streams.
//!
//! A [`Cached`] handle shares one loaded asset between its users, and an
//! [`AssetCache`] keeps, for each path, the entry of the asset loaded from
//! it, so that a path is loaded again only when its asset is gone.

pub mod ase;
pub mod audio;
pub mod cache;

pub use ase::Aseprite;
pub use audio::Audio;
pub use cache::{AssetCache, Cached};
