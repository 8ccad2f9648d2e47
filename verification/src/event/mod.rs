//! Input events.

pub mod event;
pub mod key;
pub mod mouse;

pub use event::{EventKind, event_kind};
pub use key::{Key, KeyMod};
pub use mouse::{MouseBtn, MouseBtns};
