//! Math types and functions.

pub mod color;
pub mod fns;
pub mod orientation;
pub mod vector;
pub mod rect;
pub mod traits;

pub use color::Color;
pub use fns::{bresenham_circle, checked_bresenham_circle, remap};
pub use orientation::{Axis, Dir, RadialDir, Corner, Face};
pub use vector::{Vec2, Vec3, Vec4};
pub use rect::Rect;
pub use traits::{Zero, One};
