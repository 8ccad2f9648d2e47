//! Utilities.

pub mod strings;
