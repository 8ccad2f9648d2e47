//! Mathematical traits.

use vstd::prelude::*;

verus! {

/// Types that have a zero value.
pub trait Zero {
    /// The zero value.
    const ZERO: Self;
}

/// Types that have a one value.
pub trait One {
    /// The one value.
    const ONE: Self;
}

impl Zero for i8 { const ZERO: Self = 0; }
impl Zero for i16 { const ZERO: Self = 0; }
impl Zero for i32 { const ZERO: Self = 0; }
impl Zero for i64 { const ZERO: Self = 0; }
impl Zero for i128 { const ZERO: Self = 0; }
impl Zero for isize { const ZERO: Self = 0; }
impl Zero for u8 { const ZERO: Self = 0; }
impl Zero for u16 { const ZERO: Self = 0; }
impl Zero for u32 { const ZERO: Self = 0; }
impl Zero for u64 { const ZERO: Self = 0; }
impl Zero for u128 { const ZERO: Self = 0; }
impl Zero for usize { const ZERO: Self = 0; }

impl One for i8 { const ONE: Self = 1; }
impl One for i16 { const ONE: Self = 1; }
impl One for i32 { const ONE: Self = 1; }
impl One for i64 { const ONE: Self = 1; }
impl One for i128 { const ONE: Self = 1; }
impl One for isize { const ONE: Self = 1; }
impl One for u8 { const ONE: Self = 1; }
impl One for u16 { const ONE: Self = 1; }
impl One for u32 { const ONE: Self = 1; }
impl One for u64 { const ONE: Self = 1; }
impl One for u128 { const ONE: Self = 1; }
impl One for usize { const ONE: Self = 1; }

} // verus!
