//! Types for representing mouse input.

use vstd::prelude::*;

verus! {

/// Represents a mouse button.
#[derive(Clone, Copy, PartialEq, Eq, Structural, Hash, Debug)]
pub struct MouseBtn(u8);

/// Platform mouse button index of the left button.
pub const BUTTON_LEFT: u8 = 1;
/// Platform mouse button index of the middle button.
pub const BUTTON_MIDDLE: u8 = 2;
/// Platform mouse button index of the right button.
pub const BUTTON_RIGHT: u8 = 3;
/// Platform mouse button index of the first extra button.
pub const BUTTON_X1: u8 = 4;
/// Platform mouse button index of the second extra button.
pub const BUTTON_X2: u8 = 5;

/// Platform button-state bit of the left button.
pub const BUTTON_LMASK: u32 = 1;
/// Platform button-state bit of the middle button.
pub const BUTTON_MMASK: u32 = 2;
/// Platform button-state bit of the right button.
pub const BUTTON_RMASK: u32 = 4;
/// Platform button-state bit of the first extra button.
pub const BUTTON_X1MASK: u32 = 8;
/// Platform button-state bit of the second extra button.
pub const BUTTON_X2MASK: u32 = 16;

/// The engine's number of the button with a platform button index (1 left,
/// 2 middle, 3 right, 4 and 5 extra): left is 0, right 1, middle 2, and the
/// extra buttons follow.
pub open spec fn button_of_index(index: u8) -> u8 {
    if index == BUTTON_LEFT {
        0
    } else if index == BUTTON_RIGHT {
        1
    } else if index == BUTTON_MIDDLE {
        2
    } else if index == BUTTON_X1 {
        3
    } else {
        4
    }
}

impl MouseBtn {
    /// The button's number.
    pub closed spec fn index_spec(self) -> u8 {
        self.0
    }

    /// Returns the left mouse button.
    pub fn left() -> (r: Self)
        ensures
            r.index_spec() == 0,
    {
        MouseBtn(0)
    }

    /// Returns the right mouse button.
    pub fn right() -> (r: Self)
        ensures
            r.index_spec() == 1,
    {
        MouseBtn(1)
    }

    /// Returns the middle mouse button.
    pub fn middle() -> (r: Self)
        ensures
            r.index_spec() == 2,
    {
        MouseBtn(2)
    }

    /// Returns the button's number.
    pub fn index(self) -> (r: u8)
        ensures
            r == self.index_spec(),
    {
        self.0
    }

    /// Returns a value representing the nth additional mouse button, starting
    /// from 0, after the left, right, and middle buttons.
    pub fn additional(n: u8) -> (r: Self)
        requires
            n <= 252,
        ensures
            r.index_spec() == n + 3,
    {
        MouseBtn(n + 3)
    }

    /// Returns the [`MouseBtn`] value corresponding to a platform mouse button
    /// index.
    pub fn from_sdl_index(index: u8) -> (r: Self)
        requires
            BUTTON_LEFT <= index <= BUTTON_X2,
        ensures
            r.index_spec() == button_of_index(index),
    {
        match index {
            BUTTON_LEFT => MouseBtn(0),
            BUTTON_RIGHT => MouseBtn(1),
            BUTTON_MIDDLE => MouseBtn(2),
            BUTTON_X1 => MouseBtn::additional(0),
            _ => MouseBtn::additional(1),
        }
    }
}

/// A bitmask of mouse buttons: bit `n` is the button numbered `n`.
#[derive(Clone, Copy, PartialEq, Eq, Structural, Hash, Debug)]
pub struct MouseBtns(u32);

/// The bit of a button number.
pub open spec fn bit(n: u8) -> u32 {
    (1u32 << n) as u32
}

/// The engine's mask for a platform button-state mask: each platform bit is
/// moved to the bit of its button's number.
pub open spec fn btns_of_flags(flags: u32) -> u32 {
    (if flags & BUTTON_LMASK != 0 { 1u32 } else { 0u32 })
    | (if flags & BUTTON_RMASK != 0 { 2u32 } else { 0u32 })
    | (if flags & BUTTON_MMASK != 0 { 4u32 } else { 0u32 })
    | (if flags & BUTTON_X1MASK != 0 { 8u32 } else { 0u32 })
    | (if flags & BUTTON_X2MASK != 0 { 16u32 } else { 0u32 })
}

impl MouseBtns {
    /// The raw bits of the mask.
    pub closed spec fn bits_spec(self) -> u32 {
        self.0
    }

    /// The mask with the given raw bits.
    pub closed spec fn from_bits_spec(bits: u32) -> Self {
        MouseBtns(bits)
    }

    /// An empty mask.
    pub fn none() -> (r: Self)
        ensures
            r.bits_spec() == 0,
    {
        MouseBtns(0)
    }

    /// Returns the raw bits of the mask.
    pub fn bits(self) -> (r: u32)
        ensures
            r == self.bits_spec(),
    {
        self.0
    }

    /// Returns a mask for a button.
    pub fn mask(btn: MouseBtn) -> (r: Self)
        requires
            btn.index_spec() < 32,
        ensures
            r.bits_spec() == bit(btn.index_spec()),
    {
        MouseBtns(1u32 << btn.0)
    }

    /// Returns the value of a button.
    pub fn btn(self, btn: MouseBtn) -> (r: bool)
        requires
            btn.index_spec() < 32,
        ensures
            r == (self.bits_spec() & bit(btn.index_spec()) != 0),
    {
        self.0 & MouseBtns::mask(btn).0 != 0
    }

    /// Returns the left mouse button value.
    pub fn left(self) -> (r: bool)
        ensures
            r == (self.bits_spec() & 1 != 0),
    {
        self.0 & 1 != 0
    }

    /// Returns the right mouse button value.
    pub fn right(self) -> (r: bool)
        ensures
            r == (self.bits_spec() & 2 != 0),
    {
        self.0 & 2 != 0
    }

    /// Returns the middle mouse button value.
    pub fn middle(self) -> (r: bool)
        ensures
            r == (self.bits_spec() & 4 != 0),
    {
        self.0 & 4 != 0
    }

    /// Returns an additional mouse button value.
    ///
    /// See [`MouseBtn::additional()`] for details.
    pub fn additional(self, n: u8) -> (r: bool)
        requires
            n < 29,
        ensures
            r == (self.bits_spec() & bit((n + 3) as u8) != 0),
    {
        self.0 & (1u32 << MouseBtn::additional(n).0) != 0
    }

    /// Returns the engine's mask for a platform button-state mask.
    pub fn from_flags(flags: u32) -> (r: Self)
        ensures
            r.bits_spec() == btns_of_flags(flags),
    {
        if flags == 0 {
            proof {
                assert(btns_of_flags(0) == 0) by (bit_vector);
            }
            MouseBtns(0)
        } else {
            let left: u32 = if flags & BUTTON_LMASK != 0 { 1 } else { 0 };
            let right: u32 = if flags & BUTTON_RMASK != 0 { 2 } else { 0 };
            let middle: u32 = if flags & BUTTON_MMASK != 0 { 4 } else { 0 };
            let x1: u32 = if flags & BUTTON_X1MASK != 0 { 8 } else { 0 };
            let x2: u32 = if flags & BUTTON_X2MASK != 0 { 16 } else { 0 };
            let btns = left | right | middle | x1 | x2;
            MouseBtns(btns)
        }
    }
}

/// The mask made from a platform button-state mask holds exactly the
/// buttons whose platform bits are set: for each platform button index, the
/// bit `index - 1` of the platform mask is set exactly when the bit of the
/// button that [`MouseBtn::from_sdl_index`] gives for that index is set.
pub proof fn lemma_flags_match_indices(flags: u32, index: u8)
    requires
        BUTTON_LEFT <= index <= BUTTON_X2,
    ensures
        (flags & ((1u32 << ((index - 1) as u32)) as u32) != 0) == (btns_of_flags(flags) & bit(button_of_index(index)) != 0),
{
    if index == 1 {
        assert((flags & ((1u32 << 0u32) as u32) != 0) == (btns_of_flags(flags) & ((1u32 << 0u8) as u32) != 0)) by (bit_vector);
    } else if index == 2 {
        assert((flags & ((1u32 << 1u32) as u32) != 0) == (btns_of_flags(flags) & ((1u32 << 2u8) as u32) != 0)) by (bit_vector);
    } else if index == 3 {
        assert((flags & ((1u32 << 2u32) as u32) != 0) == (btns_of_flags(flags) & ((1u32 << 1u8) as u32) != 0)) by (bit_vector);
    } else if index == 4 {
        assert((flags & ((1u32 << 3u32) as u32) != 0) == (btns_of_flags(flags) & ((1u32 << 3u8) as u32) != 0)) by (bit_vector);
    } else {
        assert((flags & ((1u32 << 4u32) as u32) != 0) == (btns_of_flags(flags) & ((1u32 << 4u8) as u32) != 0)) by (bit_vector);
    }
}

/// The left, right and middle buttons of a mask are the buttons numbered 0,
/// 1 and 2, the numbers that [`MouseBtn::left`], [`MouseBtn::right`] and
/// [`MouseBtn::middle`] carry.
pub proof fn lemma_named_buttons(bits: u32)
    ensures
        (bits & 1 != 0) == (bits & bit(0) != 0),
        (bits & 2 != 0) == (bits & bit(1) != 0),
        (bits & 4 != 0) == (bits & bit(2) != 0),
{
    assert(bit(0) == 1u32) by (bit_vector);
    assert(bit(1) == 2u32) by (bit_vector);
    assert(bit(2) == 4u32) by (bit_vector);
}

/// The mask of the buttons set in both masks.
impl std::ops::BitAnd for MouseBtns {
    type Output = Self;

    fn bitand(self, rhs: Self) -> (r: Self)
        ensures
            r.bits_spec() == self.bits_spec() & rhs.bits_spec(),
    {
        MouseBtns(self.0 & rhs.0)
    }
}

impl vstd::std_specs::ops::BitAndSpecImpl for MouseBtns {
    open spec fn obeys_bitand_spec() -> bool {
        true
    }

    open spec fn bitand_req(self, rhs: Self) -> bool {
        true
    }

    open spec fn bitand_spec(self, rhs: Self) -> Self {
        MouseBtns::from_bits_spec(self.bits_spec() & rhs.bits_spec())
    }
}

/// Keeps in the mask the buttons set in both masks.
impl std::ops::BitAndAssign for MouseBtns {
    fn bitand_assign(&mut self, rhs: Self)
        ensures
            final(self).bits_spec() == old(self).bits_spec() & rhs.bits_spec(),
    {
        self.0 &= rhs.0
    }
}

/// The mask of the buttons set in either mask.
impl std::ops::BitOr for MouseBtns {
    type Output = Self;

    fn bitor(self, rhs: Self) -> (r: Self)
        ensures
            r.bits_spec() == self.bits_spec() | rhs.bits_spec(),
    {
        MouseBtns(self.0 | rhs.0)
    }
}

impl vstd::std_specs::ops::BitOrSpecImpl for MouseBtns {
    open spec fn obeys_bitor_spec() -> bool {
        true
    }

    open spec fn bitor_req(self, rhs: Self) -> bool {
        true
    }

    open spec fn bitor_spec(self, rhs: Self) -> Self {
        MouseBtns::from_bits_spec(self.bits_spec() | rhs.bits_spec())
    }
}

/// Keeps in the mask the buttons set in either mask.
impl std::ops::BitOrAssign for MouseBtns {
    fn bitor_assign(&mut self, rhs: Self)
        ensures
            final(self).bits_spec() == old(self).bits_spec() | rhs.bits_spec(),
    {
        self.0 |= rhs.0
    }
}

/// The mask of the buttons set in exactly one mask.
impl std::ops::BitXor for MouseBtns {
    type Output = Self;

    fn bitxor(self, rhs: Self) -> (r: Self)
        ensures
            r.bits_spec() == self.bits_spec() ^ rhs.bits_spec(),
    {
        MouseBtns(self.0 ^ rhs.0)
    }
}

impl vstd::std_specs::ops::BitXorSpecImpl for MouseBtns {
    open spec fn obeys_bitxor_spec() -> bool {
        true
    }

    open spec fn bitxor_req(self, rhs: Self) -> bool {
        true
    }

    open spec fn bitxor_spec(self, rhs: Self) -> Self {
        MouseBtns::from_bits_spec(self.bits_spec() ^ rhs.bits_spec())
    }
}

/// Keeps in the mask the buttons set in exactly one mask.
impl std::ops::BitXorAssign for MouseBtns {
    fn bitxor_assign(&mut self, rhs: Self)
        ensures
            final(self).bits_spec() == old(self).bits_spec() ^ rhs.bits_spec(),
    {
        self.0 ^= rhs.0
    }
}

} // verus!
