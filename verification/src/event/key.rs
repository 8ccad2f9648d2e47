//! Types for representing keyboard input.

use vstd::prelude::*;

verus! {

/// Represents a key on a keyboard.
///
/// Character keys are always represented in "lowercase", with the character
/// they would produce if no modifier keys were held.
///
/// Although some control and whitespace keys have corresponding unicode
/// characters, they're usually represented with their own items.
#[derive(Clone, Copy, PartialEq, Eq, Structural, Hash, Debug)]
pub enum Key {
    /// A unicode character.
    Char(char),
    // Control keys
    Backspace,
    CapsLock,
    Delete,
    Down,
    Escape,
    F1,
    F2,
    F3,
    F4,
    F5,
    F6,
    F7,
    F8,
    F9,
    F10,
    F11,
    F12,
    LAlt,
    LCtrl,
    Left,
    LShift,
    LSuper,
    RAlt,
    RCtrl,
    Return,
    Right,
    RShift,
    RSuper,
    Space,
    Tab,
    Up,
    /// An unknown key.
    Unknown,
}

/// True for the keycodes of keys that are represented by their character:
/// the printable ASCII characters other than space and the uppercase
/// letters, and the plus-minus sign.
pub open spec fn is_char_keycode(code: u32) -> bool {
    (0x21 <= code <= 0x40) || (0x5b <= code <= 0x7e) || code == 0xb1
}

/// The key that a platform keycode stands for.
pub open spec fn key_of(code: u32) -> Key {
    if is_char_keycode(code) {
        Key::Char((code as u8) as char)
    } else if code == 0x8 {
        Key::Backspace
    } else if code == 0x40000039 {
        Key::CapsLock
    } else if code == 0x7f {
        Key::Delete
    } else if code == 0x40000051 {
        Key::Down
    } else if code == 0x1b {
        Key::Escape
    } else if code == 0x4000003a {
        Key::F1
    } else if code == 0x4000003b {
        Key::F2
    } else if code == 0x4000003c {
        Key::F3
    } else if code == 0x4000003d {
        Key::F4
    } else if code == 0x4000003e {
        Key::F5
    } else if code == 0x4000003f {
        Key::F6
    } else if code == 0x40000040 {
        Key::F7
    } else if code == 0x40000041 {
        Key::F8
    } else if code == 0x40000042 {
        Key::F9
    } else if code == 0x40000043 {
        Key::F10
    } else if code == 0x40000044 {
        Key::F11
    } else if code == 0x40000045 {
        Key::F12
    } else if code == 0x400000e2 {
        Key::LAlt
    } else if code == 0x400000e0 {
        Key::LCtrl
    } else if code == 0x40000050 {
        Key::Left
    } else if code == 0x400000e1 {
        Key::LShift
    } else if code == 0x400000e3 {
        Key::LSuper
    } else if code == 0x400000e6 {
        Key::RAlt
    } else if code == 0x400000e4 {
        Key::RCtrl
    } else if code == 0xd {
        Key::Return
    } else if code == 0x4000004f {
        Key::Right
    } else if code == 0x400000e5 {
        Key::RShift
    } else if code == 0x400000e7 {
        Key::RSuper
    } else if code == 0x20 {
        Key::Space
    } else if code == 0x9 {
        Key::Tab
    } else if code == 0x40000052 {
        Key::Up
    } else {
        Key::Unknown
    }
}

/// A keycode of a character key stands for the key of that character, so
/// [`Key::char`] gives back the keycode's character; the digit keycodes
/// stand for the keys whose [`Key::num`] is the digit's value.
pub proof fn lemma_char_keycodes(code: u32)
    requires
        is_char_keycode(code),
    ensures
        key_of(code) == Key::Char((code as u8) as char),
        (code as u8) as char as u32 == code,
        0x30 <= code <= 0x39 ==> '0' <= (code as u8) as char <= '9'
            && ((code as u8) as char as u32 - '0' as u32) as u8 == code - 0x30,
{
}

/// The platform keycode of each key, as the platform's keycode constants
/// give it: a character key has its character's code when that is the
/// keycode of a character key; the unknown key has none.
pub open spec fn keycode(key: Key) -> Option<u32> {
    match key {
        Key::Char(c) => if is_char_keycode(c as u32) { Some(c as u32) } else { None },
        Key::Backspace => Some(0x8),
        Key::CapsLock => Some(0x40000039),
        Key::Delete => Some(0x7f),
        Key::Down => Some(0x40000051),
        Key::Escape => Some(0x1b),
        Key::F1 => Some(0x4000003a),
        Key::F2 => Some(0x4000003b),
        Key::F3 => Some(0x4000003c),
        Key::F4 => Some(0x4000003d),
        Key::F5 => Some(0x4000003e),
        Key::F6 => Some(0x4000003f),
        Key::F7 => Some(0x40000040),
        Key::F8 => Some(0x40000041),
        Key::F9 => Some(0x40000042),
        Key::F10 => Some(0x40000043),
        Key::F11 => Some(0x40000044),
        Key::F12 => Some(0x40000045),
        Key::LAlt => Some(0x400000e2),
        Key::LCtrl => Some(0x400000e0),
        Key::Left => Some(0x40000050),
        Key::LShift => Some(0x400000e1),
        Key::LSuper => Some(0x400000e3),
        Key::RAlt => Some(0x400000e6),
        Key::RCtrl => Some(0x400000e4),
        Key::Return => Some(0xd),
        Key::Right => Some(0x4000004f),
        Key::RShift => Some(0x400000e5),
        Key::RSuper => Some(0x400000e7),
        Key::Space => Some(0x20),
        Key::Tab => Some(0x9),
        Key::Up => Some(0x40000052),
        Key::Unknown => None,
    }
}

/// Each key's platform keycode decodes to that key (the left Ctrl keycode
/// to [`Key::LCtrl`], the right one to [`Key::RCtrl`], and so on), and every
/// keycode that decodes to a known key is that key's keycode: decoding is
/// exactly the inverse of the keycode table.
pub proof fn lemma_keycode_table(key: Key, code: u32)
    ensures
        keycode(key) == Some(code) ==> key_of(code) == key,
        key_of(code) != Key::Unknown ==> keycode(key_of(code)) == Some(code),
{
    if is_char_keycode(code) {
        lemma_char_keycodes(code);
    }
    if let Key::Char(c) = key {
        if is_char_keycode(c as u32) {
            lemma_char_keycodes(c as u32);
        }
    }
}

/// The name of a key that is not a character key.
pub open spec fn key_label(key: Key) -> Seq<char> {
    match key {
        Key::Char(c) => seq![c],
        Key::Backspace => "Backspace"@,
        Key::CapsLock => "CapsLock"@,
        Key::Delete => "Delete"@,
        Key::Down => "Down"@,
        Key::Escape => "Escape"@,
        Key::F1 => "F1"@,
        Key::F2 => "F2"@,
        Key::F3 => "F3"@,
        Key::F4 => "F4"@,
        Key::F5 => "F5"@,
        Key::F6 => "F6"@,
        Key::F7 => "F7"@,
        Key::F8 => "F8"@,
        Key::F9 => "F9"@,
        Key::F10 => "F10"@,
        Key::F11 => "F11"@,
        Key::F12 => "F12"@,
        Key::LAlt => "LAlt"@,
        Key::LCtrl => "LCtrl"@,
        Key::Left => "Left"@,
        Key::LShift => "LShift"@,
        Key::LSuper => "LSuper"@,
        Key::RAlt => "RAlt"@,
        Key::RCtrl => "RCtrl"@,
        Key::Return => "Return"@,
        Key::Right => "Right"@,
        Key::RShift => "RShift"@,
        Key::RSuper => "RSuper"@,
        Key::Space => "Space"@,
        Key::Tab => "Tab"@,
        Key::Up => "Up"@,
        Key::Unknown => "Unknown"@,
    }
}

/// Returns the string holding one character.
///
/// Trusted: `char::to_string` gives the one-character string.
#[verifier::external_body]
fn char_string(c: char) -> (s: String)
    ensures
        s@ == seq![c],
{
    c.to_string()
}

impl Key {
    /// Returns the key that a platform keycode stands for.
    pub fn from_keycode(code: u32) -> (r: Key)
        ensures
            r == key_of(code),
    {
        match code {
            0x21..=0x40 | 0x5b..=0x7e | 0xb1 => Key::Char((code as u8) as char),
            0x8 => Key::Backspace,
            0x40000039 => Key::CapsLock,
            0x7f => Key::Delete,
            0x40000051 => Key::Down,
            0x1b => Key::Escape,
            0x4000003a => Key::F1,
            0x4000003b => Key::F2,
            0x4000003c => Key::F3,
            0x4000003d => Key::F4,
            0x4000003e => Key::F5,
            0x4000003f => Key::F6,
            0x40000040 => Key::F7,
            0x40000041 => Key::F8,
            0x40000042 => Key::F9,
            0x40000043 => Key::F10,
            0x40000044 => Key::F11,
            0x40000045 => Key::F12,
            0x400000e2 => Key::LAlt,
            0x400000e0 => Key::LCtrl,
            0x40000050 => Key::Left,
            0x400000e1 => Key::LShift,
            0x400000e3 => Key::LSuper,
            0x400000e6 => Key::RAlt,
            0x400000e4 => Key::RCtrl,
            0xd => Key::Return,
            0x4000004f => Key::Right,
            0x400000e5 => Key::RShift,
            0x400000e7 => Key::RSuper,
            0x20 => Key::Space,
            0x9 => Key::Tab,
            0x40000052 => Key::Up,
            _ => Key::Unknown,
        }
    }

    /// Returns the character associated with a key, if any.
    pub fn char(&self) -> (r: Option<char>)
        ensures
            match *self {
                Key::Char(c) => r == Some(c),
                _ => r is None,
            },
    {
        match self {
            Key::Char(c) => Some(*c),
            _ => None,
        }
    }

    /// Returns the number associated with a key, if any.
    pub fn num(&self) -> (r: Option<u8>)
        ensures
            match *self {
                Key::Char(c) => if '0' <= c <= '9' {
                    r == Some((c as u32 - '0' as u32) as u8)
                } else {
                    r is None
                },
                _ => r is None,
            },
    {
        match self {
            Key::Char('1') => Some(1),
            Key::Char('2') => Some(2),
            Key::Char('3') => Some(3),
            Key::Char('4') => Some(4),
            Key::Char('5') => Some(5),
            Key::Char('6') => Some(6),
            Key::Char('7') => Some(7),
            Key::Char('8') => Some(8),
            Key::Char('9') => Some(9),
            Key::Char('0') => Some(0),
            _ => None,
        }
    }

    /// The name of the key in brackets, such as `[a]` or `[Escape]`.
    pub fn to_string(&self) -> (r: String)
        ensures
            r@ == "["@ + key_label(*self) + "]"@,
    {
        let mut s = String::from_str("[");
        match self {
            Key::Char(c) => {
                let one = char_string(*c);
                s.append(one.as_str());
            },
            _ => {
                let label = match self {
            Key::Backspace => "Backspace",
            Key::CapsLock => "CapsLock",
            Key::Delete => "Delete",
            Key::Down => "Down",
            Key::Escape => "Escape",
            Key::F1 => "F1",
            Key::F2 => "F2",
            Key::F3 => "F3",
            Key::F4 => "F4",
            Key::F5 => "F5",
            Key::F6 => "F6",
            Key::F7 => "F7",
            Key::F8 => "F8",
            Key::F9 => "F9",
            Key::F10 => "F10",
            Key::F11 => "F11",
            Key::F12 => "F12",
            Key::LAlt => "LAlt",
            Key::LCtrl => "LCtrl",
            Key::Left => "Left",
            Key::LShift => "LShift",
            Key::LSuper => "LSuper",
            Key::RAlt => "RAlt",
            Key::RCtrl => "RCtrl",
            Key::Return => "Return",
            Key::Right => "Right",
            Key::RShift => "RShift",
            Key::RSuper => "RSuper",
            Key::Space => "Space",
            Key::Tab => "Tab",
            Key::Up => "Up",
                    _ => "Unknown",
                };
                s.append(label);
            },
        }
        s.append("]");
        s
    }
}

/// Mask for the left shift key.
pub const KMOD_LSHIFT: u16 = 0x0001;
/// Mask for the right shift key.
pub const KMOD_RSHIFT: u16 = 0x0002;
/// Mask for the left and right shift keys.
pub const KMOD_SHIFT: u16 = 0x0003;
/// Mask for the left ctrl key.
pub const KMOD_LCTRL: u16 = 0x0040;
/// Mask for the right ctrl key.
pub const KMOD_RCTRL: u16 = 0x0080;
/// Mask for the left and right ctrl keys.
pub const KMOD_CTRL: u16 = 0x00c0;
/// Mask for the left alt key.
pub const KMOD_LALT: u16 = 0x0100;
/// Mask for the right alt key.
pub const KMOD_RALT: u16 = 0x0200;
/// Mask for the left and right alt keys.
pub const KMOD_ALT: u16 = 0x0300;
/// Mask for the left super key.
pub const KMOD_LSUPER: u16 = 0x0400;
/// Mask for the right super key.
pub const KMOD_RSUPER: u16 = 0x0800;
/// Mask for the left and right super keys.
pub const KMOD_SUPER: u16 = 0x0c00;
/// Mask for the caps lock key.
pub const KMOD_CAPS_LOCK: u16 = 0x2000;

/// A bitmask of modifier keys.
#[derive(Clone, Copy, PartialEq, Eq, Structural, Hash, Debug)]
pub struct KeyMod(u16);

impl KeyMod {
    /// The raw bits of the mask.
    pub closed spec fn bits_spec(self) -> u16 {
        self.0
    }

    /// The mask with the given raw bits.
    pub closed spec fn from_bits_spec(bits: u16) -> Self {
        KeyMod(bits)
    }

    /// Returns the mask with the given platform modifier bits.
    pub fn from_bits(bits: u16) -> (r: Self)
        ensures
            r.bits_spec() == bits,
    {
        KeyMod(bits)
    }

    /// Returns the raw bits of the mask.
    pub fn bits(self) -> (r: u16)
        ensures
            r == self.bits_spec(),
    {
        self.0
    }

    /// Returns the value for the shift keys.
    pub fn shift(self) -> (r: bool)
        ensures
            r == (self.bits_spec() & KMOD_SHIFT != 0),
    {
        self.0 & KMOD_SHIFT != 0
    }

    /// Returns the value for the left shift key.
    pub fn lshift(self) -> (r: bool)
        ensures
            r == (self.bits_spec() & KMOD_LSHIFT != 0),
    {
        self.0 & KMOD_LSHIFT != 0
    }

    /// Returns the value for the right shift key.
    pub fn rshift(self) -> (r: bool)
        ensures
            r == (self.bits_spec() & KMOD_RSHIFT != 0),
    {
        self.0 & KMOD_RSHIFT != 0
    }

    /// Returns the value for the control keys.
    pub fn ctrl(self) -> (r: bool)
        ensures
            r == (self.bits_spec() & KMOD_CTRL != 0),
    {
        self.0 & KMOD_CTRL != 0
    }

    /// Returns the value for the left control key.
    pub fn lctrl(self) -> (r: bool)
        ensures
            r == (self.bits_spec() & KMOD_LCTRL != 0),
    {
        self.0 & KMOD_LCTRL != 0
    }

    /// Returns the value for the right control key.
    pub fn rctrl(self) -> (r: bool)
        ensures
            r == (self.bits_spec() & KMOD_RCTRL != 0),
    {
        self.0 & KMOD_RCTRL != 0
    }

    /// Returns the value for the alt keys.
    pub fn alt(self) -> (r: bool)
        ensures
            r == (self.bits_spec() & KMOD_ALT != 0),
    {
        self.0 & KMOD_ALT != 0
    }

    /// Returns the value for the left alt key.
    pub fn lalt(self) -> (r: bool)
        ensures
            r == (self.bits_spec() & KMOD_LALT != 0),
    {
        self.0 & KMOD_LALT != 0
    }

    /// Returns the value for the right alt key.
    pub fn ralt(self) -> (r: bool)
        ensures
            r == (self.bits_spec() & KMOD_RALT != 0),
    {
        self.0 & KMOD_RALT != 0
    }

    /// Returns the value for the super keys.
    ///
    /// Named `super_` to avoid conflict with the `super` keyword.
    pub fn super_(self) -> (r: bool)
        ensures
            r == (self.bits_spec() & KMOD_SUPER != 0),
    {
        self.0 & KMOD_SUPER != 0
    }

    /// Returns the value for the left super key.
    pub fn lsuper(self) -> (r: bool)
        ensures
            r == (self.bits_spec() & KMOD_LSUPER != 0),
    {
        self.0 & KMOD_LSUPER != 0
    }

    /// Returns the value for the right super key.
    pub fn rsuper(self) -> (r: bool)
        ensures
            r == (self.bits_spec() & KMOD_RSUPER != 0),
    {
        self.0 & KMOD_RSUPER != 0
    }
}

/// A combined modifier is held exactly when its left or its right key is:
/// [`KeyMod::shift`] is [`KeyMod::lshift`] or [`KeyMod::rshift`], and so on
/// for ctrl, alt and super.
pub proof fn lemma_combined_modifiers(bits: u16)
    ensures
        (bits & KMOD_SHIFT != 0) == (bits & KMOD_LSHIFT != 0 || bits & KMOD_RSHIFT != 0),
        (bits & KMOD_CTRL != 0) == (bits & KMOD_LCTRL != 0 || bits & KMOD_RCTRL != 0),
        (bits & KMOD_ALT != 0) == (bits & KMOD_LALT != 0 || bits & KMOD_RALT != 0),
        (bits & KMOD_SUPER != 0) == (bits & KMOD_LSUPER != 0 || bits & KMOD_RSUPER != 0),
{
    assert((bits & 0x0003u16 != 0) == (bits & 0x0001u16 != 0 || bits & 0x0002u16 != 0)) by (bit_vector);
    assert((bits & 0x00c0u16 != 0) == (bits & 0x0040u16 != 0 || bits & 0x0080u16 != 0)) by (bit_vector);
    assert((bits & 0x0300u16 != 0) == (bits & 0x0100u16 != 0 || bits & 0x0200u16 != 0)) by (bit_vector);
    assert((bits & 0x0c00u16 != 0) == (bits & 0x0400u16 != 0 || bits & 0x0800u16 != 0)) by (bit_vector);
}

/// The mask of the keys set in both masks.
impl std::ops::BitAnd for KeyMod {
    type Output = Self;

    fn bitand(self, rhs: Self) -> (r: Self)
        ensures
            r.bits_spec() == self.bits_spec() & rhs.bits_spec(),
    {
        KeyMod(self.0 & rhs.0)
    }
}

impl vstd::std_specs::ops::BitAndSpecImpl for KeyMod {
    open spec fn obeys_bitand_spec() -> bool {
        true
    }

    open spec fn bitand_req(self, rhs: Self) -> bool {
        true
    }

    open spec fn bitand_spec(self, rhs: Self) -> Self {
        KeyMod::from_bits_spec(self.bits_spec() & rhs.bits_spec())
    }
}

/// Keeps in the mask the keys set in both masks.
impl std::ops::BitAndAssign for KeyMod {
    fn bitand_assign(&mut self, rhs: Self)
        ensures
            final(self).bits_spec() == old(self).bits_spec() & rhs.bits_spec(),
    {
        self.0 &= rhs.0
    }
}

/// The mask of the keys set in either mask.
impl std::ops::BitOr for KeyMod {
    type Output = Self;

    fn bitor(self, rhs: Self) -> (r: Self)
        ensures
            r.bits_spec() == self.bits_spec() | rhs.bits_spec(),
    {
        KeyMod(self.0 | rhs.0)
    }
}

impl vstd::std_specs::ops::BitOrSpecImpl for KeyMod {
    open spec fn obeys_bitor_spec() -> bool {
        true
    }

    open spec fn bitor_req(self, rhs: Self) -> bool {
        true
    }

    open spec fn bitor_spec(self, rhs: Self) -> Self {
        KeyMod::from_bits_spec(self.bits_spec() | rhs.bits_spec())
    }
}

/// Keeps in the mask the keys set in either mask.
impl std::ops::BitOrAssign for KeyMod {
    fn bitor_assign(&mut self, rhs: Self)
        ensures
            final(self).bits_spec() == old(self).bits_spec() | rhs.bits_spec(),
    {
        self.0 |= rhs.0
    }
}

/// The mask of the keys set in exactly one mask.
impl std::ops::BitXor for KeyMod {
    type Output = Self;

    fn bitxor(self, rhs: Self) -> (r: Self)
        ensures
            r.bits_spec() == self.bits_spec() ^ rhs.bits_spec(),
    {
        KeyMod(self.0 ^ rhs.0)
    }
}

impl vstd::std_specs::ops::BitXorSpecImpl for KeyMod {
    open spec fn obeys_bitxor_spec() -> bool {
        true
    }

    open spec fn bitxor_req(self, rhs: Self) -> bool {
        true
    }

    open spec fn bitxor_spec(self, rhs: Self) -> Self {
        KeyMod::from_bits_spec(self.bits_spec() ^ rhs.bits_spec())
    }
}

/// Keeps in the mask the keys set in exactly one mask.
impl std::ops::BitXorAssign for KeyMod {
    fn bitxor_assign(&mut self, rhs: Self)
        ensures
            final(self).bits_spec() == old(self).bits_spec() ^ rhs.bits_spec(),
    {
        self.0 ^= rhs.0
    }
}

} // verus!
