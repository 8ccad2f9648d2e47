use pixel_engine::event::key::{KMOD_CAPS_LOCK, KMOD_LALT, KMOD_LCTRL, KMOD_LSHIFT, KMOD_RSHIFT, KMOD_RSUPER};
use pixel_engine::event::mouse::{BUTTON_LMASK, BUTTON_MMASK, BUTTON_RMASK, BUTTON_X1MASK, BUTTON_X2MASK};
use pixel_engine::event::{event_kind, EventKind, Key, KeyMod, MouseBtn, MouseBtns};

#[test]
fn keycodes_of_characters() {
    assert_eq!(Key::from_keycode(0x61), Key::Char('a'));
    assert_eq!(Key::from_keycode(0x30), Key::Char('0'));
    assert_eq!(Key::from_keycode(0x21), Key::Char('!'));
    assert_eq!(Key::from_keycode(0x7e), Key::Char('~'));
    assert_eq!(Key::from_keycode(0xb1), Key::Char('±'));
}

#[test]
fn keycodes_of_named_keys() {
    assert_eq!(Key::from_keycode(0x1b), Key::Escape);
    assert_eq!(Key::from_keycode(0x20), Key::Space);
    assert_eq!(Key::from_keycode(0x0d), Key::Return);
    assert_eq!(Key::from_keycode(0x09), Key::Tab);
    assert_eq!(Key::from_keycode(0x08), Key::Backspace);
    assert_eq!(Key::from_keycode(0x7f), Key::Delete);
    assert_eq!(Key::from_keycode(0x4000003a), Key::F1);
    assert_eq!(Key::from_keycode(0x40000045), Key::F12);
    assert_eq!(Key::from_keycode(0x40000052), Key::Up);
    assert_eq!(Key::from_keycode(0x40000051), Key::Down);
    assert_eq!(Key::from_keycode(0x40000050), Key::Left);
    assert_eq!(Key::from_keycode(0x4000004f), Key::Right);
    assert_eq!(Key::from_keycode(0x400000e1), Key::LShift);
    assert_eq!(Key::from_keycode(0x400000e7), Key::RSuper);
}

#[test]
fn keycodes_without_keys() {
    assert_eq!(Key::from_keycode(0x41), Key::Unknown);
    assert_eq!(Key::from_keycode(0x0), Key::Unknown);
    assert_eq!(Key::from_keycode(0x12345678), Key::Unknown);
}

#[test]
fn key_char_and_num() {
    assert_eq!(Key::Char('x').char(), Some('x'));
    assert_eq!(Key::Escape.char(), None);
    assert_eq!(Key::Char('0').num(), Some(0));
    assert_eq!(Key::Char('7').num(), Some(7));
    assert_eq!(Key::Char('9').num(), Some(9));
    assert_eq!(Key::Char('a').num(), None);
    assert_eq!(Key::Tab.num(), None);
    assert_eq!(Key::from_keycode(0x35).num(), Some(5));
}

#[test]
fn key_to_string() {
    assert_eq!(Key::Char('a').to_string(), "[a]");
    assert_eq!(Key::Char('±').to_string(), "[±]");
    assert_eq!(Key::Escape.to_string(), "[Escape]");
    assert_eq!(Key::F10.to_string(), "[F10]");
    assert_eq!(Key::LShift.to_string(), "[LShift]");
    assert_eq!(Key::Unknown.to_string(), "[Unknown]");
}

#[test]
fn key_modifiers() {
    let m = KeyMod::from_bits(KMOD_LSHIFT | KMOD_RSUPER | KMOD_CAPS_LOCK);
    assert!(m.shift());
    assert!(m.lshift());
    assert!(!m.rshift());
    assert!(!m.ctrl());
    assert!(!m.alt());
    assert!(m.super_());
    assert!(!m.lsuper());
    assert!(m.rsuper());
    let n = KeyMod::from_bits(KMOD_LCTRL | KMOD_LALT);
    assert!(n.ctrl() && n.lctrl() && !n.rctrl());
    assert!(n.alt() && n.lalt() && !n.ralt());
    assert!(!KeyMod::from_bits(0).shift());
}

#[test]
fn key_modifier_masks_combine() {
    let a = KeyMod::from_bits(KMOD_LSHIFT | KMOD_LCTRL);
    let b = KeyMod::from_bits(KMOD_LSHIFT | KMOD_RSHIFT);
    assert_eq!((a & b).bits(), KMOD_LSHIFT);
    assert_eq!((a | b).bits(), KMOD_LSHIFT | KMOD_RSHIFT | KMOD_LCTRL);
    assert_eq!((a ^ b).bits(), KMOD_RSHIFT | KMOD_LCTRL);
    let mut c = a;
    c |= b;
    assert_eq!(c, a | b);
    c &= b;
    assert_eq!(c, b);
    c ^= b;
    assert_eq!(c.bits(), 0);
}

#[test]
fn mouse_buttons_from_indices() {
    assert_eq!(MouseBtn::from_sdl_index(1), MouseBtn::left());
    assert_eq!(MouseBtn::from_sdl_index(2), MouseBtn::middle());
    assert_eq!(MouseBtn::from_sdl_index(3), MouseBtn::right());
    assert_eq!(MouseBtn::from_sdl_index(4), MouseBtn::additional(0));
    assert_eq!(MouseBtn::from_sdl_index(5), MouseBtn::additional(1));
    assert_eq!(MouseBtn::left().index(), 0);
    assert_eq!(MouseBtn::right().index(), 1);
    assert_eq!(MouseBtn::middle().index(), 2);
    assert_eq!(MouseBtn::additional(4).index(), 7);
}

#[test]
fn mouse_button_masks() {
    assert_eq!(MouseBtns::none().bits(), 0);
    assert_eq!(MouseBtns::mask(MouseBtn::left()).bits(), 1);
    assert_eq!(MouseBtns::mask(MouseBtn::right()).bits(), 2);
    assert_eq!(MouseBtns::mask(MouseBtn::middle()).bits(), 4);
    let m = MouseBtns::mask(MouseBtn::right()) | MouseBtns::mask(MouseBtn::additional(1));
    assert!(m.right());
    assert!(!m.left());
    assert!(!m.middle());
    assert!(m.btn(MouseBtn::right()));
    assert!(m.additional(1));
    assert!(!m.additional(0));
}

#[test]
fn mouse_buttons_from_platform_flags() {
    assert_eq!(MouseBtns::from_flags(0).bits(), 0);
    let m = MouseBtns::from_flags(BUTTON_LMASK | BUTTON_RMASK);
    assert!(m.left() && m.right() && !m.middle());
    let m = MouseBtns::from_flags(BUTTON_MMASK);
    assert!(m.middle() && !m.left() && !m.right());
    assert_eq!(m.bits(), 4);
    let m = MouseBtns::from_flags(BUTTON_X1MASK | BUTTON_X2MASK);
    assert!(m.additional(0) && m.additional(1));
    assert_eq!(m.bits(), 8 | 16);
    assert_eq!(MouseBtns::from_flags(0xffff_ffe0).bits(), 0);
}

#[test]
fn event_kinds() {
    assert_eq!(event_kind(0x100), Some(EventKind::Quit));
    assert_eq!(event_kind(0x300), Some(EventKind::Key));
    assert_eq!(event_kind(0x301), Some(EventKind::Key));
    assert_eq!(event_kind(0x303), Some(EventKind::Text));
    assert_eq!(event_kind(0x400), Some(EventKind::MouseMotion));
    assert_eq!(event_kind(0x401), Some(EventKind::MouseButton));
    assert_eq!(event_kind(0x402), Some(EventKind::MouseButton));
    assert_eq!(event_kind(0x206), Some(EventKind::WindowResize));
    assert_eq!(event_kind(0x302), None);
    assert_eq!(event_kind(0), None);
}
