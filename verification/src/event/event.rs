//! System events.

use vstd::prelude::*;

verus! {

/// Event type: the program is requested to quit.
pub const EVENT_QUIT: u32 = 0x100;
/// Event type: a window was resized.
pub const EVENT_WINDOW_RESIZED: u32 = 0x206;
/// Event type: a key was pressed.
pub const EVENT_KEY_DOWN: u32 = 0x300;
/// Event type: a key was released.
pub const EVENT_KEY_UP: u32 = 0x301;
/// Event type: text was input.
pub const EVENT_TEXT_INPUT: u32 = 0x303;
/// Event type: the mouse moved.
pub const EVENT_MOUSE_MOTION: u32 = 0x400;
/// Event type: a mouse button was pressed.
pub const EVENT_MOUSE_BUTTON_DOWN: u32 = 0x401;
/// Event type: a mouse button was released.
pub const EVENT_MOUSE_BUTTON_UP: u32 = 0x402;

/// The kinds of system event that the engine represents.
#[derive(Clone, Copy, PartialEq, Eq, Structural, Hash, Debug)]
pub enum EventKind {
    /// The program is requested to quit.
    Quit,
    /// A key is pressed or released.
    Key,
    /// Text is input.
    Text,
    /// A mouse button is pressed or released.
    MouseButton,
    /// A mouse is moved.
    MouseMotion,
    /// A window is resized.
    WindowResize,
}

/// The kind of event that a platform event type stands for, if the engine
/// represents it.
pub open spec fn event_kind_spec(event_type: u32) -> Option<EventKind> {
    if event_type == EVENT_QUIT {
        Some(EventKind::Quit)
    } else if event_type == EVENT_KEY_DOWN || event_type == EVENT_KEY_UP {
        Some(EventKind::Key)
    } else if event_type == EVENT_TEXT_INPUT {
        Some(EventKind::Text)
    } else if event_type == EVENT_MOUSE_BUTTON_DOWN || event_type == EVENT_MOUSE_BUTTON_UP {
        Some(EventKind::MouseButton)
    } else if event_type == EVENT_MOUSE_MOTION {
        Some(EventKind::MouseMotion)
    } else if event_type == EVENT_WINDOW_RESIZED {
        Some(EventKind::WindowResize)
    } else {
        None
    }
}

/// Returns the kind of event that a platform event type stands for, or
/// `None` if the engine has no representation for it.
pub fn event_kind(event_type: u32) -> (r: Option<EventKind>)
    ensures
        r == event_kind_spec(event_type),
{
    match event_type {
        EVENT_QUIT => Some(EventKind::Quit),
        EVENT_KEY_DOWN | EVENT_KEY_UP => Some(EventKind::Key),
        EVENT_TEXT_INPUT => Some(EventKind::Text),
        EVENT_MOUSE_BUTTON_DOWN | EVENT_MOUSE_BUTTON_UP => Some(EventKind::MouseButton),
        EVENT_MOUSE_MOTION => Some(EventKind::MouseMotion),
        EVENT_WINDOW_RESIZED => Some(EventKind::WindowResize),
        _ => None,
    }
}

} // verus!
