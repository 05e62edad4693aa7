//! What the window system reports to the widgets, as far as widgets tell
//! events apart.

use vstd::prelude::*;
use crate::mouse;

verus! {

/// Something a key did.
#[derive(Clone, Copy, Debug, PartialEq, Eq, Structural)]
pub enum KeyboardEvent {
    KeyPressed,
    KeyReleased,
    ModifiersChanged,
}

/// Something that happened to the window.
#[derive(Clone, Copy, Debug, PartialEq, Eq, Structural)]
pub enum WindowEvent {
    Resized { width: u32, height: u32 },
    Focused,
    Unfocused,
    Other,
}

/// An input event, as the window system reports it.
#[derive(Clone, Copy, Debug, PartialEq, Eq, Structural)]
pub enum Event {
    Keyboard(KeyboardEvent),
    Mouse(mouse::Event),
    Window(WindowEvent),
    Touch,
}

} // verus!
