//! The pointer: where it is, what it does and what it should look like.

use vstd::prelude::*;
use crate::geometry::{Point, Rectangle, Vector};

verus! {

/// What the pointer should look like, given what lies under it.
#[derive(Clone, Copy, Debug, PartialEq, Eq, Structural)]
pub enum Interaction {
    Idle,
    Pointer,
    Grab,
    Text,
    Crosshair,
    Working,
    Grabbing,
    ResizingHorizontally,
    ResizingVertically,
    NotAllowed,
    ZoomIn,
}

impl Default for Interaction {
    fn default() -> (interaction: Interaction)
        ensures
            interaction == Interaction::Idle,
    {
        Interaction::Idle
    }
}

/// A button of the mouse.
#[derive(Clone, Copy, Debug, PartialEq, Eq, Structural)]
pub enum Button {
    Left,
    Right,
    Middle,
    Back,
    Forward,
    Other(u16),
}

/// How far the wheel was turned.
#[derive(Clone, Copy, Debug, PartialEq, Eq, Structural)]
pub enum ScrollDelta {
    Lines { x: i32, y: i32 },
    Pixels { x: i32, y: i32 },
}

/// Something the mouse did.
#[derive(Clone, Copy, Debug, PartialEq, Eq, Structural)]
pub enum Event {
    CursorEntered,
    CursorLeft,
    /// The cursor moved; `x` and `y` say where it is now, in the coordinates
    /// of whoever receives the event.
    CursorMoved { x: i64, y: i64 },
    ButtonPressed(Button),
    ButtonReleased(Button),
    WheelScrolled { delta: ScrollDelta },
}

/// The mouse cursor as a widget sees it.
#[derive(Clone, Copy, Debug, PartialEq, Eq, Structural)]
pub enum Cursor {
    /// The cursor is at a position.
    Available(Point),
    /// The cursor is not to be reacted to: it is outside the window, busy, or
    /// hidden from this widget by one that wraps it.
    Unavailable,
}

impl Cursor {
    /// Whether the cursor is at a position that `bounds` covers.
    pub open spec fn over(self, bounds: Rectangle) -> bool {
        self matches Cursor::Available(p) && bounds.covers(p)
    }

    /// Returns the position of the cursor, if it has one.
    pub fn position(self) -> (position: Option<Point>)
        ensures
            position == (match self {
                Cursor::Available(p) => Some(p),
                Cursor::Unavailable => None,
            }),
    {
        match self {
            Cursor::Available(p) => Some(p),
            Cursor::Unavailable => None,
        }
    }

    /// Returns the position of the cursor if it lies in `bounds`.
    pub fn position_over(self, bounds: Rectangle) -> (position: Option<Point>)
        ensures
            position is Some <==> self.over(bounds),
            position matches Some(p) ==> self == Cursor::Available(p),
    {
        match self {
            Cursor::Available(p) => if bounds.contains(p) {
                Some(p)
            } else {
                None
            },
            Cursor::Unavailable => None,
        }
    }

    /// Returns where the cursor is relative to the corner of `bounds`, if it
    /// lies in `bounds`.
    pub fn position_in(self, bounds: Rectangle) -> (position: Option<Vector>)
        ensures
            position is Some <==> self.over(bounds),
            position matches Some(v) ==> self matches Cursor::Available(p) && v == p.offset_from(
                bounds.position(),
            ) && 0 <= v.x < bounds.width && 0 <= v.y < bounds.height,
    {
        match self.position_over(bounds) {
            Some(p) => Some(p.minus(bounds.position())),
            None => None,
        }
    }

    /// Returns where the cursor is relative to `origin`, if it has a
    /// position.
    pub fn position_from(self, origin: Point) -> (position: Option<Vector>)
        ensures
            position == (match self {
                Cursor::Available(p) => Some(p.offset_from(origin)),
                Cursor::Unavailable => None,
            }),
    {
        match self {
            Cursor::Available(p) => Some(p.minus(origin)),
            Cursor::Unavailable => None,
        }
    }

    /// Returns whether the cursor lies in `bounds`.
    pub fn is_over(self, bounds: Rectangle) -> (over: bool)
        ensures
            over == self.over(bounds),
    {
        self.position_over(bounds).is_some()
    }
}

} // verus!
