//! Sizing: what a widget asks for, what its parent allows, and what comes of
//! the two.

use vstd::prelude::*;
use crate::geometry::{Point, Rectangle, Size};

verus! {

/// The length that stands for "no bound".
pub const UNBOUNDED: u32 = 0xffff_ffff;

/// How a widget wants to fill one dimension.
#[derive(Clone, Copy, Debug, PartialEq, Eq, Hash, Structural)]
pub enum Length {
    /// Fill all the remaining space.
    Fill,
    /// Fill a portion of the remaining space relative to other elements.
    FillPortion(u16),
    /// Fill the least amount of space.
    Shrink,
    /// Fill a fixed amount of space.
    Units(u16),
}

/// `value`, brought down to `high` where it is above, and then up to `low`
/// where it is below. Where `low` is above `high`, the result is `low`.
pub open spec fn clamped(value: u32, low: u32, high: u32) -> u32 {
    let capped = if value <= high { value } else { high };
    if capped >= low { capped } else { low }
}

fn clamp(value: u32, low: u32, high: u32) -> (r: u32)
    ensures
        r == clamped(value, low, high),
{
    let capped: u32 = if value <= high { value } else { high };
    if capped >= low { capped } else { low }
}

/// The bounds that a parent sets on the size of a widget.
#[derive(Clone, Copy, Debug, PartialEq, Eq, Structural)]
pub struct Limits {
    /// The least size allowed.
    pub min: Size,
    /// The greatest size allowed.
    pub max: Size,
    /// The size to take where the widget fills.
    pub fill: Size,
}

impl Limits {
    /// No limits: any size from nothing upwards.
    pub open spec fn none() -> Limits {
        Limits {
            min: Size { width: 0, height: 0 },
            max: Size { width: UNBOUNDED, height: UNBOUNDED },
            fill: Size { width: UNBOUNDED, height: UNBOUNDED },
        }
    }

    /// The limits after the widget has said how wide it wants to be.
    pub open spec fn with_width(self, width: Length) -> Limits {
        match width {
            Length::Shrink => Limits {
                fill: Size { width: self.min.width, height: self.fill.height },
                ..self
            },
            Length::Fill | Length::FillPortion(_) => Limits {
                fill: Size {
                    width: if self.fill.width <= self.max.width {
                        self.fill.width
                    } else {
                        self.max.width
                    },
                    height: self.fill.height,
                },
                ..self
            },
            Length::Units(units) => {
                let w = clamped(units as u32, self.min.width, self.max.width);
                Limits {
                    min: Size { width: w, height: self.min.height },
                    max: Size { width: w, height: self.max.height },
                    fill: Size { width: w, height: self.fill.height },
                }
            },
        }
    }

    /// The limits after the widget has said how high it wants to be.
    pub open spec fn with_height(self, height: Length) -> Limits {
        match height {
            Length::Shrink => Limits {
                fill: Size { width: self.fill.width, height: self.min.height },
                ..self
            },
            Length::Fill | Length::FillPortion(_) => Limits {
                fill: Size {
                    width: self.fill.width,
                    height: if self.fill.height <= self.max.height {
                        self.fill.height
                    } else {
                        self.max.height
                    },
                },
                ..self
            },
            Length::Units(units) => {
                let h = clamped(units as u32, self.min.height, self.max.height);
                Limits {
                    min: Size { width: self.min.width, height: h },
                    max: Size { width: self.max.width, height: h },
                    fill: Size { width: self.fill.width, height: h },
                }
            },
        }
    }

    /// The size that a widget of the given intrinsic size gets: in each
    /// dimension the intrinsic length, no more than the greatest allowed and
    /// no less than the length to fill.
    pub open spec fn resolved(self, intrinsic: Size) -> Size {
        Size {
            width: clamped(intrinsic.width, self.fill.width, self.max.width),
            height: clamped(intrinsic.height, self.fill.height, self.max.height),
        }
    }

    /// Creates limits with no bound.
    pub fn unbounded() -> (limits: Limits)
        ensures
            limits == Limits::none(),
    {
        Limits {
            min: Size { width: 0, height: 0 },
            max: Size { width: UNBOUNDED, height: UNBOUNDED },
            fill: Size { width: UNBOUNDED, height: UNBOUNDED },
        }
    }

    /// Creates limits from the least and the greatest size allowed.
    pub fn new(min: Size, max: Size) -> (limits: Limits)
        ensures
            limits == (Limits { min, max, fill: Size { width: UNBOUNDED, height: UNBOUNDED } }),
    {
        Limits { min, max, fill: Size { width: UNBOUNDED, height: UNBOUNDED } }
    }

    /// Applies a width constraint to the limits.
    pub fn width(self, width: Length) -> (limits: Limits)
        ensures
            limits == self.with_width(width),
    {
        let mut limits: Limits = self;
        match width {
            Length::Shrink => {
                limits.fill.width = self.min.width;
            },
            Length::Fill | Length::FillPortion(_) => {
                if self.fill.width > self.max.width {
                    limits.fill.width = self.max.width;
                }
            },
            Length::Units(units) => {
                let w: u32 = clamp(units as u32, self.min.width, self.max.width);
                limits.min.width = w;
                limits.max.width = w;
                limits.fill.width = w;
            },
        }
        limits
    }

    /// Applies a height constraint to the limits.
    pub fn height(self, height: Length) -> (limits: Limits)
        ensures
            limits == self.with_height(height),
    {
        let mut limits: Limits = self;
        match height {
            Length::Shrink => {
                limits.fill.height = self.min.height;
            },
            Length::Fill | Length::FillPortion(_) => {
                if self.fill.height > self.max.height {
                    limits.fill.height = self.max.height;
                }
            },
            Length::Units(units) => {
                let h: u32 = clamp(units as u32, self.min.height, self.max.height);
                limits.min.height = h;
                limits.max.height = h;
                limits.fill.height = h;
            },
        }
        limits
    }

    /// Computes the size that fits the limits given the intrinsic size of a
    /// widget.
    pub fn resolve(&self, intrinsic: Size) -> (size: Size)
        ensures
            size == self.resolved(intrinsic),
    {
        Size {
            width: clamp(intrinsic.width, self.fill.width, self.max.width),
            height: clamp(intrinsic.height, self.fill.height, self.max.height),
        }
    }
}

/// The bounds that layout gave a widget, relative to its parent.
#[derive(Clone, Copy, Debug, PartialEq, Eq, Structural)]
pub struct Node {
    bounds: Rectangle,
}

impl Node {
    /// The bounds of the node.
    pub closed spec fn spec_bounds(self) -> Rectangle {
        self.bounds
    }

    /// Creates a node of the given size at the origin.
    pub fn new(size: Size) -> (node: Node)
        ensures
            node.spec_bounds() == Rectangle::with_size(size),
    {
        Node { bounds: Rectangle { x: 0, y: 0, width: size.width, height: size.height } }
    }

    /// Returns the size of the node.
    pub fn size(&self) -> (size: Size)
        ensures
            size == (Size { width: self.spec_bounds().width, height: self.spec_bounds().height }),
    {
        Size { width: self.bounds.width, height: self.bounds.height }
    }

    /// Returns the bounds.
    pub fn bounds(&self) -> (bounds: Rectangle)
        ensures
            bounds == self.spec_bounds(),
    {
        self.bounds
    }

    /// Moves the node to `position`, keeping its size.
    pub fn move_to(&mut self, position: Point)
        ensures
            final(self).spec_bounds() == (Rectangle {
                x: position.x,
                y: position.y,
                ..old(self).spec_bounds()
            }),
    {
        self.bounds.x = position.x;
        self.bounds.y = position.y;
    }
}

/// The bounds of a widget in the window, as the draw and event passes see
/// them.
#[derive(Clone, Copy, Debug)]
pub struct Layout<'a> {
    position: Point,
    node: &'a Node,
}

impl<'a> Layout<'a> {
    /// The rectangle that the widget occupies.
    pub closed spec fn spec_bounds(self) -> Rectangle {
        Rectangle {
            x: self.position.x,
            y: self.position.y,
            width: self.node.spec_bounds().width,
            height: self.node.spec_bounds().height,
        }
    }

    /// The layout of a node that stands where its own bounds say.
    pub fn new(node: &'a Node) -> (layout: Layout<'a>)
        ensures
            layout.spec_bounds() == node.spec_bounds(),
    {
        Layout { position: node.bounds().position(), node }
    }

    /// Returns the corner of the rectangle that the widget occupies.
    pub fn position(&self) -> (position: Point)
        ensures
            position == self.spec_bounds().position(),
    {
        self.position
    }

    /// Returns the bounds.
    pub fn bounds(&self) -> (bounds: Rectangle)
        ensures
            bounds == self.spec_bounds(),
    {
        let inner: Rectangle = self.node.bounds();
        Rectangle { x: self.position.x, y: self.position.y, width: inner.width, height: inner.height }
    }
}

} // verus!
