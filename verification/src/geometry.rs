//! Points, sizes and rectangles in whole units.

use vstd::prelude::*;

verus! {

/// A position in the plane.
#[derive(Clone, Copy, Debug, PartialEq, Eq, Structural)]
pub struct Point {
    pub x: i32,
    pub y: i32,
}

/// A displacement between two points. Its parts are wide enough for the
/// difference of any two positions.
#[derive(Clone, Copy, Debug, PartialEq, Eq, Structural)]
pub struct Vector {
    pub x: i64,
    pub y: i64,
}

/// An extent: a width and a height.
#[derive(Clone, Copy, Debug, PartialEq, Eq, Structural)]
pub struct Size {
    pub width: u32,
    pub height: u32,
}

/// An axis-aligned rectangle: its top-left corner and its extent.
///
/// The rectangle covers the half-open ranges `x .. x + width` and
/// `y .. y + height`, so two rectangles that share an edge share no point.
#[derive(Clone, Copy, Debug, PartialEq, Eq, Structural)]
pub struct Rectangle {
    pub x: i32,
    pub y: i32,
    pub width: u32,
    pub height: u32,
}

impl Point {
    /// The point `(0, 0)`.
    pub fn origin() -> (p: Point)
        ensures
            p == (Point { x: 0, y: 0 }),
    {
        Point { x: 0, y: 0 }
    }

    /// The point `(x, y)`.
    pub fn new(x: i32, y: i32) -> (p: Point)
        ensures
            p == (Point { x, y }),
    {
        Point { x, y }
    }

    /// The displacement that leads from `origin` to this point.
    pub open spec fn offset_from(self, origin: Point) -> Vector {
        Vector { x: (self.x - origin.x) as i64, y: (self.y - origin.y) as i64 }
    }

    /// The displacement that leads from `origin` to this point.
    pub fn minus(&self, origin: Point) -> (v: Vector)
        ensures
            v == self.offset_from(origin),
            v.x == self.x - origin.x,
            v.y == self.y - origin.y,
    {
        Vector { x: self.x as i64 - origin.x as i64, y: self.y as i64 - origin.y as i64 }
    }
}

impl Size {
    /// The empty extent.
    pub fn zero() -> (s: Size)
        ensures
            s == (Size { width: 0, height: 0 }),
    {
        Size { width: 0, height: 0 }
    }

    /// The extent of the given width and height.
    pub fn new(width: u32, height: u32) -> (s: Size)
        ensures
            s == (Size { width, height }),
    {
        Size { width, height }
    }
}

impl Rectangle {
    /// The rectangle of the given extent with its corner at `top_left`.
    pub fn new(top_left: Point, size: Size) -> (r: Rectangle)
        ensures
            r == (Rectangle { x: top_left.x, y: top_left.y, width: size.width, height: size.height }),
    {
        Rectangle { x: top_left.x, y: top_left.y, width: size.width, height: size.height }
    }

    /// The rectangle of the given extent whose corner is the origin.
    pub open spec fn spec_with_size(size: Size) -> Rectangle {
        Rectangle { x: 0, y: 0, width: size.width, height: size.height }
    }

    /// The rectangle of the given extent whose corner is the origin.
    #[verifier::when_used_as_spec(spec_with_size)]
    pub fn with_size(size: Size) -> (r: Rectangle)
        ensures
            r == Rectangle::spec_with_size(size),
    {
        Rectangle { x: 0, y: 0, width: size.width, height: size.height }
    }

    /// The top-left corner.
    pub open spec fn spec_position(&self) -> Point {
        Point { x: self.x, y: self.y }
    }

    /// The extent.
    pub open spec fn spec_size(&self) -> Size {
        Size { width: self.width, height: self.height }
    }

    /// The top-left corner.
    #[verifier::when_used_as_spec(spec_position)]
    pub fn position(&self) -> (p: Point)
        ensures
            p == self.spec_position(),
    {
        Point { x: self.x, y: self.y }
    }

    /// The extent.
    #[verifier::when_used_as_spec(spec_size)]
    pub fn size(&self) -> (s: Size)
        ensures
            s == self.spec_size(),
    {
        Size { width: self.width, height: self.height }
    }

    /// Whether `point` lies in the rectangle.
    pub open spec fn covers(self, point: Point) -> bool {
        &&& self.x <= point.x < self.x + self.width
        &&& self.y <= point.y < self.y + self.height
    }

    /// Whether every point of `self` lies in `outer`. An empty rectangle lies
    /// in every other.
    pub open spec fn within(self, outer: Rectangle) -> bool {
        self.is_empty() || {
            &&& outer.x <= self.x
            &&& self.x + self.width <= outer.x + outer.width
            &&& outer.y <= self.y
            &&& self.y + self.height <= outer.y + outer.height
        }
    }

    /// Whether the rectangle covers no point at all.
    pub open spec fn is_empty(self) -> bool {
        self.width == 0 || self.height == 0
    }

    /// What two rectangles have in common, where they have a point in common.
    pub open spec fn overlap(self, other: Rectangle) -> Option<Rectangle> {
        let left = if self.x >= other.x { self.x } else { other.x };
        let top = if self.y >= other.y { self.y } else { other.y };
        let right = if self.x + self.width <= other.x + other.width {
            self.x + self.width
        } else {
            other.x + other.width
        };
        let bottom = if self.y + self.height <= other.y + other.height {
            self.y + self.height
        } else {
            other.y + other.height
        };
        if left < right && top < bottom {
            Some(
                Rectangle {
                    x: left,
                    y: top,
                    width: (right - left) as u32,
                    height: (bottom - top) as u32,
                },
            )
        } else {
            None
        }
    }

    /// Returns what two rectangles have in common, where they have a point in
    /// common.
    pub fn intersection(&self, other: &Rectangle) -> (common: Option<Rectangle>)
        ensures
            common == self.overlap(*other),
    {
        let left: i64 = if self.x >= other.x { self.x as i64 } else { other.x as i64 };
        let top: i64 = if self.y >= other.y { self.y as i64 } else { other.y as i64 };
        let self_right: i64 = self.x as i64 + self.width as i64;
        let other_right: i64 = other.x as i64 + other.width as i64;
        let self_bottom: i64 = self.y as i64 + self.height as i64;
        let other_bottom: i64 = other.y as i64 + other.height as i64;
        let right: i64 = if self_right <= other_right { self_right } else { other_right };
        let bottom: i64 = if self_bottom <= other_bottom { self_bottom } else { other_bottom };
        if left < right && top < bottom {
            Some(
                Rectangle {
                    x: left as i32,
                    y: top as i32,
                    width: (right - left) as u32,
                    height: (bottom - top) as u32,
                },
            )
        } else {
            None
        }
    }

    /// Returns whether `point` lies in the rectangle.
    pub fn contains(&self, point: Point) -> (inside: bool)
        ensures
            inside == self.covers(point),
    {
        let px: i64 = point.x as i64;
        let py: i64 = point.y as i64;
        let left: i64 = self.x as i64;
        let top: i64 = self.y as i64;
        left <= px && px < left + self.width as i64 && top <= py && py < top + self.height as i64
    }
}

/// What two rectangles have in common covers the points that both cover, and
/// no others; and where they have nothing in common, no point is covered by
/// both.
pub proof fn lemma_overlap_covers(a: Rectangle, b: Rectangle, point: Point)
    ensures
        a.overlap(b) matches Some(common) ==> common.covers(point) == (a.covers(point) && b.covers(
            point,
        )),
        a.overlap(b) is None ==> !(a.covers(point) && b.covers(point)),
{
}

/// What two rectangles have in common lies within each of them, and is not
/// empty.
pub proof fn lemma_overlap_within(a: Rectangle, b: Rectangle)
    ensures
        a.overlap(b) matches Some(common) ==> common.within(a) && common.within(b)
            && !common.is_empty(),
{
}

/// A rectangle within a second one that lies within a third lies within
/// the third, unless the second is empty.
pub proof fn lemma_within_transitive(a: Rectangle, b: Rectangle, c: Rectangle)
    requires
        a.within(b),
        b.within(c),
        !b.is_empty(),
    ensures
        a.within(c),
{
}

/// A rectangle that lies within another covers no point that the other
/// does not cover.
pub proof fn lemma_within_covers(inner: Rectangle, outer: Rectangle, point: Point)
    requires
        inner.within(outer),
        inner.covers(point),
    ensures
        outer.covers(point),
{
}

} // verus!
