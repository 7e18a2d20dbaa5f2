//! Integer geometry: points, displacements, sizes and rectangles.
//!
//! What the host reports (cursor locations, offsets, translations) is held in
//! 32-bit coordinates. What the library computes from them is held in 64-bit
//! coordinates, so that every sum is exact.

use vstd::prelude::*;

verus! {

/// A location on the grid, as the host reports it.
#[derive(Clone, Copy, Debug, PartialEq, Eq, Structural)]
pub struct Point {
    pub x: i32,
    pub y: i32,
}

/// A displacement on the grid.
#[derive(Clone, Copy, Debug, PartialEq, Eq, Structural)]
pub struct Vector {
    pub x: i32,
    pub y: i32,
}

/// A computed location: wide enough for the sum of a point and two displacements.
#[derive(Clone, Copy, Debug, PartialEq, Eq, Structural)]
pub struct Anchor {
    pub x: i64,
    pub y: i64,
}

/// An extent in both axes.
#[derive(Clone, Copy, Debug, PartialEq, Eq, Structural)]
pub struct Size {
    pub width: u32,
    pub height: u32,
}

/// An axis-aligned rectangle, given by its top-left corner and its extent.
#[derive(Clone, Copy, Debug, PartialEq, Eq, Structural)]
pub struct Rectangle {
    pub x: i32,
    pub y: i32,
    pub width: u32,
    pub height: u32,
}

impl Point {
    /// Makes the point `(x, y)`.
    pub fn new(x: i32, y: i32) -> (p: Point)
        ensures
            p == (Point { x, y }),
    {
        Point { x, y }
    }
}

impl Vector {
    /// The displacement that moves nothing.
    pub open spec fn spec_zero() -> Vector {
        Vector { x: 0, y: 0 }
    }

    /// Makes the displacement `(x, y)`.
    pub fn new(x: i32, y: i32) -> (v: Vector)
        ensures
            v == (Vector { x, y }),
    {
        Vector { x, y }
    }

    /// Returns the displacement that moves nothing.
    pub fn zero() -> (v: Vector)
        ensures
            v == Vector::spec_zero(),
    {
        Vector { x: 0, y: 0 }
    }
}

impl Anchor {
    /// The top-left corner of the grid.
    pub open spec fn spec_origin() -> Anchor {
        Anchor { x: 0, y: 0 }
    }

    /// Where `cursor` lands once moved by `offset` and then by `translation`.
    pub open spec fn spec_of(cursor: Point, offset: Vector, translation: Vector) -> Anchor {
        Anchor {
            x: (cursor.x + offset.x + translation.x) as i64,
            y: (cursor.y + offset.y + translation.y) as i64,
        }
    }

    /// Returns the top-left corner of the grid.
    pub fn origin() -> (a: Anchor)
        ensures
            a == Anchor::spec_origin(),
    {
        Anchor { x: 0, y: 0 }
    }

    /// Computes `cursor + offset + translation`, exactly: no clamping, no wrapping.
    pub fn of(cursor: Point, offset: Vector, translation: Vector) -> (a: Anchor)
        ensures
            a.x == cursor.x + offset.x + translation.x,
            a.y == cursor.y + offset.y + translation.y,
            a == Anchor::spec_of(cursor, offset, translation),
    {
        Anchor {
            x: cursor.x as i64 + offset.x as i64 + translation.x as i64,
            y: cursor.y as i64 + offset.y as i64 + translation.y as i64,
        }
    }
}

impl Size {
    /// The extent of nothing.
    pub open spec fn spec_zero() -> Size {
        Size { width: 0, height: 0 }
    }

    /// Makes the extent `width` by `height`.
    pub fn new(width: u32, height: u32) -> (s: Size)
        ensures
            s == (Size { width, height }),
    {
        Size { width, height }
    }

    /// Returns the extent of nothing.
    pub fn zero() -> (s: Size)
        ensures
            s == Size::spec_zero(),
    {
        Size { width: 0, height: 0 }
    }
}

impl Rectangle {
    /// The extent of the rectangle, without its corner.
    pub open spec fn spec_size(self) -> Size {
        Size { width: self.width, height: self.height }
    }

    /// Makes the rectangle with top-left corner `(x, y)` and the given extent.
    pub fn new(x: i32, y: i32, width: u32, height: u32) -> (r: Rectangle)
        ensures
            r == (Rectangle { x, y, width, height }),
    {
        Rectangle { x, y, width, height }
    }

    /// Returns the extent of the rectangle.
    pub fn size(&self) -> (s: Size)
        ensures
            s == self.spec_size(),
    {
        Size { width: self.width, height: self.height }
    }
}

} // verus!
