//! Integer device-pixel geometry: points, sizes, rectangles, corner radii and
//! per-edge widths, together with the intersection test that damage-region
//! culling is built on.

use vstd::prelude::*;

verus! {

/// Coordinates and extents of every rectangle handed to the renderer stay
/// within this magnitude, so that sums and squared diagonals fit comfortably
/// in the machine integers used by the planning code.
pub const COORD_LIMIT: i32 = 16777216;

/// A looser magnitude bound under which rectangle-edge sums still fit in
/// `i32`. Derived rectangles (a shadow's spread extent) stay within it.
pub const ARITH_LIMIT: i32 = 536870912;

/// A location in device pixels.
#[derive(Clone, Copy, Debug, PartialEq, Eq, Structural)]
pub struct Point {
    pub x: i32,
    pub y: i32,
}

/// An extent in device pixels.
#[derive(Clone, Copy, Debug, PartialEq, Eq, Structural)]
pub struct Size {
    pub width: i32,
    pub height: i32,
}

/// An axis-aligned rectangle: an origin (top-left corner) and a size.
#[derive(Clone, Copy, Debug, PartialEq, Eq, Structural)]
pub struct Bounds {
    pub origin: Point,
    pub size: Size,
}

/// One radius per rectangle corner.
#[derive(Clone, Copy, Debug, PartialEq, Eq, Structural)]
pub struct Corners {
    pub top_left: i32,
    pub top_right: i32,
    pub bottom_right: i32,
    pub bottom_left: i32,
}

/// One width per rectangle edge.
#[derive(Clone, Copy, Debug, PartialEq, Eq, Structural)]
pub struct Edges {
    pub top: i32,
    pub right: i32,
    pub bottom: i32,
    pub left: i32,
}

impl Point {
    pub open spec fn wf(self) -> bool {
        &&& -COORD_LIMIT <= self.x <= COORD_LIMIT
        &&& -COORD_LIMIT <= self.y <= COORD_LIMIT
    }

    pub fn new(x: i32, y: i32) -> (r: Point)
        ensures
            r == (Point { x, y }),
    {
        Point { x, y }
    }
}

impl Size {
    pub open spec fn wf(self) -> bool {
        &&& 0 <= self.width <= COORD_LIMIT
        &&& 0 <= self.height <= COORD_LIMIT
    }

    pub fn new(width: i32, height: i32) -> (r: Size)
        ensures
            r == (Size { width, height }),
    {
        Size { width, height }
    }
}

impl Corners {
    pub open spec fn wf(self) -> bool {
        &&& 0 <= self.top_left <= COORD_LIMIT
        &&& 0 <= self.top_right <= COORD_LIMIT
        &&& 0 <= self.bottom_right <= COORD_LIMIT
        &&& 0 <= self.bottom_left <= COORD_LIMIT
    }

    /// Whether any corner is rounded at all.
    pub open spec fn spec_any_nonzero(self) -> bool {
        self.top_left > 0 || self.top_right > 0 || self.bottom_right > 0 || self.bottom_left > 0
    }

    pub fn any_nonzero(&self) -> (r: bool)
        ensures
            r == self.spec_any_nonzero(),
    {
        self.top_left > 0 || self.top_right > 0 || self.bottom_right > 0 || self.bottom_left > 0
    }

    pub fn uniform(radius: i32) -> (r: Corners)
        ensures
            r == (Corners {
                top_left: radius,
                top_right: radius,
                bottom_right: radius,
                bottom_left: radius,
            }),
    {
        Corners { top_left: radius, top_right: radius, bottom_right: radius, bottom_left: radius }
    }

    pub fn zero() -> (r: Corners)
        ensures
            r == (Corners { top_left: 0, top_right: 0, bottom_right: 0, bottom_left: 0 }),
    {
        Corners { top_left: 0, top_right: 0, bottom_right: 0, bottom_left: 0 }
    }
}

impl Edges {
    pub open spec fn wf(self) -> bool {
        &&& 0 <= self.top <= COORD_LIMIT
        &&& 0 <= self.right <= COORD_LIMIT
        &&& 0 <= self.bottom <= COORD_LIMIT
        &&& 0 <= self.left <= COORD_LIMIT
    }

    /// Whether any edge carries a border.
    pub open spec fn spec_any_nonzero(self) -> bool {
        self.top > 0 || self.right > 0 || self.bottom > 0 || self.left > 0
    }

    pub fn any_nonzero(&self) -> (r: bool)
        ensures
            r == self.spec_any_nonzero(),
    {
        self.top > 0 || self.right > 0 || self.bottom > 0 || self.left > 0
    }

    pub fn uniform(width: i32) -> (r: Edges)
        ensures
            r == (Edges { top: width, right: width, bottom: width, left: width }),
    {
        Edges { top: width, right: width, bottom: width, left: width }
    }

    pub fn zero() -> (r: Edges)
        ensures
            r == (Edges { top: 0, right: 0, bottom: 0, left: 0 }),
    {
        Edges { top: 0, right: 0, bottom: 0, left: 0 }
    }
}

impl Bounds {
    pub open spec fn wf(self) -> bool {
        &&& self.origin.wf()
        &&& self.size.wf()
    }

    /// The x coordinate one past the right edge, as a mathematical integer.
    pub open spec fn spec_right(self) -> int {
        self.origin.x + self.size.width
    }

    /// The y coordinate one past the bottom edge, as a mathematical integer.
    pub open spec fn spec_bottom(self) -> int {
        self.origin.y + self.size.height
    }

    /// Two rectangles overlap when each one starts before the other ends on
    /// both axes. Rectangles that merely touch along an edge do not overlap.
    pub open spec fn spec_intersects(self, other: Bounds) -> bool {
        &&& self.origin.x < other.spec_right()
        &&& other.origin.x < self.spec_right()
        &&& self.origin.y < other.spec_bottom()
        &&& other.origin.y < self.spec_bottom()
    }

    /// Within the looser magnitude bound: edge sums fit in `i32`.
    pub open spec fn arith_wf(self) -> bool {
        &&& -ARITH_LIMIT <= self.origin.x <= ARITH_LIMIT
        &&& -ARITH_LIMIT <= self.origin.y <= ARITH_LIMIT
        &&& 0 <= self.size.width <= ARITH_LIMIT
        &&& 0 <= self.size.height <= ARITH_LIMIT
    }

    pub fn new(x: i32, y: i32, width: i32, height: i32) -> (r: Bounds)
        ensures
            r == (Bounds { origin: Point { x, y }, size: Size { width, height } }),
    {
        Bounds { origin: Point { x, y }, size: Size { width, height } }
    }

    pub fn intersects(&self, other: &Bounds) -> (r: bool)
        requires
            self.arith_wf(),
            other.arith_wf(),
        ensures
            r == self.spec_intersects(*other),
    {
        self.origin.x < other.origin.x + other.size.width
            && other.origin.x < self.origin.x + self.size.width
            && self.origin.y < other.origin.y + other.size.height
            && other.origin.y < self.origin.y + self.size.height
    }
}

} // verus!
