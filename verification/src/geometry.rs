//! Integer points, extents and rectangles on the table surface.
//!
//! All coordinates are whole pixels. `x` grows to the right and `y` grows
//! downwards, so a card that is drawn "higher" has a smaller `y`.

use vstd::prelude::*;

verus! {

/// A position on the table, or an offset between two positions.
#[derive(Clone, Copy, Debug, PartialEq, Eq, Structural)]
pub struct Point {
    pub x: i64,
    pub y: i64,
}

/// A width and a height.
#[derive(Clone, Copy, Debug, PartialEq, Eq, Structural)]
pub struct Extent {
    pub width: u32,
    pub height: u32,
}

/// An axis-aligned rectangle, given by its top-left corner and its extent.
/// Its edges belong to it.
#[derive(Clone, Copy, Debug, PartialEq, Eq, Structural)]
pub struct Rect {
    pub min: Point,
    pub size: Extent,
}

impl Point {
    /// The point with the given coordinates.
    pub fn new(x: i64, y: i64) -> (p: Point)
        ensures
            p == (Point { x, y }),
    {
        Point { x, y }
    }

    /// Whether `self` moved by `amt` still has coordinates in range.
    pub open spec fn can_translate(self, amt: Point) -> bool {
        &&& i64::MIN <= self.x + amt.x <= i64::MAX
        &&& i64::MIN <= self.y + amt.y <= i64::MAX
    }

    /// `self` moved by `amt`, or `None` when a coordinate would leave the
    /// range of `i64`.
    pub fn checked_translate(self, amt: Point) -> (moved: Option<Point>)
        ensures
            moved is Some <==> self.can_translate(amt),
            moved matches Some(p) ==> p.x == self.x + amt.x && p.y == self.y + amt.y,
    {
        match (self.x.checked_add(amt.x), self.y.checked_add(amt.y)) {
            (Some(x), Some(y)) => Some(Point { x, y }),
            _ => None,
        }
    }
}

impl Extent {
    /// The extent with the given width and height.
    pub fn new(width: u32, height: u32) -> (e: Extent)
        ensures
            e == (Extent { width, height }),
    {
        Extent { width, height }
    }
}

impl Rect {
    /// The rectangle with top-left corner `min` and extent `size`.
    pub fn new(min: Point, size: Extent) -> (r: Rect)
        ensures
            r == (Rect { min, size }),
    {
        Rect { min, size }
    }

    /// The x coordinate of the left edge.
    pub open spec fn left(self) -> int {
        self.min.x as int
    }

    /// The x coordinate of the right edge.
    pub open spec fn right(self) -> int {
        self.min.x + self.size.width
    }

    /// The y coordinate of the top edge.
    pub open spec fn top(self) -> int {
        self.min.y as int
    }

    /// The y coordinate of the bottom edge.
    pub open spec fn bottom(self) -> int {
        self.min.y + self.size.height
    }

    /// Whether `p` lies inside the rectangle or on one of its edges.
    pub open spec fn spec_contains(self, p: Point) -> bool {
        &&& self.left() <= p.x <= self.right()
        &&& self.top() <= p.y <= self.bottom()
    }

    /// Whether `p` lies inside the rectangle or on one of its edges.
    #[verifier::when_used_as_spec(spec_contains)]
    pub fn contains(self, p: Point) -> (inside: bool)
        ensures
            inside == self.spec_contains(p),
    {
        let dx: i128 = p.x as i128 - self.min.x as i128;
        let dy: i128 = p.y as i128 - self.min.y as i128;
        0 <= dx && dx <= self.size.width as i128 && 0 <= dy && dy <= self.size.height as i128
    }
}

} // verus!
