//! Points and axis-aligned rectangles on the map's integer grid.
use vstd::prelude::*;

verus! {

/// A grid position. `y` grows upward from the map's bottom edge.
#[derive(Debug, Clone, Copy, PartialEq, Eq, Structural)]
pub struct Point {
    pub x: i32,
    pub y: i32,
}

/// The centre of a rectangle, held doubled so that it stays a whole number:
/// the centre itself is `(twice_x / 2, twice_y / 2)`.
#[derive(Debug, Clone, Copy, PartialEq, Eq, Structural)]
pub struct Midpoint {
    pub twice_x: i64,
    pub twice_y: i64,
}

/// An axis-aligned rectangle given by two corners. It is well formed when
/// `min` lies below `max` on both axes. The type does not force that: width
/// and height are signed, and `near` reads the corners in either order.
#[derive(Debug, Clone, Copy, PartialEq, Eq, Structural)]
pub struct Rect {
    pub min: Point,
    pub max: Point,
}

/// The rectangle with corners `(min_x, min_y)` and `(max_x, max_y)`.
pub open spec fn rect(min_x: i32, min_y: i32, max_x: i32, max_y: i32) -> Rect {
    Rect { min: Point { x: min_x, y: min_y }, max: Point { x: max_x, y: max_y } }
}

/// The smaller of two integers.
pub open spec fn lower(a: int, b: int) -> int {
    if a <= b {
        a
    } else {
        b
    }
}

/// The larger of two integers.
pub open spec fn upper(a: int, b: int) -> int {
    if a <= b {
        b
    } else {
        a
    }
}

/// Whether the closed spans `[a_lo, a_hi]` and `[b_lo, b_hi]` lie no more than
/// `reach` apart.
pub open spec fn spans_within(a_lo: int, a_hi: int, b_lo: int, b_hi: int, reach: int) -> bool {
    a_lo <= b_hi + reach && b_lo <= a_hi + reach
}

impl Rect {
    /// `min` lies below `max` on both axes, so width and height are positive.
    pub open spec fn well_formed(self) -> bool {
        self.min.x < self.max.x && self.min.y < self.max.y
    }

    /// Both corners lie on a map that is `width` wide and `height` high.
    pub open spec fn within(self, width: int, height: int) -> bool {
        &&& 0 <= self.min.x <= width
        &&& 0 <= self.max.x <= width
        &&& 0 <= self.min.y <= height
        &&& 0 <= self.max.y <= height
    }

    /// Width times height.
    pub open spec fn area(self) -> int {
        self.width_spec() * self.height_spec()
    }

    /// `max.x - min.x`; negative when the corners are swapped.
    pub open spec fn width_spec(self) -> int {
        self.max.x - self.min.x
    }

    /// `max.y - min.y`; negative when the corners are swapped.
    pub open spec fn height_spec(self) -> int {
        self.max.y - self.min.y
    }

    /// The doubled centre: the sum of the two corners.
    pub open spec fn center_spec(self) -> Midpoint {
        Midpoint {
            twice_x: (self.min.x + self.max.x) as i64,
            twice_y: (self.min.y + self.max.y) as i64,
        }
    }

    /// Whether `self` overlaps `other`, touches it, or lies no more than
    /// `reach` away from it on both axes.
    pub open spec fn near(self, other: Rect, reach: int) -> bool {
        &&& spans_within(
            lower(self.min.x as int, self.max.x as int),
            upper(self.min.x as int, self.max.x as int),
            lower(other.min.x as int, other.max.x as int),
            upper(other.min.x as int, other.max.x as int),
            reach,
        )
        &&& spans_within(
            lower(self.min.y as int, self.max.y as int),
            upper(self.min.y as int, self.max.y as int),
            lower(other.min.y as int, other.max.y as int),
            upper(other.min.y as int, other.max.y as int),
            reach,
        )
    }

    /// A rectangle from its four coordinates.
    pub fn new(min_x: i32, min_y: i32, max_x: i32, max_y: i32) -> (rect: Rect)
        ensures
            rect == self::rect(min_x, min_y, max_x, max_y),
    {
        Rect { min: Point { x: min_x, y: min_y }, max: Point { x: max_x, y: max_y } }
    }

    pub fn is_well_formed(&self) -> (yes: bool)
        ensures
            yes == self.well_formed(),
    {
        self.min.x < self.max.x && self.min.y < self.max.y
    }

    pub fn width(&self) -> (w: i64)
        ensures
            w == self.width_spec(),
    {
        self.max.x as i64 - self.min.x as i64
    }

    pub fn height(&self) -> (h: i64)
        ensures
            h == self.height_spec(),
    {
        self.max.y as i64 - self.min.y as i64
    }

    pub fn center(&self) -> (c: Midpoint)
        ensures
            c == self.center_spec(),
            c.twice_x == self.min.x + self.max.x,
            c.twice_y == self.min.y + self.max.y,
    {
        Midpoint {
            twice_x: self.min.x as i64 + self.max.x as i64,
            twice_y: self.min.y as i64 + self.max.y as i64,
        }
    }

    pub fn is_near(&self, other: &Rect, reach: u32) -> (yes: bool)
        ensures
            yes == self.near(*other, reach as int),
    {
        let r: i64 = reach as i64;
        let (ax0, ax1) = span(self.min.x, self.max.x);
        let (ay0, ay1) = span(self.min.y, self.max.y);
        let (bx0, bx1) = span(other.min.x, other.max.x);
        let (by0, by1) = span(other.min.y, other.max.y);
        ax0 <= bx1 + r && bx0 <= ax1 + r && ay0 <= by1 + r && by0 <= ay1 + r
    }
}

/// Two coordinates, smaller first, widened so that sums cannot overflow.
fn span(a: i32, b: i32) -> (span: (i64, i64))
    ensures
        span.0 == lower(a as int, b as int),
        span.1 == upper(a as int, b as int),
{
    if a <= b {
        (a as i64, b as i64)
    } else {
        (b as i64, a as i64)
    }
}

/// Nearness does not depend on which rectangle is asked.
pub proof fn lemma_near_is_symmetric(a: Rect, b: Rect, reach: int)
    ensures
        a.near(b, reach) == b.near(a, reach),
{
}

} // verus!
