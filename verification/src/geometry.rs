//! Points, sizes and axis-aligned rectangles in fixed-point layout units.
//!
//! A coordinate is a signed count of subpixel units; `SUBPIXELS_PER_PIXEL`
//! of them make one pixel, which gives the sub-pixel precision the layout
//! system works at while keeping every value an integer.

use vstd::prelude::*;

verus! {

/// How many subpixel units make one pixel.
pub const SUBPIXELS_PER_PIXEL: i64 = 1000;

/// Half a pixel, used when rounding to whole pixels.
pub const SUBPIXEL_HALF: i64 = 500;

/// Magnitude bound on the coordinates a placement request may carry.
/// It leaves ample headroom in `i64` for the few additions and
/// subtractions the fit resolver performs.
pub const COORD_LIMIT: i64 = 0x0100_0000_0000_0000;

/// Magnitude bound on the sizes a placement request may carry; measured
/// content never exceeds it when every child lies within `COORD_LIMIT`.
pub const SIZE_LIMIT: i64 = 0x0400_0000_0000_0000;

/// A coordinate small enough for placement arithmetic.
pub open spec fn in_range(x: int) -> bool {
    -(COORD_LIMIT as int) <= x <= COORD_LIMIT as int
}

/// The smaller of two integers.
pub open spec fn min2(a: int, b: int) -> int {
    if a <= b {
        a
    } else {
        b
    }
}

/// The larger of two integers.
pub open spec fn max2(a: int, b: int) -> int {
    if a >= b {
        a
    } else {
        b
    }
}

/// A 2D coordinate in layout units.
#[derive(Clone, Copy, PartialEq, Eq, Structural, Debug)]
pub struct Point {
    pub x: i64,
    pub y: i64,
}

/// Width and height of a rectangle, in layout units.
#[derive(Clone, Copy, PartialEq, Eq, Structural, Debug)]
pub struct Size {
    pub width: i64,
    pub height: i64,
}

/// An axis-aligned rectangle: an origin (its top-left point) and a size.
#[derive(Clone, Copy, PartialEq, Eq, Structural, Debug)]
pub struct Bounds {
    pub origin: Point,
    pub size: Size,
}

/// Both coordinates of the point are small enough for placement arithmetic.
pub open spec fn point_in_range(p: Point) -> bool {
    in_range(p.x as int) && in_range(p.y as int)
}

/// The size is non-negative and small enough for placement arithmetic.
pub open spec fn size_wf(s: Size) -> bool {
    0 <= s.width <= SIZE_LIMIT as int && 0 <= s.height <= SIZE_LIMIT as int
}

/// The rectangle has an in-range origin and a well-formed size.
pub open spec fn bounds_wf(b: Bounds) -> bool {
    point_in_range(b.origin) && size_wf(b.size)
}

/// The x coordinate just past the rectangle's right edge.
pub open spec fn right_of(b: Bounds) -> int {
    b.origin.x + b.size.width
}

/// The y coordinate just past the rectangle's bottom edge.
pub open spec fn bottom_of(b: Bounds) -> int {
    b.origin.y + b.size.height
}

/// The rectangle lies entirely within the box of coordinates that
/// placement arithmetic accepts, and its size is non-negative.
pub open spec fn bounds_in_box(b: Bounds) -> bool {
    &&& point_in_range(b.origin)
    &&& in_range(right_of(b))
    &&& in_range(bottom_of(b))
    &&& b.size.width >= 0
    &&& b.size.height >= 0
}

impl Point {
    /// The component-wise minimum of two points.
    pub fn min(&self, other: &Point) -> (r: Point)
        ensures
            r.x == min2(self.x as int, other.x as int),
            r.y == min2(self.y as int, other.y as int),
    {
        Point {
            x: if self.x <= other.x {
                self.x
            } else {
                other.x
            },
            y: if self.y <= other.y {
                self.y
            } else {
                other.y
            },
        }
    }

    /// The component-wise maximum of two points.
    pub fn max(&self, other: &Point) -> (r: Point)
        ensures
            r.x == max2(self.x as int, other.x as int),
            r.y == max2(self.y as int, other.y as int),
    {
        Point {
            x: if self.x >= other.x {
                self.x
            } else {
                other.x
            },
            y: if self.y >= other.y {
                self.y
            } else {
                other.y
            },
        }
    }
}

impl Bounds {
    /// The x coordinate of the left edge.
    pub fn left(&self) -> (r: i64)
        ensures
            r == self.origin.x,
    {
        self.origin.x
    }

    /// The y coordinate of the top edge.
    pub fn top(&self) -> (r: i64)
        ensures
            r == self.origin.y,
    {
        self.origin.y
    }

    /// The x coordinate just past the right edge.
    pub fn right(&self) -> (r: i64)
        requires
            i64::MIN <= self.origin.x + self.size.width <= i64::MAX,
        ensures
            r == right_of(*self),
    {
        self.origin.x + self.size.width
    }

    /// The y coordinate just past the bottom edge.
    pub fn bottom(&self) -> (r: i64)
        requires
            i64::MIN <= self.origin.y + self.size.height <= i64::MAX,
        ensures
            r == bottom_of(*self),
    {
        self.origin.y + self.size.height
    }

    /// The top-right corner point.
    pub fn upper_right(&self) -> (r: Point)
        requires
            i64::MIN <= self.origin.x + self.size.width <= i64::MAX,
        ensures
            r.x == right_of(*self),
            r.y == self.origin.y,
    {
        Point { x: self.origin.x + self.size.width, y: self.origin.y }
    }

    /// The bottom-left corner point.
    pub fn lower_left(&self) -> (r: Point)
        requires
            i64::MIN <= self.origin.y + self.size.height <= i64::MAX,
        ensures
            r.x == self.origin.x,
            r.y == bottom_of(*self),
    {
        Point { x: self.origin.x, y: self.origin.y + self.size.height }
    }

    /// The bottom-right corner point.
    pub fn lower_right(&self) -> (r: Point)
        requires
            i64::MIN <= self.origin.x + self.size.width <= i64::MAX,
            i64::MIN <= self.origin.y + self.size.height <= i64::MAX,
        ensures
            r.x == right_of(*self),
            r.y == bottom_of(*self),
    {
        Point {
            x: self.origin.x + self.size.width,
            y: self.origin.y + self.size.height,
        }
    }
}

/// The whole pixel nearest to a subpixel coordinate, halves rounded away
/// from zero.
pub open spec fn round_px(v: int) -> int {
    if v >= 0 {
        (v + 500) / 1000
    } else {
        -((-v + 500) / 1000)
    }
}

/// Rounds a subpixel coordinate to the nearest whole pixel, halves away
/// from zero.
pub fn round_to_pixels(v: i64) -> (r: i64)
    requires
        i64::MIN + SUBPIXEL_HALF < v <= i64::MAX - SUBPIXEL_HALF,
    ensures
        r == round_px(v as int),
{
    if v >= 0 {
        (v + SUBPIXEL_HALF) / SUBPIXELS_PER_PIXEL
    } else {
        -((-v + SUBPIXEL_HALF) / SUBPIXELS_PER_PIXEL)
    }
}

/// Rounding goes to the nearest whole pixel: the rounded origin is never
/// more than half a pixel away from the exact subpixel coordinate, on
/// either side.
pub proof fn lemma_round_px_nearest(v: int)
    ensures
        -(SUBPIXEL_HALF as int) <= v - (SUBPIXELS_PER_PIXEL as int) * round_px(v),
        v - (SUBPIXELS_PER_PIXEL as int) * round_px(v) <= SUBPIXEL_HALF as int,
{
    if v >= 0 {
        vstd::arithmetic::div_mod::lemma_fundamental_div_mod(v + 500, 1000);
        vstd::arithmetic::div_mod::lemma_mod_bound(v + 500, 1000);
    } else {
        vstd::arithmetic::div_mod::lemma_fundamental_div_mod(-v + 500, 1000);
        vstd::arithmetic::div_mod::lemma_mod_bound(-v + 500, 1000);
    }
}

/// Converts a count of whole pixels to subpixel units.
pub fn px(n: i64) -> (r: i64)
    requires
        -(COORD_LIMIT as int) <= n * (SUBPIXELS_PER_PIXEL as int) <= COORD_LIMIT as int,
    ensures
        r == n * (SUBPIXELS_PER_PIXEL as int),
{
    n * SUBPIXELS_PER_PIXEL
}

} // verus!
