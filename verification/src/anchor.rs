//! The anchor model: which corner of the floating rectangle is pinned to
//! the reference point, and how that corner flips across an axis.

use vstd::prelude::*;

use crate::geometry::{bottom_of, point_in_range, right_of, size_wf, Bounds, Point, Size};

verus! {

/// An axis of the plane, along which an anchor corner can be flipped.
#[derive(Clone, Copy, PartialEq, Eq, Structural, Debug)]
pub enum Axis {
    Horizontal,
    Vertical,
}

/// Policy for resolving viewport overflow: flip the anchor corner, or
/// clamp to the viewport edge.
#[derive(Clone, Copy, PartialEq, Eq, Structural, Debug)]
pub enum OverlayFitMode {
    SnapToWindow,
    SwitchAnchor,
}

/// The corner of the floating rectangle that coincides with the
/// reference point.
#[derive(Clone, Copy, PartialEq, Eq, Structural, Debug)]
pub enum AnchorCorner {
    TopLeft,
    TopRight,
    BottomLeft,
    BottomRight,
}

/// The corner reached from `c` by flipping across `axis`: the horizontal
/// axis swaps left and right, the vertical axis swaps top and bottom.
pub open spec fn switched(c: AnchorCorner, axis: Axis) -> AnchorCorner {
    match axis {
        Axis::Vertical => match c {
            AnchorCorner::TopLeft => AnchorCorner::BottomLeft,
            AnchorCorner::TopRight => AnchorCorner::BottomRight,
            AnchorCorner::BottomLeft => AnchorCorner::TopLeft,
            AnchorCorner::BottomRight => AnchorCorner::TopRight,
        },
        Axis::Horizontal => match c {
            AnchorCorner::TopLeft => AnchorCorner::TopRight,
            AnchorCorner::TopRight => AnchorCorner::TopLeft,
            AnchorCorner::BottomLeft => AnchorCorner::BottomRight,
            AnchorCorner::BottomRight => AnchorCorner::BottomLeft,
        },
    }
}

/// The x origin of the rectangle of size `size` whose corner `c` sits at
/// `origin`: right-hand corners put the rectangle to the left of the
/// reference point.
pub open spec fn anchored_x(c: AnchorCorner, origin: Point, size: Size) -> int {
    match c {
        AnchorCorner::TopLeft => origin.x as int,
        AnchorCorner::BottomLeft => origin.x as int,
        AnchorCorner::TopRight => origin.x - size.width,
        AnchorCorner::BottomRight => origin.x - size.width,
    }
}

/// The y origin of the rectangle of size `size` whose corner `c` sits at
/// `origin`: bottom corners put the rectangle above the reference point.
pub open spec fn anchored_y(c: AnchorCorner, origin: Point, size: Size) -> int {
    match c {
        AnchorCorner::TopLeft => origin.y as int,
        AnchorCorner::TopRight => origin.y as int,
        AnchorCorner::BottomLeft => origin.y - size.height,
        AnchorCorner::BottomRight => origin.y - size.height,
    }
}

/// The x coordinate of corner `c` of an already-placed rectangle.
pub open spec fn corner_x(c: AnchorCorner, b: Bounds) -> int {
    match c {
        AnchorCorner::TopLeft => b.origin.x as int,
        AnchorCorner::BottomLeft => b.origin.x as int,
        AnchorCorner::TopRight => right_of(b),
        AnchorCorner::BottomRight => right_of(b),
    }
}

/// The y coordinate of corner `c` of an already-placed rectangle.
pub open spec fn corner_y(c: AnchorCorner, b: Bounds) -> int {
    match c {
        AnchorCorner::TopLeft => b.origin.y as int,
        AnchorCorner::TopRight => b.origin.y as int,
        AnchorCorner::BottomLeft => bottom_of(b),
        AnchorCorner::BottomRight => bottom_of(b),
    }
}

impl AnchorCorner {
    /// The rectangle of the given `size` such that this corner of the
    /// rectangle sits exactly at `origin`.
    pub fn get_bounds(&self, origin: Point, size: Size) -> (r: Bounds)
        requires
            point_in_range(origin),
            size_wf(size),
        ensures
            r.origin.x == anchored_x(*self, origin, size),
            r.origin.y == anchored_y(*self, origin, size),
            r.size == size,
            corner_x(*self, r) == origin.x,
            corner_y(*self, r) == origin.y,
    {
        let rect_origin = match self {
            Self::TopLeft => origin,
            Self::TopRight => Point { x: origin.x - size.width, y: origin.y },
            Self::BottomLeft => Point { x: origin.x, y: origin.y - size.height },
            Self::BottomRight => Point {
                x: origin.x - size.width,
                y: origin.y - size.height,
            },
        };
        Bounds { origin: rect_origin, size }
    }

    /// The point where this corner of an already-placed rectangle sits.
    pub fn corner(&self, bounds: Bounds) -> (r: Point)
        requires
            i64::MIN <= right_of(bounds) <= i64::MAX,
            i64::MIN <= bottom_of(bounds) <= i64::MAX,
        ensures
            r.x == corner_x(*self, bounds),
            r.y == corner_y(*self, bounds),
    {
        match self {
            Self::TopLeft => bounds.origin,
            Self::TopRight => bounds.upper_right(),
            Self::BottomLeft => bounds.lower_left(),
            Self::BottomRight => bounds.lower_right(),
        }
    }

    /// The corner reached by flipping across `axis`.
    pub fn switch_axis(self, axis: Axis) -> (r: Self)
        ensures
            r == switched(self, axis),
    {
        match axis {
            Axis::Vertical => match self {
                AnchorCorner::TopLeft => AnchorCorner::BottomLeft,
                AnchorCorner::TopRight => AnchorCorner::BottomRight,
                AnchorCorner::BottomLeft => AnchorCorner::TopLeft,
                AnchorCorner::BottomRight => AnchorCorner::TopRight,
            },
            Axis::Horizontal => match self {
                AnchorCorner::TopLeft => AnchorCorner::TopRight,
                AnchorCorner::TopRight => AnchorCorner::TopLeft,
                AnchorCorner::BottomLeft => AnchorCorner::BottomRight,
                AnchorCorner::BottomRight => AnchorCorner::BottomLeft,
            },
        }
    }
}

/// Flipping across the same axis twice restores the original corner:
/// `switched` is an involution on the set of anchor corners.
pub proof fn lemma_switch_axis_involutive(c: AnchorCorner, axis: Axis)
    ensures
        switched(switched(c, axis), axis) == c,
{
}

} // verus!
