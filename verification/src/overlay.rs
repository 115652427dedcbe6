//! The overlay element: configuration surface, the measurement step that
//! derives the floating content's natural size from its children, and the
//! full placement pipeline ending in an integral pixel offset.

use vstd::prelude::*;

use crate::anchor::{AnchorCorner, OverlayFitMode};
use crate::fit::{resolve_fit, resolved_x, resolved_y};
use crate::geometry::{
    bounds_in_box, max2, min2, point_in_range, right_of, round_px, round_to_pixels, size_wf,
    Bounds, Point, Size, COORD_LIMIT,
};

verus! {

/// Configuration of a floating element: which corner is anchored, how
/// overflow is resolved, and an optional explicit reference position that
/// overrides the element's own layout origin.
pub struct Overlay {
    pub anchor_corner: AnchorCorner,
    pub fit_mode: OverlayFitMode,
    pub anchor_position: Option<Point>,
}

/// A floating element that avoids overflowing the window bounds, with the
/// default configuration: anchored at its top-left corner, resolving
/// overflow by switching the anchor corner, positioned at its own layout
/// origin.
pub fn overlay() -> (r: Overlay)
    ensures
        r.anchor_corner == AnchorCorner::TopLeft,
        r.fit_mode == OverlayFitMode::SwitchAnchor,
        r.anchor_position is None,
{
    Overlay {
        anchor_corner: AnchorCorner::TopLeft,
        fit_mode: OverlayFitMode::SwitchAnchor,
        anchor_position: None,
    }
}

impl Overlay {
    /// Sets which corner of the overlay is anchored to the reference
    /// position.
    pub fn anchor(self, anchor: AnchorCorner) -> (r: Self)
        ensures
            r.anchor_corner == anchor,
            r.fit_mode == self.fit_mode,
            r.anchor_position == self.anchor_position,
    {
        Overlay {
            anchor_corner: anchor,
            fit_mode: self.fit_mode,
            anchor_position: self.anchor_position,
        }
    }

    /// Sets the reference position in window coordinates; without it the
    /// overlay's own layout origin is used.
    pub fn position(self, anchor: Point) -> (r: Self)
        ensures
            r.anchor_corner == self.anchor_corner,
            r.fit_mode == self.fit_mode,
            r.anchor_position == Some(anchor),
    {
        Overlay {
            anchor_corner: self.anchor_corner,
            fit_mode: self.fit_mode,
            anchor_position: Some(anchor),
        }
    }

    /// Snap to the window edges instead of switching the anchor corner
    /// when an overflow would occur.
    pub fn snap_to_window(self) -> (r: Self)
        ensures
            r.anchor_corner == self.anchor_corner,
            r.fit_mode == OverlayFitMode::SnapToWindow,
            r.anchor_position == self.anchor_position,
    {
        Overlay {
            anchor_corner: self.anchor_corner,
            fit_mode: OverlayFitMode::SnapToWindow,
            anchor_position: self.anchor_position,
        }
    }
}

/// How the overlay participates in layout: its own box never affects
/// sibling flow layout.
#[derive(Clone, Copy, PartialEq, Eq, Structural, Debug)]
pub enum StylePosition {
    Relative,
    Absolute,
}

/// How the overlay lays out its children.
#[derive(Clone, Copy, PartialEq, Eq, Structural, Debug)]
pub enum StyleDisplay {
    Flex,
    Block,
}

/// The layout box an overlay requests for itself: absolutely positioned,
/// flexibly flowed, so it never affects sibling flow layout.
pub fn overlay_layout_style() -> (r: (StylePosition, StyleDisplay))
    ensures
        r.0 == StylePosition::Absolute,
        r.1 == StyleDisplay::Flex,
{
    (StylePosition::Absolute, StyleDisplay::Flex)
}

/// The smallest x origin among the rectangles of a non-empty sequence.
pub open spec fn min_left(s: Seq<Bounds>) -> int
    decreases s.len(),
{
    if s.len() <= 1 {
        s[0].origin.x as int
    } else {
        min2(min_left(s.drop_last()), s.last().origin.x as int)
    }
}

/// The smallest y origin among the rectangles of a non-empty sequence.
pub open spec fn min_top(s: Seq<Bounds>) -> int
    decreases s.len(),
{
    if s.len() <= 1 {
        s[0].origin.y as int
    } else {
        min2(min_top(s.drop_last()), s.last().origin.y as int)
    }
}

/// The largest right edge among the rectangles of a non-empty sequence.
pub open spec fn max_right(s: Seq<Bounds>) -> int
    decreases s.len(),
{
    if s.len() <= 1 {
        right_of(s[0])
    } else {
        max2(max_right(s.drop_last()), right_of(s.last()))
    }
}

/// The largest bottom edge among the rectangles of a non-empty sequence.
pub open spec fn max_bottom(s: Seq<Bounds>) -> int
    decreases s.len(),
{
    if s.len() <= 1 {
        crate::geometry::bottom_of(s[0])
    } else {
        max2(max_bottom(s.drop_last()), crate::geometry::bottom_of(s.last()))
    }
}

/// The size of the union bounds of a non-empty sequence of rectangles:
/// from the component-wise minimum of their top-left corners to the
/// component-wise maximum of their bottom-right corners.
pub open spec fn extent_of(s: Seq<Bounds>) -> Size {
    Size {
        width: (max_right(s) - min_left(s)) as i64,
        height: (max_bottom(s) - min_top(s)) as i64,
    }
}

/// The reference point of a placement: the explicit override when one is
/// configured, the element's own layout origin otherwise.
pub open spec fn ref_point(anchor_position: Option<Point>, fallback: Point) -> Point {
    match anchor_position {
        Some(p) => p,
        None => fallback,
    }
}

/// The viewport as a rectangle: its origin is always `(0, 0)`.
pub open spec fn viewport_limits(viewport_size: Size) -> Bounds {
    Bounds { origin: Point { x: 0, y: 0 }, size: viewport_size }
}

/// The measurement step: the union bounds of the children, or `None`
/// when there are no children and placement is skipped entirely.
pub fn measure_children(child_bounds: &Vec<Bounds>) -> (r: Option<Size>)
    requires
        forall|i: int| 0 <= i < child_bounds@.len() ==> bounds_in_box(#[trigger] child_bounds@[i]),
    ensures
        (r is Some) == (child_bounds@.len() > 0),
        r matches Some(sz) ==> sz == extent_of(child_bounds@) && size_wf(sz),
{
    if child_bounds.len() == 0 {
        return None;
    }
    let first = child_bounds[0];
    let mut child_min: Point = first.origin;
    let mut child_max: Point = first.lower_right();
    let mut i: usize = 1;
    while i < child_bounds.len()
        invariant
            1 <= i <= child_bounds@.len(),
            forall|j: int| 0 <= j < child_bounds@.len() ==> bounds_in_box(#[trigger] child_bounds@[j]),
            child_min.x == min_left(child_bounds@.take(i as int)),
            child_min.y == min_top(child_bounds@.take(i as int)),
            child_max.x == max_right(child_bounds@.take(i as int)),
            child_max.y == max_bottom(child_bounds@.take(i as int)),
            -(COORD_LIMIT as int) <= child_min.x <= child_max.x <= COORD_LIMIT as int,
            -(COORD_LIMIT as int) <= child_min.y <= child_max.y <= COORD_LIMIT as int,
        decreases child_bounds@.len() - i,
    {
        let child = child_bounds[i];
        proof {
            assert(child_bounds@.take(i + 1).drop_last() =~= child_bounds@.take(i as int));
            assert(child_bounds@.take(i + 1).last() == child_bounds@[i as int]);
        }
        child_min = child_min.min(&child.origin);
        child_max = child_max.max(&child.lower_right());
        i = i + 1;
    }
    proof {
        assert(child_bounds@.take(child_bounds@.len() as int) =~= child_bounds@);
    }
    Some(
        Size {
            width: child_max.x - child_min.x,
            height: child_max.y - child_min.y,
        },
    )
}

/// The offset a placement request resolves to: the fit resolver's final
/// origin, rounded to whole pixels on both axes.
pub open spec fn resolved_offset(
    corner: AnchorCorner,
    fit: OverlayFitMode,
    anchor_position: Option<Point>,
    fallback: Point,
    children: Seq<Bounds>,
    viewport_size: Size,
) -> Point {
    let origin = ref_point(anchor_position, fallback);
    let size = extent_of(children);
    let limits = viewport_limits(viewport_size);
    Point {
        x: round_px(resolved_x(corner, origin, size, fit, limits)) as i64,
        y: round_px(resolved_y(corner, origin, size, fit, limits)) as i64,
    }
}

/// One full placement request: measure the children, resolve the fit
/// against the viewport, and round the final origin to whole pixels.
/// With no children nothing is positioned and `None` is returned.
pub fn resolve_placement(
    config: &Overlay,
    bounds_origin: Point,
    child_bounds: &Vec<Bounds>,
    viewport_size: Size,
) -> (r: Option<Point>)
    requires
        point_in_range(bounds_origin),
        config.anchor_position matches Some(p) ==> point_in_range(p),
        size_wf(viewport_size),
        forall|i: int| 0 <= i < child_bounds@.len() ==> bounds_in_box(#[trigger] child_bounds@[i]),
    ensures
        (r is Some) == (child_bounds@.len() > 0),
        r matches Some(off) ==> off == resolved_offset(
            config.anchor_corner,
            config.fit_mode,
            config.anchor_position,
            bounds_origin,
            child_bounds@,
            viewport_size,
        ),
{
    let measured = measure_children(child_bounds);
    match measured {
        None => None,
        Some(size) => {
            let origin = match config.anchor_position {
                Some(p) => p,
                None => bounds_origin,
            };
            let limits = Bounds { origin: Point { x: 0, y: 0 }, size: viewport_size };
            let (_corner, resolved) = resolve_fit(
                config.anchor_corner,
                origin,
                size,
                config.fit_mode,
                limits,
            );
            Some(
                Point {
                    x: round_to_pixels(resolved.origin.x),
                    y: round_to_pixels(resolved.origin.y),
                },
            )
        },
    }
}

} // verus!
