//! The fit resolver: given the desired rectangle and the viewport, decide
//! the final rectangle, preferring to keep the floating content fully
//! inside the viewport.
//!
//! The algorithm is a single deterministic pass: with `SwitchAnchor`, at
//! most one anchor flip per axis (horizontal checked before vertical, the
//! vertical check starting from whatever the horizontal check produced),
//! then an edge clamp on each axis that is always applied, in both fit
//! modes. A flip is adopted only if the flipped rectangle strictly stops
//! overflowing on that axis; the clamp shifts a right/bottom overflow
//! back first and only then snaps a left/top underflow to the viewport
//! edge, so oversized content always ends up left/top-aligned.

use vstd::prelude::*;

use crate::anchor::{anchored_x, anchored_y, switched, AnchorCorner, Axis, OverlayFitMode};
use crate::geometry::{bounds_wf, point_in_range, right_of, size_wf, Bounds, Point, Size};

verus! {

/// A span `[lo, lo + len)` lies inside the viewport span `[vlo, vhi]` on
/// one axis.
pub open spec fn fits_axis(lo: int, len: int, vlo: int, vhi: int) -> bool {
    vlo <= lo && lo + len <= vhi
}

/// The edge clamp on one axis: a span overflowing past `vhi` is shifted
/// back by the overflow, and a span that (then) starts before `vlo` is
/// snapped to `vlo`. A span longer than the viewport therefore ends up
/// aligned to `vlo`, never to `vhi`.
pub open spec fn snapped(lo: int, len: int, vlo: int, vhi: int) -> int {
    let shifted = if lo + len > vhi {
        lo - (lo + len - vhi)
    } else {
        lo
    };
    if shifted < vlo {
        vlo
    } else {
        shifted
    }
}

/// The working anchor corner after the horizontal overflow check: flipped
/// across the horizontal axis exactly when the desired rectangle
/// overflows horizontally and the flipped candidate does not.
pub open spec fn corner_after_h(
    c: AnchorCorner,
    origin: Point,
    size: Size,
    limits: Bounds,
) -> AnchorCorner {
    let vlo = limits.origin.x as int;
    let vhi = right_of(limits);
    let flipped = switched(c, Axis::Horizontal);
    if !fits_axis(anchored_x(c, origin, size), size.width as int, vlo, vhi) && fits_axis(
        anchored_x(flipped, origin, size),
        size.width as int,
        vlo,
        vhi,
    ) {
        flipped
    } else {
        c
    }
}

/// The working anchor corner after the vertical overflow check, applied
/// to the corner the horizontal check produced.
pub open spec fn corner_after_v(
    c: AnchorCorner,
    origin: Point,
    size: Size,
    limits: Bounds,
) -> AnchorCorner {
    let vlo = limits.origin.y as int;
    let vhi = crate::geometry::bottom_of(limits);
    let flipped = switched(c, Axis::Vertical);
    if !fits_axis(anchored_y(c, origin, size), size.height as int, vlo, vhi) && fits_axis(
        anchored_y(flipped, origin, size),
        size.height as int,
        vlo,
        vhi,
    ) {
        flipped
    } else {
        c
    }
}

/// The anchor corner the resolver settles on: with `SwitchAnchor`, the
/// horizontal then the vertical check, each flipping at most once; with
/// `SnapToWindow`, the original corner untouched.
pub open spec fn resolved_corner(
    c: AnchorCorner,
    origin: Point,
    size: Size,
    fit: OverlayFitMode,
    limits: Bounds,
) -> AnchorCorner {
    if fit == OverlayFitMode::SwitchAnchor {
        corner_after_v(corner_after_h(c, origin, size, limits), origin, size, limits)
    } else {
        c
    }
}

/// The final x origin: the resolved corner's anchored x, edge-clamped to
/// the viewport's horizontal span.
pub open spec fn resolved_x(
    c: AnchorCorner,
    origin: Point,
    size: Size,
    fit: OverlayFitMode,
    limits: Bounds,
) -> int {
    snapped(
        anchored_x(resolved_corner(c, origin, size, fit, limits), origin, size),
        size.width as int,
        limits.origin.x as int,
        right_of(limits),
    )
}

/// The final y origin: the resolved corner's anchored y, edge-clamped to
/// the viewport's vertical span.
pub open spec fn resolved_y(
    c: AnchorCorner,
    origin: Point,
    size: Size,
    fit: OverlayFitMode,
    limits: Bounds,
) -> int {
    snapped(
        anchored_y(resolved_corner(c, origin, size, fit, limits), origin, size),
        size.height as int,
        limits.origin.y as int,
        crate::geometry::bottom_of(limits),
    )
}

/// Resolves the placement of a floating rectangle of `size` anchored at
/// `origin` by `anchor_corner`, against the viewport `limits`, with the
/// given fit mode. Returns the anchor corner the resolver settled on and
/// the final (unrounded) rectangle.
pub fn resolve_fit(
    anchor_corner: AnchorCorner,
    origin: Point,
    size: Size,
    fit_mode: OverlayFitMode,
    limits: Bounds,
) -> (r: (AnchorCorner, Bounds))
    requires
        point_in_range(origin),
        size_wf(size),
        bounds_wf(limits),
    ensures
        r.0 == resolved_corner(anchor_corner, origin, size, fit_mode, limits),
        r.1.origin.x == resolved_x(anchor_corner, origin, size, fit_mode, limits),
        r.1.origin.y == resolved_y(anchor_corner, origin, size, fit_mode, limits),
        r.1.size == size,
{
    let mut corner = anchor_corner;
    let mut desired = corner.get_bounds(origin, size);

    if fit_mode == OverlayFitMode::SwitchAnchor {
        if desired.left() < limits.left() || desired.right() > limits.right() {
            let flipped = corner.switch_axis(Axis::Horizontal);
            let candidate = flipped.get_bounds(origin, size);
            if !(candidate.left() < limits.left() || candidate.right() > limits.right()) {
                corner = flipped;
                desired = candidate;
            }
        }

        if desired.top() < limits.top() || desired.bottom() > limits.bottom() {
            let flipped = corner.switch_axis(Axis::Vertical);
            let candidate = flipped.get_bounds(origin, size);
            if !(candidate.top() < limits.top() || candidate.bottom() > limits.bottom()) {
                corner = flipped;
                desired = candidate;
            }
        }
    }

    if desired.right() > limits.right() {
        let overflow: i64 = desired.right() - limits.right();
        desired.origin.x = desired.origin.x - overflow;
    }
    if desired.left() < limits.left() {
        desired.origin.x = limits.origin.x;
    }

    if desired.bottom() > limits.bottom() {
        let overflow: i64 = desired.bottom() - limits.bottom();
        desired.origin.y = desired.origin.y - overflow;
    }
    if desired.top() < limits.top() {
        desired.origin.y = limits.origin.y;
    }

    (corner, desired)
}

/// If the desired rectangle already fits entirely within the viewport,
/// the resolver is the identity: no flip happens and the clamp moves
/// nothing, in both fit modes.
pub proof fn lemma_no_overflow_identity(
    c: AnchorCorner,
    origin: Point,
    size: Size,
    fit: OverlayFitMode,
    limits: Bounds,
)
    requires
        fits_axis(
            anchored_x(c, origin, size),
            size.width as int,
            limits.origin.x as int,
            right_of(limits),
        ),
        fits_axis(
            anchored_y(c, origin, size),
            size.height as int,
            limits.origin.y as int,
            crate::geometry::bottom_of(limits),
        ),
    ensures
        resolved_corner(c, origin, size, fit, limits) == c,
        resolved_x(c, origin, size, fit, limits) == anchored_x(c, origin, size),
        resolved_y(c, origin, size, fit, limits) == anchored_y(c, origin, size),
{
}

/// The two overflow checks are evaluated horizontal-first but are
/// independent in outcome: the final x origin is settled by the
/// horizontal check alone, and the final y origin comes out as if the
/// vertical check had started from the original corner, even though it
/// actually starts from the corner the horizontal check produced.
pub proof fn lemma_axes_independent(
    c: AnchorCorner,
    origin: Point,
    size: Size,
    fit: OverlayFitMode,
    limits: Bounds,
)
    ensures
        resolved_x(c, origin, size, fit, limits) == snapped(
            anchored_x(
                if fit == OverlayFitMode::SwitchAnchor {
                    corner_after_h(c, origin, size, limits)
                } else {
                    c
                },
                origin,
                size,
            ),
            size.width as int,
            limits.origin.x as int,
            right_of(limits),
        ),
        resolved_y(c, origin, size, fit, limits) == snapped(
            anchored_y(
                if fit == OverlayFitMode::SwitchAnchor {
                    corner_after_v(c, origin, size, limits)
                } else {
                    c
                },
                origin,
                size,
            ),
            size.height as int,
            limits.origin.y as int,
            crate::geometry::bottom_of(limits),
        ),
{
}

/// With `SnapToWindow` the resolver never flips the anchor corner: the
/// result is exactly the edge clamp of the unflipped desired rectangle.
pub proof fn lemma_snap_to_window_never_switches(
    c: AnchorCorner,
    origin: Point,
    size: Size,
    limits: Bounds,
)
    ensures
        resolved_corner(c, origin, size, OverlayFitMode::SnapToWindow, limits) == c,
        resolved_x(c, origin, size, OverlayFitMode::SnapToWindow, limits) == snapped(
            anchored_x(c, origin, size),
            size.width as int,
            limits.origin.x as int,
            right_of(limits),
        ),
        resolved_y(c, origin, size, OverlayFitMode::SnapToWindow, limits) == snapped(
            anchored_y(c, origin, size),
            size.height as int,
            limits.origin.y as int,
            crate::geometry::bottom_of(limits),
        ),
{
}

} // verus!
