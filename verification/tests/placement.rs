use anchored_overlay::anchor::{AnchorCorner, OverlayFitMode};
use anchored_overlay::fit::resolve_fit;
use anchored_overlay::geometry::{px, round_to_pixels, Bounds, Point, Size};
use anchored_overlay::overlay::{overlay, resolve_placement};

const PX: i64 = 1000;

fn viewport(width: i64, height: i64) -> Bounds {
    Bounds {
        origin: Point { x: 0, y: 0 },
        size: Size { width: width * PX, height: height * PX },
    }
}

#[test]
fn no_overflow_keeps_desired_rectangle_switch_anchor() {
    let origin = Point { x: 100 * PX, y: 100 * PX };
    let size = Size { width: 50 * PX, height: 20 * PX };
    let (corner, resolved) = resolve_fit(
        AnchorCorner::TopLeft,
        origin,
        size,
        OverlayFitMode::SwitchAnchor,
        viewport(500, 500),
    );
    assert_eq!(corner, AnchorCorner::TopLeft);
    assert_eq!(resolved.origin, origin);
    assert_eq!(resolved.size, size);
}

#[test]
fn no_overflow_keeps_desired_rectangle_snap_to_window() {
    let origin = Point { x: 100 * PX, y: 100 * PX };
    let size = Size { width: 50 * PX, height: 20 * PX };
    let (corner, resolved) = resolve_fit(
        AnchorCorner::TopLeft,
        origin,
        size,
        OverlayFitMode::SnapToWindow,
        viewport(500, 500),
    );
    assert_eq!(corner, AnchorCorner::TopLeft);
    assert_eq!(resolved.origin, origin);
    assert_eq!(resolved.size, size);
}

#[test]
fn switch_anchor_adopts_fitting_horizontal_flip() {
    let origin = Point { x: 490 * PX, y: 10 * PX };
    let size = Size { width: 50 * PX, height: 20 * PX };
    let (corner, resolved) = resolve_fit(
        AnchorCorner::TopLeft,
        origin,
        size,
        OverlayFitMode::SwitchAnchor,
        viewport(500, 500),
    );
    assert_eq!(corner, AnchorCorner::TopRight);
    assert_eq!(resolved.origin, Point { x: 440 * PX, y: 10 * PX });
}

#[test]
fn switch_anchor_rejected_flip_falls_back_to_clamp() {
    let origin = Point { x: 90 * PX, y: 10 * PX };
    let size = Size { width: 200 * PX, height: 20 * PX };
    let (corner, resolved) = resolve_fit(
        AnchorCorner::TopLeft,
        origin,
        size,
        OverlayFitMode::SwitchAnchor,
        viewport(100, 100),
    );
    assert_eq!(corner, AnchorCorner::TopLeft);
    assert_eq!(resolved.origin.x, 0);
    assert_eq!(resolved.origin.y, 10 * PX);
}

#[test]
fn snap_to_window_clamps_and_never_flips() {
    let origin = Point { x: 90 * PX, y: 10 * PX };
    let size = Size { width: 200 * PX, height: 20 * PX };
    let (corner, resolved) = resolve_fit(
        AnchorCorner::TopLeft,
        origin,
        size,
        OverlayFitMode::SnapToWindow,
        viewport(100, 100),
    );
    assert_eq!(corner, AnchorCorner::TopLeft);
    assert_eq!(resolved.origin.x, 0);
    assert_eq!(resolved.origin.y, 10 * PX);
}

#[test]
fn axes_resolve_independently_with_different_outcomes() {
    let origin = Point { x: 490 * PX, y: 450 * PX };
    let size = Size { width: 50 * PX, height: 600 * PX };
    let (corner, resolved) = resolve_fit(
        AnchorCorner::TopLeft,
        origin,
        size,
        OverlayFitMode::SwitchAnchor,
        viewport(500, 500),
    );
    assert_eq!(corner, AnchorCorner::TopRight);
    assert_eq!(resolved.origin, Point { x: 440 * PX, y: 0 });
}

#[test]
fn vertical_check_starts_from_post_horizontal_corner() {
    let origin = Point { x: 490 * PX, y: 450 * PX };
    let size = Size { width: 50 * PX, height: 100 * PX };
    let (corner, resolved) = resolve_fit(
        AnchorCorner::TopLeft,
        origin,
        size,
        OverlayFitMode::SwitchAnchor,
        viewport(500, 500),
    );
    assert_eq!(corner, AnchorCorner::BottomRight);
    assert_eq!(resolved.origin, Point { x: 440 * PX, y: 350 * PX });
}

#[test]
fn oversized_content_ends_up_left_and_top_aligned() {
    let origin = Point { x: 90 * PX, y: 90 * PX };
    let size = Size { width: 200 * PX, height: 300 * PX };
    for fit_mode in [OverlayFitMode::SwitchAnchor, OverlayFitMode::SnapToWindow] {
        let (_, resolved) = resolve_fit(
            AnchorCorner::TopLeft,
            origin,
            size,
            fit_mode,
            viewport(100, 100),
        );
        assert_eq!(resolved.origin, Point { x: 0, y: 0 });
    }
}

#[test]
fn px_converts_whole_pixels_to_subpixel_units() {
    assert_eq!(px(10), 10 * PX);
    assert_eq!(px(-3), -3 * PX);
    assert_eq!(round_to_pixels(px(42)), 42);
}

#[test]
fn rounding_is_to_nearest_with_halves_away_from_zero() {
    assert_eq!(round_to_pixels(10_400), 10);
    assert_eq!(round_to_pixels(20_600), 21);
    assert_eq!(round_to_pixels(10_500), 11);
    assert_eq!(round_to_pixels(-10_400), -10);
    assert_eq!(round_to_pixels(-10_500), -11);
    assert_eq!(round_to_pixels(0), 0);
}

#[test]
fn fractional_reference_resolves_to_integral_offset() {
    let config = overlay().position(Point { x: 10_400, y: 20_600 });
    let child_bounds = vec![Bounds {
        origin: Point { x: 0, y: 0 },
        size: Size { width: 5 * PX, height: 5 * PX },
    }];
    let offset = resolve_placement(
        &config,
        Point { x: 0, y: 0 },
        &child_bounds,
        Size { width: 500 * PX, height: 500 * PX },
    );
    assert_eq!(offset, Some(Point { x: 10, y: 21 }));
}

#[test]
fn empty_children_resolve_to_no_placement() {
    let config = overlay();
    let child_bounds: Vec<Bounds> = vec![];
    let offset = resolve_placement(
        &config,
        Point { x: 10 * PX, y: 10 * PX },
        &child_bounds,
        Size { width: 500 * PX, height: 500 * PX },
    );
    assert_eq!(offset, None);
}

#[test]
fn placement_uses_own_origin_without_override() {
    let config = overlay();
    let child_bounds = vec![Bounds {
        origin: Point { x: 0, y: 0 },
        size: Size { width: 10 * PX, height: 10 * PX },
    }];
    let offset = resolve_placement(
        &config,
        Point { x: 30 * PX, y: 40 * PX },
        &child_bounds,
        Size { width: 500 * PX, height: 500 * PX },
    );
    assert_eq!(offset, Some(Point { x: 30, y: 40 }));
}
