use anchored_overlay::anchor::{AnchorCorner, Axis};
use anchored_overlay::geometry::{Point, Size};

const PX: i64 = 1000;

#[test]
fn corner_offset_bottom_right_places_corner_at_origin() {
    let origin = Point { x: 100 * PX, y: 100 * PX };
    let size = Size { width: 20 * PX, height: 10 * PX };
    let bounds = AnchorCorner::BottomRight.get_bounds(origin, size);
    assert_eq!(bounds.origin, Point { x: 80 * PX, y: 90 * PX });
    assert_eq!(bounds.size, size);
}

#[test]
fn corner_offset_each_corner() {
    let origin = Point { x: 100 * PX, y: 100 * PX };
    let size = Size { width: 20 * PX, height: 10 * PX };
    assert_eq!(
        AnchorCorner::TopLeft.get_bounds(origin, size).origin,
        Point { x: 100 * PX, y: 100 * PX }
    );
    assert_eq!(
        AnchorCorner::TopRight.get_bounds(origin, size).origin,
        Point { x: 80 * PX, y: 100 * PX }
    );
    assert_eq!(
        AnchorCorner::BottomLeft.get_bounds(origin, size).origin,
        Point { x: 100 * PX, y: 90 * PX }
    );
    assert_eq!(
        AnchorCorner::BottomRight.get_bounds(origin, size).origin,
        Point { x: 80 * PX, y: 90 * PX }
    );
}

#[test]
fn corner_returns_the_named_corner_of_placed_bounds() {
    let origin = Point { x: 7 * PX, y: 9 * PX };
    let size = Size { width: 4 * PX, height: 3 * PX };
    for corner in [
        AnchorCorner::TopLeft,
        AnchorCorner::TopRight,
        AnchorCorner::BottomLeft,
        AnchorCorner::BottomRight,
    ] {
        let bounds = corner.get_bounds(origin, size);
        assert_eq!(corner.corner(bounds), origin);
    }
}

#[test]
fn flip_involution_for_every_corner_and_axis() {
    for corner in [
        AnchorCorner::TopLeft,
        AnchorCorner::TopRight,
        AnchorCorner::BottomLeft,
        AnchorCorner::BottomRight,
    ] {
        for axis in [Axis::Horizontal, Axis::Vertical] {
            assert_eq!(corner.switch_axis(axis).switch_axis(axis), corner);
        }
    }
}

#[test]
fn flip_swaps_the_expected_corners() {
    assert_eq!(
        AnchorCorner::TopLeft.switch_axis(Axis::Horizontal),
        AnchorCorner::TopRight
    );
    assert_eq!(
        AnchorCorner::BottomLeft.switch_axis(Axis::Horizontal),
        AnchorCorner::BottomRight
    );
    assert_eq!(
        AnchorCorner::TopLeft.switch_axis(Axis::Vertical),
        AnchorCorner::BottomLeft
    );
    assert_eq!(
        AnchorCorner::TopRight.switch_axis(Axis::Vertical),
        AnchorCorner::BottomRight
    );
}
