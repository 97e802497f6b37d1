use image_prim::adjust::AdjustedImageSource;
use image_prim::units::{LayoutPoint, LayoutRect, LayoutSize};

fn rect(x0: i32, y0: i32, x1: i32, y1: i32) -> LayoutRect {
    LayoutRect { min: LayoutPoint { x: x0, y: y0 }, max: LayoutPoint { x: x1, y: y1 } }
}

#[test]
fn from_rects_round_trip() {
    let reference = rect(10, 20, 110, 70);
    let actual = rect(0, 25, 150, 60);
    let adjustment = AdjustedImageSource::from_rects(&reference, &actual);
    assert_eq!(adjustment.map_local_rect(&reference), actual);
}

#[test]
fn from_rects_round_trip_at_the_ends_of_the_range() {
    let reference = rect(i32::MIN, i32::MIN, i32::MAX, i32::MAX);
    let actual = rect(i32::MAX, 7, i32::MIN, -7);
    let adjustment = AdjustedImageSource::from_rects(&reference, &actual);
    assert_eq!(adjustment.map_local_rect(&reference), actual);
    let back = AdjustedImageSource::from_rects(&rect(0, 0, 1, 1), &reference);
    assert_eq!(back.map_local_rect(&rect(0, 0, 1, 1)), reference);
}

#[test]
fn identity_keeps_stretch_size() {
    let size = LayoutSize { width: 37, height: -4 };
    assert_eq!(AdjustedImageSource::new().map_stretch_size(size), size);
    let large = LayoutSize { width: i32::MAX, height: i32::MIN };
    assert_eq!(AdjustedImageSource::new().map_stretch_size(large), large);
}

#[test]
fn identity_keeps_rect() {
    let r = rect(-5, 3, 40, 90);
    assert_eq!(AdjustedImageSource::new().map_local_rect(&r), r);
}

#[test]
fn map_local_rect_moves_corners_by_fractions_of_the_size() {
    // Fractions: x0 = -10/100, y0 = 5/50, x1 = 40/100, y1 = -10/50.
    let adjustment =
        AdjustedImageSource::from_rects(&rect(10, 20, 110, 70), &rect(0, 25, 150, 60));
    // A box of twice the size moves by twice as much.
    let mapped = adjustment.map_local_rect(&rect(0, 0, 200, 100));
    assert_eq!(mapped, rect(-20, 10, 280, 80));
}

#[test]
fn map_local_rect_floors_fractions_of_a_unit() {
    // Fractions: x0 = 1/3, x1 = -1/3, none on the other axis.
    let adjustment = AdjustedImageSource::from_rects(&rect(0, 0, 3, 3), &rect(1, 0, 2, 3));
    // 10 * 1/3 = 3.33 floors to 3; 10 * -1/3 = -3.33 floors to -4.
    assert_eq!(adjustment.map_local_rect(&rect(0, 0, 10, 10)), rect(3, 0, 6, 10));
}

#[test]
fn map_local_rect_clamps_into_the_range() {
    let adjustment = AdjustedImageSource::from_rects(&rect(0, 0, 1, 1), &rect(-3, -3, 4, 4));
    let mapped = adjustment.map_local_rect(&rect(-1_000_000_000, 0, 1_000_000_000, 10));
    assert_eq!(mapped, rect(i32::MIN, -30, i32::MAX, 40));
}

#[test]
fn map_stretch_size_scales_by_the_ratio_of_the_sizes() {
    // The rasterized box is 150 wide for a reference of 100, and 35 high
    // for a reference of 50.
    let adjustment =
        AdjustedImageSource::from_rects(&rect(10, 20, 110, 70), &rect(0, 25, 150, 60));
    let mapped = adjustment.map_stretch_size(LayoutSize { width: 100, height: 50 });
    assert_eq!(mapped, LayoutSize { width: 150, height: 35 });
    let other = adjustment.map_stretch_size(LayoutSize { width: 7, height: 7 });
    // 7 * 1.5 = 10.5 floors to 10; 7 * 0.7 = 4.9 floors to 4.
    assert_eq!(other, LayoutSize { width: 10, height: 4 });
}

#[test]
fn stretch_size_of_the_reference_is_the_size_of_the_rasterized_box() {
    let reference = rect(-30, 4, 12, 19);
    let actual = rect(-35, 0, 20, 17);
    let adjustment = AdjustedImageSource::from_rects(&reference, &actual);
    let size = LayoutSize { width: 42, height: 15 };
    let mapped = adjustment.map_local_rect(&reference);
    assert_eq!(
        adjustment.map_stretch_size(size),
        LayoutSize { width: mapped.max.x - mapped.min.x, height: mapped.max.y - mapped.min.y }
    );
}
