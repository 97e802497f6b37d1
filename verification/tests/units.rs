use image_prim::mask::EdgeAaSegmentMask;
use image_prim::prim::{compute_conservative_visible_rect, ClipChainInstance, PrimitiveOpacity};
use image_prim::units::{
    DeviceIntPoint, DeviceIntRect, LayoutPoint, LayoutRect, LayoutSize,
};

fn rect(x0: i32, y0: i32, x1: i32, y1: i32) -> LayoutRect {
    LayoutRect { min: LayoutPoint { x: x0, y: y0 }, max: LayoutPoint { x: x1, y: y1 } }
}

#[test]
fn intersection_of_overlapping_boxes() {
    let a = rect(0, 0, 100, 50);
    let b = rect(40, -10, 200, 20);
    assert_eq!(a.intersection(&b), Some(rect(40, 0, 100, 20)));
    assert_eq!(b.intersection(&a), Some(rect(40, 0, 100, 20)));
}

#[test]
fn intersection_of_boxes_that_only_touch_is_none() {
    let a = rect(0, 0, 100, 50);
    assert_eq!(a.intersection(&rect(100, 0, 200, 50)), None);
    assert_eq!(a.intersection(&rect(0, 50, 100, 60)), None);
    assert_eq!(a.intersection(&rect(300, 300, 400, 400)), None);
}

#[test]
fn intersection_with_an_empty_box_is_none() {
    let a = rect(0, 0, 100, 50);
    assert_eq!(a.intersection(&rect(10, 10, 10, 40)), None);
    assert_eq!(a.intersection(&LayoutRect::zero()), None);
}

#[test]
fn rect_extent_and_emptiness() {
    let r = rect(i32::MIN, 0, i32::MAX, 10);
    assert_eq!(r.width(), 4_294_967_295);
    assert_eq!(r.height(), 10);
    assert!(!r.is_empty());
    assert!(rect(5, 5, 5, 9).is_empty());
    assert!(rect(5, 5, 2, 9).is_empty());
    let device = DeviceIntRect {
        min: DeviceIntPoint { x: 0, y: 0 },
        max: DeviceIntPoint { x: 0, y: 4 },
    };
    assert!(device.is_empty());
}

#[test]
fn from_origin_and_size_clamps_the_far_corner() {
    let origin = LayoutPoint { x: 10, y: i32::MAX - 5 };
    let r = LayoutRect::from_origin_and_size(origin, LayoutSize { width: 20, height: 20 });
    assert_eq!(r, rect(10, i32::MAX - 5, 30, i32::MAX));
}

#[test]
fn size_sum_clamps() {
    let a = LayoutSize { width: 50, height: i32::MAX };
    let b = LayoutSize { width: 10, height: 10 };
    assert_eq!(a.plus(b), LayoutSize { width: 60, height: i32::MAX });
    assert_eq!(LayoutSize::new(3, 4), LayoutSize { width: 3, height: 4 });
    assert_eq!(LayoutSize::zero(), LayoutSize { width: 0, height: 0 });
}

#[test]
fn edge_mask_operations() {
    let lr = EdgeAaSegmentMask { left: true, top: false, right: true, bottom: false };
    let lt = EdgeAaSegmentMask { left: true, top: true, right: false, bottom: false };
    assert_eq!(
        lr.union(lt),
        EdgeAaSegmentMask { left: true, top: true, right: true, bottom: false }
    );
    assert_eq!(
        lr.intersection(lt),
        EdgeAaSegmentMask { left: true, top: false, right: false, bottom: false }
    );
    assert_eq!(EdgeAaSegmentMask::all().bits(), 15);
    assert_eq!(lr.bits(), 5);
    assert_eq!(lt.bits(), 3);
    assert!(EdgeAaSegmentMask::empty().is_empty());
    assert!(!lr.is_empty());
}

#[test]
fn opacity_from_alpha() {
    assert!(PrimitiveOpacity::from_alpha(255).is_opaque);
    assert!(!PrimitiveOpacity::from_alpha(254).is_opaque);
    assert!(!PrimitiveOpacity::from_alpha(0).is_opaque);
    assert!(PrimitiveOpacity::opaque().is_opaque);
    assert!(!PrimitiveOpacity::translucent().is_opaque);
}

#[test]
fn conservative_visible_rect() {
    let clip_chain = ClipChainInstance { local_clip_rect: rect(0, 0, 500, 500) };
    assert_eq!(
        compute_conservative_visible_rect(&clip_chain, Some(rect(-100, 200, 300, 900))),
        rect(0, 200, 300, 500)
    );
    assert_eq!(compute_conservative_visible_rect(&clip_chain, None), LayoutRect::zero());
    assert_eq!(
        compute_conservative_visible_rect(&clip_chain, Some(rect(600, 600, 700, 700))),
        LayoutRect::zero()
    );
}
