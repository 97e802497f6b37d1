//! Points, sizes and boxes in layout space and in device space.

use vstd::prelude::*;
use euclid::default::Box2D;
use euclid::point2;
use crate::arith::{clamp_to_unit, clamp_unit};

verus! {

/// A point in layout space, in whole layout units.
#[derive(Clone, Copy, Debug, PartialEq, Eq, Hash, Structural)]
pub struct LayoutPoint {
    pub x: i32,
    pub y: i32,
}

/// A size in layout space, in whole layout units.
#[derive(Clone, Copy, Debug, PartialEq, Eq, Hash, Structural)]
pub struct LayoutSize {
    pub width: i32,
    pub height: i32,
}

/// A box in layout space: `min` is inside, `max` is outside.
#[derive(Clone, Copy, Debug, PartialEq, Eq, Hash, Structural)]
pub struct LayoutRect {
    pub min: LayoutPoint,
    pub max: LayoutPoint,
}

/// A size in device pixels.
#[derive(Clone, Copy, Debug, PartialEq, Eq, Hash, Structural)]
pub struct DeviceIntSize {
    pub width: i32,
    pub height: i32,
}

/// A point in device pixels.
#[derive(Clone, Copy, Debug, PartialEq, Eq, Hash, Structural)]
pub struct DeviceIntPoint {
    pub x: i32,
    pub y: i32,
}

/// A box in device pixels: `min` is inside, `max` is outside.
#[derive(Clone, Copy, Debug, PartialEq, Eq, Hash, Structural)]
pub struct DeviceIntRect {
    pub min: DeviceIntPoint,
    pub max: DeviceIntPoint,
}

/// The column and row of a tile of a tiled image.
#[derive(Clone, Copy, Debug, PartialEq, Eq, Hash, Structural)]
pub struct TileOffset {
    pub x: i32,
    pub y: i32,
}

pub open spec fn spec_max(a: int, b: int) -> int {
    if a >= b { a } else { b }
}

pub open spec fn spec_min(a: int, b: int) -> int {
    if a <= b { a } else { b }
}

impl LayoutSize {
    pub fn new(width: i32, height: i32) -> (s: Self)
        ensures
            s == (LayoutSize { width, height }),
    {
        LayoutSize { width, height }
    }

    /// The size without extent.
    pub open spec fn spec_zero() -> Self {
        LayoutSize { width: 0, height: 0 }
    }

    /// The sum of two sizes on each axis, clamped into layout units.
    pub open spec fn spec_plus(self, other: LayoutSize) -> LayoutSize {
        LayoutSize {
            width: clamp_unit(self.width + other.width) as i32,
            height: clamp_unit(self.height + other.height) as i32,
        }
    }

    #[verifier::when_used_as_spec(spec_zero)]
    pub fn zero() -> (s: Self)
        ensures
            s == Self::spec_zero(),
    {
        LayoutSize { width: 0, height: 0 }
    }

    /// The sum of two sizes. Layout arithmetic does not trap: a sum that
    /// leaves the range of a layout unit stays at the end of the range.
    #[verifier::when_used_as_spec(spec_plus)]
    pub fn plus(self, other: LayoutSize) -> (s: LayoutSize)
        ensures
            s == self.spec_plus(other),
    {
        LayoutSize {
            width: clamp_to_unit(self.width as i128 + other.width as i128),
            height: clamp_to_unit(self.height as i128 + other.height as i128),
        }
    }
}

impl LayoutRect {
    pub fn new(min: LayoutPoint, max: LayoutPoint) -> (r: Self)
        ensures
            r == (LayoutRect { min, max }),
    {
        LayoutRect { min, max }
    }

    /// The box at the origin that holds no point.
    pub open spec fn spec_zero() -> Self {
        LayoutRect { min: LayoutPoint { x: 0, y: 0 }, max: LayoutPoint { x: 0, y: 0 } }
    }

    #[verifier::when_used_as_spec(spec_zero)]
    pub fn zero() -> (r: Self)
        ensures
            r == Self::spec_zero(),
    {
        LayoutRect { min: LayoutPoint { x: 0, y: 0 }, max: LayoutPoint { x: 0, y: 0 } }
    }

    /// The box that starts at `origin` and has `size`, its far corner
    /// clamped into layout units.
    pub open spec fn spec_from_origin_and_size(origin: LayoutPoint, size: LayoutSize) -> Self {
        LayoutRect {
            min: origin,
            max: LayoutPoint {
                x: clamp_unit(origin.x + size.width) as i32,
                y: clamp_unit(origin.y + size.height) as i32,
            },
        }
    }

    #[verifier::when_used_as_spec(spec_from_origin_and_size)]
    pub fn from_origin_and_size(origin: LayoutPoint, size: LayoutSize) -> (r: Self)
        ensures
            r == Self::spec_from_origin_and_size(origin, size),
    {
        LayoutRect {
            min: origin,
            max: LayoutPoint {
                x: clamp_to_unit(origin.x as i128 + size.width as i128),
                y: clamp_to_unit(origin.y as i128 + size.height as i128),
            },
        }
    }

    /// The horizontal extent, which may be negative.
    pub open spec fn spec_width(&self) -> int {
        self.max.x - self.min.x
    }

    /// The vertical extent, which may be negative.
    pub open spec fn spec_height(&self) -> int {
        self.max.y - self.min.y
    }

    /// No point lies in the box.
    pub open spec fn spec_is_empty(&self) -> bool {
        !(self.max.x > self.min.x && self.max.y > self.min.y)
    }

    /// The point `(x, y)` lies in the box.
    pub open spec fn contains(&self, x: int, y: int) -> bool {
        self.min.x <= x < self.max.x && self.min.y <= y < self.max.y
    }

    /// The box of the points that `self` and `other` share, if there are any.
    pub open spec fn spec_intersection(&self, other: &LayoutRect) -> Option<LayoutRect> {
        let r = LayoutRect {
            min: LayoutPoint {
                x: spec_max(self.min.x as int, other.min.x as int) as i32,
                y: spec_max(self.min.y as int, other.min.y as int) as i32,
            },
            max: LayoutPoint {
                x: spec_min(self.max.x as int, other.max.x as int) as i32,
                y: spec_min(self.max.y as int, other.max.y as int) as i32,
            },
        };
        if r.spec_is_empty() {
            None
        } else {
            Some(r)
        }
    }

    pub fn width(&self) -> (w: i64)
        ensures
            w == self.spec_width(),
    {
        self.max.x as i64 - self.min.x as i64
    }

    pub fn height(&self) -> (h: i64)
        ensures
            h == self.spec_height(),
    {
        self.max.y as i64 - self.min.y as i64
    }

    #[verifier::when_used_as_spec(spec_is_empty)]
    pub fn is_empty(&self) -> (e: bool)
        ensures
            e == self.spec_is_empty(),
    {
        !(self.max.x > self.min.x && self.max.y > self.min.y)
    }

    /// The box of the points that `self` and `other` share, or `None` where
    /// they share none.
    #[verifier::when_used_as_spec(spec_intersection)]
    pub fn intersection(&self, other: &LayoutRect) -> (r: Option<LayoutRect>)
        ensures
            r == self.spec_intersection(other),
    {
        box_intersection(self, other)
    }
}

/// Calls `euclid::Box2D::intersection` on the two boxes. The result is the
/// box from the larger of the two minima to the smaller of the two maxima on
/// each axis, or `None` where that box holds no point.
#[verifier::external_body]
fn box_intersection(a: &LayoutRect, b: &LayoutRect) -> (r: Option<LayoutRect>)
    ensures
        r == a.spec_intersection(b),
{
    let a = Box2D::new(point2(a.min.x, a.min.y), point2(a.max.x, a.max.y));
    let b = Box2D::new(point2(b.min.x, b.min.y), point2(b.max.x, b.max.y));
    a.intersection(&b).map(|r: Box2D<i32>| LayoutRect {
        min: LayoutPoint { x: r.min.x, y: r.min.y },
        max: LayoutPoint { x: r.max.x, y: r.max.y },
    })
}

/// Two boxes that share a point have an intersection, and a point lies in
/// the intersection exactly when it lies in both.
pub proof fn lemma_intersection_contains(a: LayoutRect, b: LayoutRect, x: int, y: int)
    ensures
        match a.spec_intersection(&b) {
            Some(r) => r.contains(x, y) == (a.contains(x, y) && b.contains(x, y)),
            None => !(a.contains(x, y) && b.contains(x, y)),
        },
{
}

impl DeviceIntSize {
    pub fn new(width: i32, height: i32) -> (s: Self)
        ensures
            s == (DeviceIntSize { width, height }),
    {
        DeviceIntSize { width, height }
    }
}

impl DeviceIntRect {
    pub open spec fn spec_width(&self) -> int {
        self.max.x - self.min.x
    }

    pub open spec fn spec_height(&self) -> int {
        self.max.y - self.min.y
    }

    pub open spec fn spec_is_empty(&self) -> bool {
        !(self.max.x > self.min.x && self.max.y > self.min.y)
    }

    #[verifier::when_used_as_spec(spec_is_empty)]
    pub fn is_empty(&self) -> (e: bool)
        ensures
            e == self.spec_is_empty(),
    {
        !(self.max.x > self.min.x && self.max.y > self.min.y)
    }
}

} // verus!
