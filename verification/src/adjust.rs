//! The adjustment between the box an image primitive was laid out with and
//! the box that was actually rasterized for it.
//!
//! An adjustment moves each corner of a box by a fraction of the box's own
//! size. The four fractions are kept exactly, as numerators over the size of
//! the reference box they were measured on.

use vstd::prelude::*;
use crate::arith::{clamp_to_unit, clamp_unit, scale_floor, span_bound};
use crate::units::{LayoutPoint, LayoutRect, LayoutSize};

verus! {

/// Largest magnitude of a numerator or denominator of an adjustment: the
/// largest difference of two 32-bit coordinates.
pub open spec fn offset_bound() -> int {
    0xffff_ffff
}

/// The mathematical content of an adjustment: the fractions
/// `x0 / width`, `y0 / height`, `x1 / width`, `y1 / height`.
pub struct Adjustment {
    pub x0: int,
    pub y0: int,
    pub x1: int,
    pub y1: int,
    pub width: int,
    pub height: int,
}

impl Adjustment {
    /// The denominators are positive and everything is within bounds.
    pub open spec fn well_formed(self) -> bool {
        &&& 0 < self.width <= offset_bound()
        &&& 0 < self.height <= offset_bound()
        &&& -offset_bound() <= self.x0 <= offset_bound()
        &&& -offset_bound() <= self.y0 <= offset_bound()
        &&& -offset_bound() <= self.x1 <= offset_bound()
        &&& -offset_bound() <= self.y1 <= offset_bound()
    }

    /// All four fractions are zero.
    pub open spec fn is_identity(self) -> bool {
        self.x0 == 0 && self.y0 == 0 && self.x1 == 0 && self.y1 == 0
    }

    /// The adjustment that turns `reference` into `actual`.
    pub open spec fn between(reference: LayoutRect, actual: LayoutRect) -> Adjustment {
        Adjustment {
            x0: actual.min.x - reference.min.x,
            y0: actual.min.y - reference.min.y,
            x1: actual.max.x - reference.max.x,
            y1: actual.max.y - reference.max.y,
            width: reference.spec_width(),
            height: reference.spec_height(),
        }
    }

    /// The left edge of `rect` after the adjustment, before clamping.
    pub open spec fn exact_min_x(self, rect: LayoutRect) -> int {
        rect.min.x + (rect.spec_width() * self.x0) / self.width
    }

    /// The top edge of `rect` after the adjustment, before clamping.
    pub open spec fn exact_min_y(self, rect: LayoutRect) -> int {
        rect.min.y + (rect.spec_height() * self.y0) / self.height
    }

    /// The right edge of `rect` after the adjustment, before clamping.
    pub open spec fn exact_max_x(self, rect: LayoutRect) -> int {
        rect.max.x + (rect.spec_width() * self.x1) / self.width
    }

    /// The bottom edge of `rect` after the adjustment, before clamping.
    pub open spec fn exact_max_y(self, rect: LayoutRect) -> int {
        rect.max.y + (rect.spec_height() * self.y1) / self.height
    }

    /// `width` scaled by `1 + x1 - x0`, before clamping.
    pub open spec fn exact_stretch_width(self, width: int) -> int {
        (width * (self.width + self.x1 - self.x0)) / self.width
    }

    /// `height` scaled by `1 + y1 - y0`, before clamping.
    pub open spec fn exact_stretch_height(self, height: int) -> int {
        (height * (self.height + self.y1 - self.y0)) / self.height
    }

    /// `rect` with each corner moved by the adjustment's fraction of the
    /// size of `rect`, each coordinate clamped into a layout unit.
    pub open spec fn map_local_rect(self, rect: LayoutRect) -> LayoutRect {
        LayoutRect {
            min: LayoutPoint {
                x: clamp_unit(self.exact_min_x(rect)) as i32,
                y: clamp_unit(self.exact_min_y(rect)) as i32,
            },
            max: LayoutPoint {
                x: clamp_unit(self.exact_max_x(rect)) as i32,
                y: clamp_unit(self.exact_max_y(rect)) as i32,
            },
        }
    }

    /// `size` scaled by `(1 + x1 - x0, 1 + y1 - y0)`, clamped into layout
    /// units.
    pub open spec fn map_stretch_size(self, size: LayoutSize) -> LayoutSize {
        LayoutSize {
            width: clamp_unit(self.exact_stretch_width(size.width as int)) as i32,
            height: clamp_unit(self.exact_stretch_height(size.height as int)) as i32,
        }
    }
}

/// An adjustment to apply to an image primitive, to make up for a difference
/// between the box the primitive expects and the box that was cached.
#[derive(Clone, Copy, Debug)]
pub struct AdjustedImageSource {
    x0: i64,
    y0: i64,
    x1: i64,
    y1: i64,
    width: i64,
    height: i64,
}

impl View for AdjustedImageSource {
    type V = Adjustment;

    closed spec fn view(&self) -> Adjustment {
        Adjustment {
            x0: self.x0 as int,
            y0: self.y0 as int,
            x1: self.x1 as int,
            y1: self.y1 as int,
            width: self.width as int,
            height: self.height as int,
        }
    }
}

impl AdjustedImageSource {
    #[verifier::type_invariant]
    closed spec fn inv(&self) -> bool {
        self@.well_formed()
    }

    /// The identity adjustment.
    pub closed spec fn spec_new() -> Self {
        AdjustedImageSource { x0: 0, y0: 0, x1: 0, y1: 0, width: 1, height: 1 }
    }

    /// The identity adjustment is well formed and all its fractions are
    /// zero.
    pub proof fn lemma_new_is_identity()
        ensures
            Self::spec_new()@.well_formed(),
            Self::spec_new()@.is_identity(),
    {
    }

    /// The identity adjustment.
    #[verifier::when_used_as_spec(spec_new)]
    pub fn new() -> (r: Self)
        ensures
            r == Self::spec_new(),
            r@.well_formed(),
            r@.is_identity(),
    {
        AdjustedImageSource { x0: 0, y0: 0, x1: 0, y1: 0, width: 1, height: 1 }
    }

    /// The adjustment for an image item that was laid out for `reference`
    /// while `actual` was cached.
    pub fn from_rects(reference: &LayoutRect, actual: &LayoutRect) -> (r: Self)
        requires
            !reference.spec_is_empty(),
        ensures
            r@ == Adjustment::between(*reference, *actual),
            r@.well_formed(),
    {
        AdjustedImageSource {
            x0: actual.min.x as i64 - reference.min.x as i64,
            y0: actual.min.y as i64 - reference.min.y as i64,
            x1: actual.max.x as i64 - reference.max.x as i64,
            y1: actual.max.y as i64 - reference.max.y as i64,
            width: reference.width(),
            height: reference.height(),
        }
    }

    /// Adjusts the primitive's box.
    pub fn map_local_rect(&self, rect: &LayoutRect) -> (r: LayoutRect)
        ensures
            self@.well_formed(),
            r == self@.map_local_rect(*rect),
    {
        proof {
            use_type_invariant(self);
        }
        let w = rect.width();
        let h = rect.height();
        let dx0 = scale_floor(w, self.x0, self.width);
        let dy0 = scale_floor(h, self.y0, self.height);
        let dx1 = scale_floor(w, self.x1, self.width);
        let dy1 = scale_floor(h, self.y1, self.height);
        proof {
            lemma_scaled_bound(w as int, self.x0 as int, self.width as int);
            lemma_scaled_bound(h as int, self.y0 as int, self.height as int);
            lemma_scaled_bound(w as int, self.x1 as int, self.width as int);
            lemma_scaled_bound(h as int, self.y1 as int, self.height as int);
        }
        LayoutRect {
            min: LayoutPoint {
                x: clamp_to_unit(rect.min.x as i128 + dx0),
                y: clamp_to_unit(rect.min.y as i128 + dy0),
            },
            max: LayoutPoint {
                x: clamp_to_unit(rect.max.x as i128 + dx1),
                y: clamp_to_unit(rect.max.y as i128 + dy1),
            },
        }
    }

    /// Adjusts a stretch size. The stretch size is given for the box the
    /// primitive was laid out with and has to follow the box that was
    /// rasterized: it is scaled by the ratio of the two sizes, which is
    /// `(1 + x1 - x0, 1 + y1 - y0)`.
    pub fn map_stretch_size(&self, size: LayoutSize) -> (r: LayoutSize)
        ensures
            self@.well_formed(),
            r == self@.map_stretch_size(size),
    {
        proof {
            use_type_invariant(self);
        }
        let fx: i64 = self.width + self.x1 - self.x0;
        let fy: i64 = self.height + self.y1 - self.y0;
        let w = scale_floor(size.width as i64, fx, self.width);
        let h = scale_floor(size.height as i64, fy, self.height);
        LayoutSize { width: clamp_to_unit(w), height: clamp_to_unit(h) }
    }
}

/// A floored quotient of a product of spans by a positive number is no
/// larger in magnitude than the product.
pub proof fn lemma_scaled_bound(value: int, num: int, den: int)
    requires
        -span_bound() <= value <= span_bound(),
        -span_bound() <= num <= span_bound(),
        0 < den,
    ensures
        -span_bound() * span_bound() <= (value * num) / den <= span_bound() * span_bound(),
{
    crate::arith::lemma_span_product(value, num);
    let p = value * num;
    assert(-span_bound() * span_bound() <= p / den <= span_bound() * span_bound())
        by (nonlinear_arith)
        requires
            -span_bound() * span_bound() <= p <= span_bound() * span_bound(),
            0 < den,
    ;
}

/// Applying the adjustment between `reference` and `actual` to `reference`
/// gives `actual` back.
pub proof fn lemma_round_trip(reference: LayoutRect, actual: LayoutRect)
    requires
        !reference.spec_is_empty(),
    ensures
        Adjustment::between(reference, actual).map_local_rect(reference) == actual,
{
    let a = Adjustment::between(reference, actual);
    let w = reference.spec_width();
    let h = reference.spec_height();
    assert((w * a.x0) / w == a.x0) by (nonlinear_arith)
        requires
            w > 0,
    ;
    assert((w * a.x1) / w == a.x1) by (nonlinear_arith)
        requires
            w > 0,
    ;
    assert((h * a.y0) / h == a.y0) by (nonlinear_arith)
        requires
            h > 0,
    ;
    assert((h * a.y1) / h == a.y1) by (nonlinear_arith)
        requires
            h > 0,
    ;
}

/// The identity adjustment leaves every stretch size as it is.
pub proof fn lemma_identity_keeps_stretch_size(a: Adjustment, size: LayoutSize)
    requires
        a.well_formed(),
        a.is_identity(),
    ensures
        a.map_stretch_size(size) == size,
{
    let w = size.width as int;
    let h = size.height as int;
    assert((w * (a.width + 0 - 0)) / a.width == w) by (nonlinear_arith)
        requires
            a.width > 0,
    ;
    assert((h * (a.height + 0 - 0)) / a.height == h) by (nonlinear_arith)
        requires
            a.height > 0,
    ;
}

/// The identity adjustment leaves every box as it is.
pub proof fn lemma_identity_keeps_rect(a: Adjustment, rect: LayoutRect)
    requires
        a.well_formed(),
        a.is_identity(),
    ensures
        a.map_local_rect(rect) == rect,
{
    let w = rect.spec_width();
    let h = rect.spec_height();
    assert((w * 0) / a.width == 0) by (nonlinear_arith)
        requires
            a.width > 0,
    ;
    assert((h * 0) / a.height == 0) by (nonlinear_arith)
        requires
            a.height > 0,
    ;
}

/// The scaled stretch size is the size of the adjusted box: before clamping
/// the two differ by less than one layout unit on each axis, the stretch
/// size being the smaller.
pub proof fn lemma_stretch_size_follows_rect(a: Adjustment, rect: LayoutRect)
    requires
        a.well_formed(),
    ensures
        a.exact_stretch_width(rect.spec_width()) <= a.exact_max_x(rect) - a.exact_min_x(rect)
            <= a.exact_stretch_width(rect.spec_width()) + 1,
        a.exact_stretch_height(rect.spec_height()) <= a.exact_max_y(rect) - a.exact_min_y(rect)
            <= a.exact_stretch_height(rect.spec_height()) + 1,
{
    lemma_floor_difference(rect.spec_width(), a.x0, a.x1, a.width);
    lemma_floor_difference(rect.spec_height(), a.y0, a.y1, a.height);
}

/// For the box the adjustment was measured on, the scaled stretch size is
/// exactly the size of the adjusted box.
pub proof fn lemma_stretch_size_of_reference(reference: LayoutRect, actual: LayoutRect)
    requires
        !reference.spec_is_empty(),
    ensures
        ({
            let a = Adjustment::between(reference, actual);
            &&& a.exact_stretch_width(reference.spec_width()) == actual.spec_width()
            &&& a.exact_stretch_height(reference.spec_height()) == actual.spec_height()
        }),
{
    let a = Adjustment::between(reference, actual);
    let w = reference.spec_width();
    let h = reference.spec_height();
    let fx = a.width + a.x1 - a.x0;
    let fy = a.height + a.y1 - a.y0;
    assert((w * fx) / w == fx) by (nonlinear_arith)
        requires
            w > 0,
    ;
    assert((h * fy) / h == fy) by (nonlinear_arith)
        requires
            h > 0,
    ;
}

/// `floor(e*(d + n1 - n0)/d)` against `e + floor(e*n1/d) - floor(e*n0/d)`.
proof fn lemma_floor_difference(e: int, n0: int, n1: int, d: int)
    requires
        d > 0,
    ensures
        (e * (d + n1 - n0)) / d <= e + (e * n1) / d - (e * n0) / d <= (e * (d + n1 - n0)) / d + 1,
{
    let low = e * n0;
    let high = e * n1;
    assert(e * (d + n1 - n0) == e * d + high - low) by (nonlinear_arith)
        requires
            low == e * n0,
            high == e * n1,
    ;
    let t = e * d + high - low;
    assert(t / d <= e + high / d - low / d <= t / d + 1) by (nonlinear_arith)
        requires
            d > 0,
            t == e * d + high - low,
    ;
}

} // verus!
