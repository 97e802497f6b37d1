//! Decomposition of a repeated, tiled image into the boxes that are fetched
//! and drawn one by one.
//!
//! A stretched image is repeated over the primitive's box at a stride; each
//! repetition of a tiled image is cut into the tiles of the image that the
//! visible box touches. Both are worked out one axis at a time.

use vstd::prelude::*;
use vstd::arithmetic::div_mod::{lemma_fundamental_div_mod, lemma_fundamental_div_mod_converse};
use crate::arith::{ceil_div, ceil_div_wide, floor_div, scale_floor, span_bound};
use crate::mask::EdgeAaSegmentMask;
use crate::units::{
    spec_max, spec_min, DeviceIntRect, DeviceIntSize, LayoutPoint, LayoutRect, LayoutSize,
    TileOffset,
};

verus! {

/// `x / d >= m` exactly when `x >= m * d`, for a positive `d`.
pub proof fn lemma_floor_ge(x: int, d: int, m: int)
    requires
        d > 0,
    ensures
        (x / d >= m) == (x >= m * d),
{
    assert((x / d >= m) == (x >= m * d)) by (nonlinear_arith)
        requires
            d > 0,
    ;
}

/// `a * p >= y` exactly when `a >= ceil_div(y, p)`, for a positive `p`.
pub proof fn lemma_ceil_le(y: int, p: int, a: int)
    requires
        p > 0,
    ensures
        (a * p >= y) == (a >= ceil_div(y, p)),
{
    lemma_floor_ge(-y, p, -a);
    assert((-a) * p == -(a * p)) by (nonlinear_arith);
}

/// The index of the tile that holds the device pixel `img_min`, for tiles
/// of `tile` pixels that start at multiples of `tile`.
pub open spec fn first_tile_index(img_min: int, tile: int) -> int {
    img_min / tile
}

/// One past the index of the tile that holds the last device pixel before
/// `img_max`.
pub open spec fn end_tile_index(img_max: int, tile: int) -> int {
    ceil_div(img_max, tile)
}

/// The first device pixel of tile `k` of an image that starts at `img_min`.
pub open spec fn tile_first_pixel(img_min: int, tile: int, k: int) -> int {
    spec_max(k * tile, img_min)
}

/// One past the last device pixel of tile `k` of an image that ends before
/// `img_max`.
pub open spec fn tile_end_pixel(img_max: int, tile: int, k: int) -> int {
    spec_min((k + 1) * tile, img_max)
}

/// One axis of a tiled image laid over a box in layout space: the image
/// covers the device pixels from `img_min` to `img_max`, is cut into tiles
/// of `tile` pixels that start at multiples of `tile`, and is stretched
/// over the layout units from `prim_min` to `prim_max`.
pub struct TileAxis {
    pub prim_min: int,
    pub prim_max: int,
    pub img_min: int,
    pub img_max: int,
    pub tile: int,
}

impl TileAxis {
    pub open spec fn valid(self) -> bool {
        &&& i32::MIN <= self.prim_min < self.prim_max <= i32::MAX
        &&& i32::MIN <= self.img_min < self.img_max <= i32::MAX
        &&& 0 < self.tile <= i32::MAX
    }

    /// The index of the first tile of the image.
    pub open spec fn first_tile(self) -> int {
        first_tile_index(self.img_min, self.tile)
    }

    /// One past the index of the last tile of the image.
    pub open spec fn end_tile(self) -> int {
        end_tile_index(self.img_max, self.tile)
    }

    /// The first device pixel of tile `k`.
    pub open spec fn device_start(self, k: int) -> int {
        tile_first_pixel(self.img_min, self.tile, k)
    }

    /// One past the last device pixel of tile `k`.
    pub open spec fn device_end(self, k: int) -> int {
        tile_end_pixel(self.img_max, self.tile, k)
    }

    /// The number of device pixels of tile `k`.
    pub open spec fn device_size(self, k: int) -> int {
        self.device_end(k) - self.device_start(k)
    }

    /// The layout unit at which device pixel `d` of the image starts.
    pub open spec fn to_layout(self, d: int) -> int {
        self.prim_min + ((d - self.img_min) * (self.prim_max - self.prim_min)) / (self.img_max
            - self.img_min)
    }

    /// Where tile `k` starts in layout space.
    pub open spec fn layout_start(self, k: int) -> int {
        self.to_layout(self.device_start(k))
    }

    /// Where tile `k` ends in layout space.
    pub open spec fn layout_end(self, k: int) -> int {
        self.to_layout(self.device_end(k))
    }

    /// Tile `k` reaches into the visible range.
    pub open spec fn touches(self, k: int, vis_min: int, vis_max: int) -> bool {
        self.layout_start(k) < vis_max && self.layout_end(k) > vis_min
    }

    /// The first device pixel that lies past `vis_min` in layout space.
    pub open spec fn device_lower(self, vis_min: int) -> int {
        self.img_min + ceil_div(
            (vis_min - self.prim_min + 1) * (self.img_max - self.img_min),
            self.prim_max - self.prim_min,
        )
    }

    /// The last device pixel that starts before `vis_max` in layout space.
    pub open spec fn device_upper(self, vis_max: int) -> int {
        self.img_min + ceil_div(
            (vis_max - self.prim_min) * (self.img_max - self.img_min),
            self.prim_max - self.prim_min,
        ) - 1
    }

    /// The index of the first tile that reaches past `vis_min`.
    pub open spec fn first_visible(self, vis_min: int) -> int {
        spec_max(self.first_tile(), ceil_div(self.device_lower(vis_min), self.tile) - 1)
    }

    /// One past the index of the last tile that starts before `vis_max`.
    pub open spec fn end_visible(self, vis_max: int) -> int {
        spec_min(self.end_tile(), self.device_upper(vis_max) / self.tile + 1)
    }

    /// The number of tiles that reach into the visible range.
    pub open spec fn visible_count(self, vis_min: int, vis_max: int) -> int {
        self.end_visible(vis_max) - self.first_visible(vis_min)
    }

    /// Device pixels are laid out in order.
    pub proof fn lemma_to_layout_monotone(self, d1: int, d2: int)
        requires
            self.valid(),
            d1 <= d2,
        ensures
            self.to_layout(d1) <= self.to_layout(d2),
    {
        let pw = self.prim_max - self.prim_min;
        let iw = self.img_max - self.img_min;
        let a1 = d1 - self.img_min;
        let a2 = d2 - self.img_min;
        assert((a1 * pw) / iw <= (a2 * pw) / iw) by (nonlinear_arith)
            requires
                a1 <= a2,
                pw > 0,
                iw > 0,
        ;
    }

    /// The image's first pixel lies at the start of the box, its end at the
    /// end of the box.
    pub proof fn lemma_to_layout_ends(self)
        requires
            self.valid(),
        ensures
            self.to_layout(self.img_min) == self.prim_min,
            self.to_layout(self.img_max) == self.prim_max,
    {
        let pw = self.prim_max - self.prim_min;
        let iw = self.img_max - self.img_min;
        assert((0 * pw) / iw == 0) by (nonlinear_arith)
            requires
                iw > 0,
        ;
        assert((iw * pw) / iw == pw) by (nonlinear_arith)
            requires
                iw > 0,
        ;
    }

    /// The image has at least one tile, the first tile starts at the image's
    /// first pixel and the last one ends at its end.
    pub proof fn lemma_tile_range(self)
        requires
            self.valid(),
        ensures
            self.first_tile() < self.end_tile(),
            i32::MIN <= self.first_tile(),
            self.end_tile() <= i32::MAX,
            self.device_start(self.first_tile()) == self.img_min,
            self.device_end(self.end_tile() - 1) == self.img_max,
            self.layout_start(self.first_tile()) == self.prim_min,
            self.layout_end(self.end_tile() - 1) == self.prim_max,
    {
        let t = self.tile;
        let f = self.first_tile();
        let e = self.end_tile();
        lemma_floor_ge(self.img_min, t, f);
        lemma_floor_ge(self.img_min, t, f + 1);
        lemma_ceil_le(self.img_max, t, e);
        lemma_ceil_le(self.img_max, t, e - 1);
        // f * t <= img_min < (f + 1) * t and (e - 1) * t < img_max <= e * t
        assert(f < e) by (nonlinear_arith)
            requires
                f * t <= self.img_min,
                self.img_min < self.img_max,
                self.img_max <= e * t,
                t > 0,
        ;
        assert(i32::MIN <= f) by (nonlinear_arith)
            requires
                self.img_min < (f + 1) * t,
                i32::MIN <= self.img_min,
                t > 0,
        ;
        assert(e <= i32::MAX) by (nonlinear_arith)
            requires
                (e - 1) * t < self.img_max,
                self.img_max <= i32::MAX,
                t > 0,
        ;
        assert(((e - 1) + 1) * t == e * t);
        self.lemma_to_layout_ends();
    }

    /// Inside the image, each tile ends where the next one starts.
    pub proof fn lemma_tiles_adjacent(self, k: int)
        requires
            self.valid(),
            self.first_tile() <= k,
            k + 1 < self.end_tile(),
        ensures
            self.device_end(k) == self.device_start(k + 1),
            self.layout_end(k) == self.layout_start(k + 1),
    {
        let t = self.tile;
        lemma_floor_ge(self.img_min, t, k + 1);
        lemma_ceil_le(self.img_max, t, k + 1);
    }

    /// A tile of the image holds at least one device pixel and lies inside
    /// the image.
    pub proof fn lemma_tile_device_range(self, k: int)
        requires
            self.valid(),
            self.first_tile() <= k < self.end_tile(),
        ensures
            self.img_min <= self.device_start(k) < self.device_end(k) <= self.img_max,
            self.device_size(k) <= self.tile,
            self.prim_min <= self.layout_start(k) <= self.layout_end(k) <= self.prim_max,
    {
        let t = self.tile;
        lemma_floor_ge(self.img_min, t, k + 1);
        lemma_ceil_le(self.img_max, t, k);
        assert((k + 1) * t == k * t + t) by (nonlinear_arith);
        self.lemma_to_layout_ends();
        self.lemma_to_layout_monotone(self.img_min, self.device_start(k));
        self.lemma_to_layout_monotone(self.device_start(k), self.device_end(k));
        self.lemma_to_layout_monotone(self.device_end(k), self.img_max);
    }

    /// A device pixel lies past `v` in layout space exactly from
    /// `device_lower(v)` on.
    pub proof fn lemma_device_lower(self, v: int, d: int)
        requires
            self.valid(),
        ensures
            (self.to_layout(d) > v) == (d >= self.device_lower(v)),
    {
        let pw = self.prim_max - self.prim_min;
        let iw = self.img_max - self.img_min;
        let a = d - self.img_min;
        let u = v - self.prim_min;
        lemma_floor_ge(a * pw, iw, u + 1);
        lemma_ceil_le((u + 1) * iw, pw, a);
    }

    /// A device pixel starts before `v` in layout space exactly up to
    /// `device_upper(v)`.
    pub proof fn lemma_device_upper(self, v: int, d: int)
        requires
            self.valid(),
        ensures
            (self.to_layout(d) < v) == (d <= self.device_upper(v)),
    {
        let pw = self.prim_max - self.prim_min;
        let iw = self.img_max - self.img_min;
        let a = d - self.img_min;
        let u = v - self.prim_min;
        lemma_floor_ge(a * pw, iw, u);
        lemma_ceil_le(u * iw, pw, a);
    }

    /// The tiles from `first_visible` up to `end_visible` are exactly the
    /// tiles of the image that reach into the visible range.
    pub proof fn lemma_visible_range(self, vis_min: int, vis_max: int, k: int)
        requires
            self.valid(),
            self.prim_min <= vis_min < vis_max <= self.prim_max,
            self.first_tile() <= k < self.end_tile(),
        ensures
            (self.first_visible(vis_min) <= k < self.end_visible(vis_max)) == self.touches(
                k,
                vis_min,
                vis_max,
            ),
    {
        let t = self.tile;
        self.lemma_tile_device_range(k);
        self.lemma_to_layout_ends();
        // the lower end
        let lo = self.device_lower(vis_min);
        self.lemma_device_lower(vis_min, self.device_end(k));
        self.lemma_device_lower(vis_min, self.img_max);
        assert(lo <= self.img_max);
        lemma_ceil_le(lo, t, k + 1);
        assert((self.layout_end(k) > vis_min) == (k >= self.first_visible(vis_min)));
        // the upper end
        let hi = self.device_upper(vis_max);
        self.lemma_device_upper(vis_max, self.device_start(k));
        self.lemma_device_upper(vis_max, self.img_min);
        assert(self.img_min <= hi);
        lemma_floor_ge(hi, t, k);
        assert((self.layout_start(k) < vis_max) == (k < self.end_visible(vis_max)));
    }

    /// Every layout unit of the box lies in exactly one tile of the image.
    pub proof fn lemma_unit_in_one_tile(self, x: int) -> (k: int)
        requires
            self.valid(),
            self.prim_min <= x < self.prim_max,
        ensures
            self.first_tile() <= k < self.end_tile(),
            self.layout_start(k) <= x < self.layout_end(k),
            forall|j: int|
                self.first_tile() <= j < self.end_tile() && #[trigger] self.layout_start(j) <= x
                    && x < self.layout_end(j) ==> j == k,
    {
        self.lemma_tile_range();
        let k = self.find_tile(x, self.first_tile());
        assert forall|j: int|
            self.first_tile() <= j < self.end_tile() && #[trigger] self.layout_start(j) <= x && x
                < self.layout_end(j) implies j == k by {
            if j < k {
                self.lemma_tile_order(j, k);
            } else if k < j {
                self.lemma_tile_order(k, j);
            }
        }
        k
    }

    /// Of two tiles of the image, the earlier one ends no later than the
    /// later one starts.
    pub proof fn lemma_tile_order(self, j: int, k: int)
        requires
            self.valid(),
            self.first_tile() <= j < k < self.end_tile(),
        ensures
            self.layout_end(j) <= self.layout_start(k),
    {
        let t = self.tile;
        self.lemma_tile_device_range(j);
        self.lemma_tile_device_range(k);
        assert((j + 1) * t <= k * t) by (nonlinear_arith)
            requires
                j + 1 <= k,
                t > 0,
        ;
        self.lemma_to_layout_monotone(self.device_end(j), self.device_start(k));
    }

    proof fn find_tile(self, x: int, from: int) -> (k: int)
        requires
            self.valid(),
            self.first_tile() <= from < self.end_tile(),
            self.layout_start(from) <= x < self.prim_max,
        ensures
            from <= k < self.end_tile(),
            self.layout_start(k) <= x < self.layout_end(k),
        decreases self.end_tile() - from,
    {
        if x < self.layout_end(from) {
            from
        } else {
            self.lemma_tile_range();
            if from + 1 < self.end_tile() {
                self.lemma_tiles_adjacent(from);
                self.find_tile(x, from + 1)
            } else {
                from
            }
        }
    }
}

/// One axis of an image that is repeated over a box: a cell of the pattern
/// starts every `stride` layout units from `prim_min` on, up to `prim_max`.
pub struct RepeatAxis {
    pub prim_min: int,
    pub prim_max: int,
    pub stride: int,
}

impl RepeatAxis {
    pub open spec fn valid(self) -> bool {
        &&& i32::MIN <= self.prim_min < self.prim_max <= i32::MAX
        &&& 0 < self.stride <= i32::MAX
    }

    /// Where cell `k` of the pattern starts.
    pub open spec fn origin(self, k: int) -> int {
        self.prim_min + k * self.stride
    }

    /// The index of the last cell of the pattern.
    pub open spec fn last_cell(self) -> int {
        ceil_div(self.prim_max - self.prim_min, self.stride) - 1
    }

    /// The index of the cell that holds `vis_min`.
    pub open spec fn first_visible(self, vis_min: int) -> int {
        (vis_min - self.prim_min) / self.stride
    }

    /// One past the index of the last cell that starts before `vis_max`.
    pub open spec fn end_visible(self, vis_max: int) -> int {
        ceil_div(vis_max - self.prim_min, self.stride)
    }

    /// The number of cells that reach into the visible range.
    pub open spec fn visible_count(self, vis_min: int, vis_max: int) -> int {
        self.end_visible(vis_max) - self.first_visible(vis_min)
    }

    /// Cell `k`, with the gap that follows it, reaches into the visible
    /// range.
    pub open spec fn touches(self, k: int, vis_min: int, vis_max: int) -> bool {
        self.origin(k) < vis_max && self.origin(k + 1) > vis_min
    }

    /// The cells from `first_visible` up to `end_visible` are exactly the
    /// cells that reach into the visible range, and all of them are cells
    /// of the pattern.
    pub proof fn lemma_visible_range(self, vis_min: int, vis_max: int, k: int)
        requires
            self.valid(),
            self.prim_min <= vis_min < vis_max <= self.prim_max,
        ensures
            (self.first_visible(vis_min) <= k < self.end_visible(vis_max)) == self.touches(
                k,
                vis_min,
                vis_max,
            ),
            0 <= self.first_visible(vis_min) < self.end_visible(vis_max) <= self.last_cell() + 1,
            self.end_visible(vis_max) <= vis_max - self.prim_min,
    {
        let s = self.stride;
        let f = self.first_visible(vis_min);
        let e = self.end_visible(vis_max);
        lemma_floor_ge(vis_min - self.prim_min, s, k + 1);
        lemma_ceil_le(vis_max - self.prim_min, s, k);
        lemma_floor_ge(vis_min - self.prim_min, s, 0);
        lemma_floor_ge(vis_min - self.prim_min, s, f);
        lemma_ceil_le(vis_max - self.prim_min, s, f);
        lemma_ceil_le(vis_max - self.prim_min, s, e - 1);
        lemma_ceil_le(vis_max - self.prim_min, s, vis_max - self.prim_min);
        lemma_ceil_le(self.prim_max - self.prim_min, s, e);
        lemma_ceil_le(self.prim_max - self.prim_min, s, self.last_cell() + 1);
        assert(e <= self.last_cell() + 1) by (nonlinear_arith)
            requires
                (e - 1) * s < vis_max - self.prim_min,
                vis_max <= self.prim_max,
                (self.last_cell() + 1) * s >= self.prim_max - self.prim_min,
                s > 0,
        ;
        assert((vis_max - self.prim_min) * s >= vis_max - self.prim_min) by (nonlinear_arith)
            requires
                vis_max - self.prim_min > 0,
                s >= 1,
        ;
    }

    /// Every visible layout unit lies in exactly one visible cell, counting
    /// to each cell the gap that follows it.
    pub proof fn lemma_unit_in_one_cell(self, vis_min: int, vis_max: int, x: int) -> (k: int)
        requires
            self.valid(),
            self.prim_min <= vis_min <= x < vis_max <= self.prim_max,
        ensures
            self.first_visible(vis_min) <= k < self.end_visible(vis_max),
            self.origin(k) <= x < self.origin(k + 1),
            forall|j: int| #[trigger] self.origin(j) <= x && x < self.origin(j + 1) ==> j == k,
    {
        let s = self.stride;
        let k = (x - self.prim_min) / s;
        lemma_floor_ge(x - self.prim_min, s, k);
        lemma_floor_ge(x - self.prim_min, s, k + 1);
        self.lemma_visible_range(vis_min, vis_max, k);
        assert forall|j: int| #[trigger] self.origin(j) <= x && x < self.origin(j + 1) implies j
            == k by {
            lemma_floor_ge(x - self.prim_min, s, j);
            lemma_floor_ge(x - self.prim_min, s, j + 1);
        }
        k
    }

    /// Where the stride is at least the extent of the box, the pattern has
    /// one cell, and it is the one visible cell.
    pub proof fn lemma_single_cell(self, vis_min: int, vis_max: int)
        requires
            self.valid(),
            self.prim_min <= vis_min < vis_max <= self.prim_max,
            self.stride >= self.prim_max - self.prim_min,
        ensures
            self.last_cell() == 0,
            self.first_visible(vis_min) == 0,
            self.end_visible(vis_max) == 1,
    {
        let s = self.stride;
        lemma_ceil_le(self.prim_max - self.prim_min, s, 1);
        lemma_ceil_le(self.prim_max - self.prim_min, s, 0);
        lemma_ceil_le(vis_max - self.prim_min, s, 1);
        lemma_ceil_le(vis_max - self.prim_min, s, 0);
        lemma_floor_ge(vis_min - self.prim_min, s, 0);
        lemma_floor_ge(vis_min - self.prim_min, s, 1);
    }
}

/// One placement of the stretched image in the repeated pattern.
#[derive(Clone, Copy, Debug, PartialEq, Eq, Structural)]
pub struct Repetition {
    /// Where the placement starts.
    pub origin: LayoutPoint,
    /// The edges of the placement that lie on the boundary of the pattern.
    pub edge_flags: EdgeAaSegmentMask,
}

/// The horizontal axis of the pattern that repeats over `prim` at `stride`.
pub open spec fn repeat_axis_x(prim: LayoutRect, stride: LayoutSize) -> RepeatAxis {
    RepeatAxis {
        prim_min: prim.min.x as int,
        prim_max: prim.max.x as int,
        stride: stride.width as int,
    }
}

/// The vertical axis of the pattern that repeats over `prim` at `stride`.
pub open spec fn repeat_axis_y(prim: LayoutRect, stride: LayoutSize) -> RepeatAxis {
    RepeatAxis {
        prim_min: prim.min.y as int,
        prim_max: prim.max.y as int,
        stride: stride.height as int,
    }
}

/// The placement in column `col` and row `row` of the pattern.
pub open spec fn repetition_of(
    prim: LayoutRect,
    stride: LayoutSize,
    col: int,
    row: int,
) -> Repetition {
    let ax = repeat_axis_x(prim, stride);
    let ay = repeat_axis_y(prim, stride);
    Repetition {
        origin: LayoutPoint { x: ax.origin(col) as i32, y: ay.origin(row) as i32 },
        edge_flags: EdgeAaSegmentMask {
            left: col == 0,
            top: row == 0,
            right: col == ax.last_cell(),
            bottom: row == ay.last_cell(),
        },
    }
}

/// The placements that reach into the visible part of `prim`, row by row
/// and from left to right in each row.
pub open spec fn spec_repetitions(prim: LayoutRect, visible: LayoutRect, stride: LayoutSize) -> Seq<
    Repetition,
> {
    match prim.spec_intersection(&visible) {
        None => Seq::empty(),
        Some(vis) => {
            let ax = repeat_axis_x(prim, stride);
            let ay = repeat_axis_y(prim, stride);
            let nx = ax.visible_count(vis.min.x as int, vis.max.x as int);
            let ny = ay.visible_count(vis.min.y as int, vis.max.y as int);
            Seq::new(
                (nx * ny) as nat,
                |i: int|
                    repetition_of(
                        prim,
                        stride,
                        ax.first_visible(vis.min.x as int) + i % nx,
                        ay.first_visible(vis.min.y as int) + i / nx,
                    ),
            )
        },
    }
}

/// The visible cells of one axis of a repeated pattern.
struct RepeatExtent {
    first: i64,
    end: i64,
    last: i64,
}

fn repeat_extent(prim_min: i32, prim_max: i32, vis_min: i32, vis_max: i32, stride: i32) -> (e:
    RepeatExtent)
    requires
        prim_min <= vis_min < vis_max <= prim_max,
        stride > 0,
    ensures
        ({
            let axis = RepeatAxis {
                prim_min: prim_min as int,
                prim_max: prim_max as int,
                stride: stride as int,
            };
            &&& e.first == axis.first_visible(vis_min as int)
            &&& e.end == axis.end_visible(vis_max as int)
            &&& e.last == axis.last_cell()
            &&& 0 <= e.first < e.end <= e.last + 1
            &&& e.end <= vis_max - prim_min
        }),
{
    proof {
        let axis = RepeatAxis {
            prim_min: prim_min as int,
            prim_max: prim_max as int,
            stride: stride as int,
        };
        axis.lemma_visible_range(vis_min as int, vis_max as int, 0);
        axis.lemma_visible_range(prim_min as int, prim_max as int, 0);
    }
    let first = floor_div((vis_min as i64 - prim_min as i64) as i128, stride as i128);
    let end = ceil_div_wide((vis_max as i64 - prim_min as i64) as i128, stride as i128);
    let cells = ceil_div_wide((prim_max as i64 - prim_min as i64) as i128, stride as i128);
    RepeatExtent { first: first as i64, end: end as i64, last: (cells - 1) as i64 }
}

/// Enumerates the placements of an image that is repeated over `prim_rect`
/// at `stride`, as far as they reach into `visible_rect`: row by row, each
/// with the edges that it has on the boundary of the pattern.
pub fn repetitions(prim_rect: &LayoutRect, visible_rect: &LayoutRect, stride: LayoutSize) -> (out:
    Vec<Repetition>)
    requires
        prim_rect.spec_intersection(visible_rect) is Some ==> stride.width > 0 && stride.height > 0,
    ensures
        out@ == spec_repetitions(*prim_rect, *visible_rect, stride),
{
    let mut out: Vec<Repetition> = Vec::new();
    let vis = match prim_rect.intersection(visible_rect) {
        Some(rect) => rect,
        None => {
            return out;
        },
    };
    let x = repeat_extent(prim_rect.min.x, prim_rect.max.x, vis.min.x, vis.max.x, stride.width);
    let y = repeat_extent(prim_rect.min.y, prim_rect.max.y, vis.min.y, vis.max.y, stride.height);
    let ghost ax = repeat_axis_x(*prim_rect, stride);
    let ghost ay = repeat_axis_y(*prim_rect, stride);
    let ghost nx = x.end - x.first;
    let ghost ny = y.end - y.first;
    let ghost prim = *prim_rect;
    let ghost at = |i: int| repetition_of(prim, stride, x.first + i % nx, y.first + i / nx);
    let mut row: i64 = y.first;
    while row < y.end
        invariant
            y.first <= row <= y.end,
            0 <= x.first < x.end,
            0 <= y.first,
            nx == x.end - x.first,
            ny == y.end - y.first,
            x.end == ax.end_visible(vis.max.x as int),
            y.end == ay.end_visible(vis.max.y as int),
            ax.valid(),
            ay.valid(),
            x.last == ax.last_cell(),
            y.last == ay.last_cell(),
            ax == repeat_axis_x(prim, stride),
            ay == repeat_axis_y(prim, stride),
            stride.width > 0,
            stride.height > 0,
            prim == *prim_rect,
            at == (|i: int| repetition_of(prim, stride, x.first + i % nx, y.first + i / nx)),
            out@ == Seq::new(((row - y.first) * nx) as nat, at),
        decreases y.end - row,
    {
        proof {
            lemma_cell_origin_bound(ay, y.end as int, row as int, vis.max.y as int);
        }
        let oy: i64 = prim_rect.min.y as i64 + row * stride.height as i64;
        let mut col: i64 = x.first;
        while col < x.end
            invariant
                y.first <= row < y.end,
                x.first <= col <= x.end,
                0 <= x.first < x.end,
                0 <= y.first,
                nx == x.end - x.first,
                x.end == ax.end_visible(vis.max.x as int),
                ax.valid(),
                x.last == ax.last_cell(),
                y.last == ay.last_cell(),
                ax == repeat_axis_x(prim, stride),
                ay == repeat_axis_y(prim, stride),
                stride.width > 0,
                prim == *prim_rect,
                oy == ay.origin(row as int),
                i32::MIN <= oy <= i32::MAX,
                at == (|i: int| repetition_of(prim, stride, x.first + i % nx, y.first + i / nx)),
                out@ == Seq::new(((row - y.first) * nx + (col - x.first)) as nat, at),
            decreases x.end - col,
        {
            proof {
                lemma_cell_origin_bound(ax, x.end as int, col as int, vis.max.x as int);
            }
            let ox: i64 = prim_rect.min.x as i64 + col * stride.width as i64;
            let repetition = Repetition {
                origin: LayoutPoint { x: ox as i32, y: oy as i32 },
                edge_flags: EdgeAaSegmentMask {
                    left: col == 0,
                    top: row == 0,
                    right: col == x.last,
                    bottom: row == y.last,
                },
            };
            proof {
                let i = (row - y.first) * nx + (col - x.first);
                lemma_fundamental_div_mod_converse(i, nx, row - y.first, col - x.first);
                assert(0 <= i) by (nonlinear_arith)
                    requires
                        i == (row - y.first) * nx + (col - x.first),
                        row - y.first >= 0,
                        nx > 0,
                        col - x.first >= 0,
                ;
                assert(at(i) == repetition);
                assert(out@.push(repetition) =~= Seq::new((i + 1) as nat, at));
            }
            out.push(repetition);
            col = col + 1;
        }
        proof {
            assert((row - y.first) * nx + (col - x.first) == (row + 1 - y.first) * nx)
                by (nonlinear_arith)
                requires
                    col - x.first == nx,
            ;
        }
        row = row + 1;
    }
    proof {
        assert((row - y.first) * nx == nx * ny) by (nonlinear_arith)
            requires
                row - y.first == ny,
        ;
    }
    out
}

/// A visible cell starts inside the range of a layout unit.
proof fn lemma_cell_origin_bound(axis: RepeatAxis, end: int, k: int, vis_max: int)
    requires
        axis.valid(),
        0 <= k < end,
        end == axis.end_visible(vis_max),
        vis_max <= i32::MAX,
    ensures
        axis.prim_min <= axis.origin(k) < vis_max,
{
    lemma_ceil_le(vis_max - axis.prim_min, axis.stride, k);
    assert(k * axis.stride >= 0) by (nonlinear_arith)
        requires
            k >= 0,
            axis.stride > 0,
    ;
}


/// One tile of a tiled image, as it is drawn.
#[derive(Clone, Copy, Debug, PartialEq, Eq, Structural)]
pub struct Tile {
    /// The box of the tile in layout space.
    pub rect: LayoutRect,
    /// The column and row of the tile in the image.
    pub offset: TileOffset,
    /// The edges of the tile that lie on the boundary of the image.
    pub edge_flags: EdgeAaSegmentMask,
}

/// The horizontal axis of `image`, cut into tiles of `tile_size` pixels and
/// stretched over `prim`.
pub open spec fn tile_axis_x(prim: LayoutRect, image: DeviceIntRect, tile_size: int) -> TileAxis {
    TileAxis {
        prim_min: prim.min.x as int,
        prim_max: prim.max.x as int,
        img_min: image.min.x as int,
        img_max: image.max.x as int,
        tile: tile_size,
    }
}

/// The vertical axis of `image`, cut into tiles of `tile_size` pixels and
/// stretched over `prim`.
pub open spec fn tile_axis_y(prim: LayoutRect, image: DeviceIntRect, tile_size: int) -> TileAxis {
    TileAxis {
        prim_min: prim.min.y as int,
        prim_max: prim.max.y as int,
        img_min: image.min.y as int,
        img_max: image.max.y as int,
        tile: tile_size,
    }
}

/// The tile in column `col` and row `row` of `image`, laid over `prim`.
pub open spec fn tile_of(
    prim: LayoutRect,
    image: DeviceIntRect,
    tile_size: int,
    col: int,
    row: int,
) -> Tile {
    let ax = tile_axis_x(prim, image, tile_size);
    let ay = tile_axis_y(prim, image, tile_size);
    Tile {
        rect: LayoutRect {
            min: LayoutPoint { x: ax.layout_start(col) as i32, y: ay.layout_start(row) as i32 },
            max: LayoutPoint { x: ax.layout_end(col) as i32, y: ay.layout_end(row) as i32 },
        },
        offset: TileOffset { x: col as i32, y: row as i32 },
        edge_flags: EdgeAaSegmentMask {
            left: col == ax.first_tile(),
            top: row == ay.first_tile(),
            right: col == ax.end_tile() - 1,
            bottom: row == ay.end_tile() - 1,
        },
    }
}

/// The tiles of `image` that reach into the visible part of `prim`, row by
/// row and from left to right in each row.
pub open spec fn spec_tiles(
    prim: LayoutRect,
    visible: LayoutRect,
    image: DeviceIntRect,
    tile_size: int,
) -> Seq<Tile> {
    match prim.spec_intersection(&visible) {
        None => Seq::empty(),
        Some(vis) => if image.spec_is_empty() {
            Seq::empty()
        } else {
            let ax = tile_axis_x(prim, image, tile_size);
            let ay = tile_axis_y(prim, image, tile_size);
            let nx = ax.visible_count(vis.min.x as int, vis.max.x as int);
            let ny = ay.visible_count(vis.min.y as int, vis.max.y as int);
            Seq::new(
                (nx * ny) as nat,
                |i: int|
                    tile_of(
                        prim,
                        image,
                        tile_size,
                        ax.first_visible(vis.min.x as int) + i % nx,
                        ay.first_visible(vis.min.y as int) + i / nx,
                    ),
            )
        },
    }
}

/// The tiles of one axis: those of the whole image and those that are
/// visible.
struct TileExtent {
    image_first: i32,
    image_end: i32,
    first: i32,
    end: i32,
}

fn tile_extent(
    prim_min: i32,
    prim_max: i32,
    vis_min: i32,
    vis_max: i32,
    img_min: i32,
    img_max: i32,
    tile: i32,
) -> (e: TileExtent)
    requires
        prim_min <= vis_min < vis_max <= prim_max,
        img_min < img_max,
        tile > 0,
    ensures
        ({
            let axis = TileAxis {
                prim_min: prim_min as int,
                prim_max: prim_max as int,
                img_min: img_min as int,
                img_max: img_max as int,
                tile: tile as int,
            };
            &&& e.image_first == axis.first_tile()
            &&& e.image_end == axis.end_tile()
            &&& e.first == axis.first_visible(vis_min as int)
            &&& e.end == axis.end_visible(vis_max as int)
            &&& e.image_first <= e.first < e.end <= e.image_end
        }),
{
    let ghost axis = TileAxis {
        prim_min: prim_min as int,
        prim_max: prim_max as int,
        img_min: img_min as int,
        img_max: img_max as int,
        tile: tile as int,
    };
    let pw: i64 = prim_max as i64 - prim_min as i64;
    let iw: i64 = img_max as i64 - img_min as i64;
    let below: i64 = vis_min as i64 - prim_min as i64 + 1;
    let upto: i64 = vis_max as i64 - prim_min as i64;
    proof {
        axis.lemma_tile_range();
        let k = axis.lemma_unit_in_one_tile(vis_min as int);
        axis.lemma_visible_range(vis_min as int, vis_max as int, k);
        crate::arith::lemma_span_product(below as int, iw as int);
        crate::arith::lemma_span_product(upto as int, iw as int);
        lemma_ceil_le(below * iw, pw as int, iw as int);
        lemma_ceil_le(below * iw, pw as int, 0);
        lemma_ceil_le(upto * iw, pw as int, iw as int);
        lemma_ceil_le(upto * iw, pw as int, 0);
        assert(iw * pw >= below * iw) by (nonlinear_arith)
            requires
                below <= pw,
                iw > 0,
        ;
        assert(iw * pw >= upto * iw) by (nonlinear_arith)
            requires
                upto <= pw,
                iw > 0,
        ;
        assert(below * iw > 0) by (nonlinear_arith)
            requires
                below > 0,
                iw > 0,
        ;
        assert(upto * iw > 0) by (nonlinear_arith)
            requires
                upto > 0,
                iw > 0,
        ;
        assert(0 * (pw as int) == 0);
    }
    let image_first = floor_div(img_min as i128, tile as i128);
    let image_end = ceil_div_wide(img_max as i128, tile as i128);
    let lower: i128 = img_min as i128 + ceil_div_wide((below as i128) * (iw as i128), pw as i128);
    let upper: i128 = img_min as i128 + ceil_div_wide((upto as i128) * (iw as i128), pw as i128)
        - 1;
    let lower_tile = ceil_div_wide(lower, tile as i128) - 1;
    let upper_tile = floor_div(upper, tile as i128) + 1;
    proof {
        assert(lower == axis.device_lower(vis_min as int));
        assert(upper == axis.device_upper(vis_max as int));
        lemma_ceil_le(lower as int, tile as int, lower_tile + 1);
        lemma_floor_ge(upper as int, tile as int, upper_tile - 1);
    }
    let first = if lower_tile > image_first {
        lower_tile
    } else {
        image_first
    };
    let end = if upper_tile < image_end {
        upper_tile
    } else {
        image_end
    };
    TileExtent {
        image_first: image_first as i32,
        image_end: image_end as i32,
        first: first as i32,
        end: end as i32,
    }
}

/// Where device pixel `d` of the image starts in layout space.
fn layout_of(
    prim_min: i32,
    prim_max: i32,
    img_min: i32,
    img_max: i32,
    d: i64,
    Ghost(axis): Ghost<TileAxis>,
) -> (x: i32)
    requires
        prim_min < prim_max,
        img_min <= d <= img_max,
        img_min < img_max,
        axis.valid(),
        axis.prim_min == prim_min,
        axis.prim_max == prim_max,
        axis.img_min == img_min,
        axis.img_max == img_max,
    ensures
        x == axis.to_layout(d as int),
        prim_min <= x <= prim_max,
{
    proof {
        axis.lemma_to_layout_ends();
        axis.lemma_to_layout_monotone(img_min as int, d as int);
        axis.lemma_to_layout_monotone(d as int, img_max as int);
    }
    let pw: i64 = prim_max as i64 - prim_min as i64;
    let iw: i64 = img_max as i64 - img_min as i64;
    let offset = scale_floor(d - img_min as i64, pw, iw);
    (prim_min as i128 + offset) as i32
}

/// The device pixels at which tile `k` starts and ends.
fn tile_device_range(
    img_min: i32,
    img_max: i32,
    tile: i32,
    k: i32,
    Ghost(axis): Ghost<TileAxis>,
) -> (r: (i64, i64))
    requires
        axis.valid(),
        axis.img_min == img_min,
        axis.img_max == img_max,
        axis.tile == tile,
        axis.first_tile() <= k < axis.end_tile(),
    ensures
        r.0 == axis.device_start(k as int),
        r.1 == axis.device_end(k as int),
        img_min <= r.0 < r.1 <= img_max,
        r.1 - r.0 <= tile,
{
    proof {
        axis.lemma_tile_device_range(k as int);
        assert(-span_bound() * span_bound() <= k * tile <= span_bound() * span_bound()) by {
            crate::arith::lemma_span_product(k as int, tile as int);
        }
        assert(-span_bound() * span_bound() <= (k + 1) * tile <= span_bound() * span_bound()) by {
            crate::arith::lemma_span_product(k + 1, tile as int);
        }
    }
    let a: i128 = (k as i128) * (tile as i128);
    let b: i128 = (k as i128 + 1) * (tile as i128);
    let start = if a > img_min as i128 {
        a
    } else {
        img_min as i128
    };
    let end = if b < img_max as i128 {
        b
    } else {
        img_max as i128
    };
    (start as i64, end as i64)
}

/// Enumerates the tiles of a tiled image that reach into the visible part
/// of the box the image is drawn in.
///
/// `image_rect` is the part of the image that holds valid pixels. It is cut
/// into tiles of `device_tile_size` pixels that start at multiples of that
/// size, so the tiles on the boundary of the image may be smaller, and it is
/// stretched over `prim_rect`. The tiles come row by row, each with its box
/// in layout space and the edges that it has on the boundary of the image.
pub fn tiles(
    prim_rect: &LayoutRect,
    visible_rect: &LayoutRect,
    image_rect: &DeviceIntRect,
    device_tile_size: i32,
) -> (out: Vec<Tile>)
    requires
        device_tile_size > 0,
    ensures
        out@ == spec_tiles(*prim_rect, *visible_rect, *image_rect, device_tile_size as int),
{
    let mut out: Vec<Tile> = Vec::new();
    let vis = match prim_rect.intersection(visible_rect) {
        Some(rect) => rect,
        None => {
            return out;
        },
    };
    if image_rect.is_empty() {
        return out;
    }
    let x = tile_extent(
        prim_rect.min.x,
        prim_rect.max.x,
        vis.min.x,
        vis.max.x,
        image_rect.min.x,
        image_rect.max.x,
        device_tile_size,
    );
    let y = tile_extent(
        prim_rect.min.y,
        prim_rect.max.y,
        vis.min.y,
        vis.max.y,
        image_rect.min.y,
        image_rect.max.y,
        device_tile_size,
    );
    let ghost prim = *prim_rect;
    let ghost image = *image_rect;
    let ghost ax = tile_axis_x(prim, image, device_tile_size as int);
    let ghost ay = tile_axis_y(prim, image, device_tile_size as int);
    let ghost nx = x.end - x.first;
    let ghost ny = y.end - y.first;
    let ghost at = |i: int|
        tile_of(prim, image, device_tile_size as int, x.first + i % nx, y.first + i / nx);
    let mut row: i32 = y.first;
    while row < y.end
        invariant
            y.first <= row <= y.end,
            x.image_first <= x.first < x.end <= x.image_end,
            y.image_first <= y.first,
            y.end <= y.image_end,
            x.image_first == ax.first_tile(),
            x.image_end == ax.end_tile(),
            y.image_first == ay.first_tile(),
            y.image_end == ay.end_tile(),
            nx == x.end - x.first,
            ny == y.end - y.first,
            prim == *prim_rect,
            image == *image_rect,
            ax == tile_axis_x(prim, image, device_tile_size as int),
            ay == tile_axis_y(prim, image, device_tile_size as int),
            ax.valid(),
            ay.valid(),
            at == (|i: int|
                tile_of(prim, image, device_tile_size as int, x.first + i % nx, y.first + i / nx)),
            out@ == Seq::new(((row - y.first) * nx) as nat, at),
        decreases y.end - row,
    {
        let dy = tile_device_range(
            image_rect.min.y,
            image_rect.max.y,
            device_tile_size,
            row,
            Ghost(ay),
        );
        let y0 = layout_of(
            prim_rect.min.y,
            prim_rect.max.y,
            image_rect.min.y,
            image_rect.max.y,
            dy.0,
            Ghost(ay),
        );
        let y1 = layout_of(
            prim_rect.min.y,
            prim_rect.max.y,
            image_rect.min.y,
            image_rect.max.y,
            dy.1,
            Ghost(ay),
        );
        let mut col: i32 = x.first;
        while col < x.end
            invariant
                y.first <= row < y.end,
                y.image_first <= y.first,
                y.end <= y.image_end,
                x.first <= col <= x.end,
                x.image_first <= x.first < x.end <= x.image_end,
                x.image_first == ax.first_tile(),
                x.image_end == ax.end_tile(),
                y.image_first == ay.first_tile(),
                y.image_end == ay.end_tile(),
                nx == x.end - x.first,
                prim == *prim_rect,
                image == *image_rect,
                ax == tile_axis_x(prim, image, device_tile_size as int),
                ay == tile_axis_y(prim, image, device_tile_size as int),
                ax.valid(),
                y0 == ay.layout_start(row as int),
                y1 == ay.layout_end(row as int),
                at == (|i: int|
                    tile_of(
                        prim,
                        image,
                        device_tile_size as int,
                        x.first + i % nx,
                        y.first + i / nx,
                    )),
                out@ == Seq::new(((row - y.first) * nx + (col - x.first)) as nat, at),
            decreases x.end - col,
        {
            let dx = tile_device_range(
                image_rect.min.x,
                image_rect.max.x,
                device_tile_size,
                col,
                Ghost(ax),
            );
            let x0 = layout_of(
                prim_rect.min.x,
                prim_rect.max.x,
                image_rect.min.x,
                image_rect.max.x,
                dx.0,
                Ghost(ax),
            );
            let x1 = layout_of(
                prim_rect.min.x,
                prim_rect.max.x,
                image_rect.min.x,
                image_rect.max.x,
                dx.1,
                Ghost(ax),
            );
            let tile = Tile {
                rect: LayoutRect {
                    min: LayoutPoint { x: x0, y: y0 },
                    max: LayoutPoint { x: x1, y: y1 },
                },
                offset: TileOffset { x: col, y: row },
                edge_flags: EdgeAaSegmentMask {
                    left: col == x.image_first,
                    top: row == y.image_first,
                    right: col == x.image_end - 1,
                    bottom: row == y.image_end - 1,
                },
            };
            proof {
                let i = (row - y.first) * nx + (col - x.first);
                lemma_fundamental_div_mod_converse(i, nx, row - y.first, col - x.first);
                assert(0 <= i) by (nonlinear_arith)
                    requires
                        i == (row - y.first) * nx + (col - x.first),
                        row - y.first >= 0,
                        nx > 0,
                        col - x.first >= 0,
                ;
                assert(at(i) == tile);
                assert(out@.push(tile) =~= Seq::new((i + 1) as nat, at));
            }
            out.push(tile);
            col = col + 1;
        }
        proof {
            assert((row - y.first) * nx + (col - x.first) == (row + 1 - y.first) * nx)
                by (nonlinear_arith)
                requires
                    col - x.first == nx,
            ;
        }
        row = row + 1;
    }
    proof {
        assert((row - y.first) * nx == nx * ny) by (nonlinear_arith)
            requires
                row - y.first == ny,
        ;
    }
    out
}

/// The size in device pixels of the tile at `tile` of an image that holds
/// valid pixels in `image_rect` and is cut into tiles of `regular_tile_size`
/// pixels: on each axis the pixels of the image that lie in the tile. A tile
/// that the image does not have has no size.
pub open spec fn spec_tile_size(
    image_rect: DeviceIntRect,
    regular_tile_size: int,
    tile: TileOffset,
) -> DeviceIntSize {
    let t = regular_tile_size;
    if !image_rect.spec_is_empty() && first_tile_index(image_rect.min.x as int, t) <= tile.x
        < end_tile_index(image_rect.max.x as int, t) && first_tile_index(
        image_rect.min.y as int,
        t,
    ) <= tile.y < end_tile_index(image_rect.max.y as int, t) {
        DeviceIntSize {
            width: (tile_end_pixel(image_rect.max.x as int, t, tile.x as int) - tile_first_pixel(
                image_rect.min.x as int,
                t,
                tile.x as int,
            )) as i32,
            height: (tile_end_pixel(image_rect.max.y as int, t, tile.y as int) - tile_first_pixel(
                image_rect.min.y as int,
                t,
                tile.y as int,
            )) as i32,
        }
    } else {
        DeviceIntSize { width: 0, height: 0 }
    }
}

/// The size in device pixels of one tile of a tiled image: the regular tile
/// size, or less for a tile on the boundary of the image.
pub fn compute_tile_size(
    image_rect: &DeviceIntRect,
    regular_tile_size: u16,
    tile: TileOffset,
) -> (size: DeviceIntSize)
    requires
        regular_tile_size > 0,
    ensures
        size == spec_tile_size(*image_rect, regular_tile_size as int, tile),
        0 <= size.width <= regular_tile_size,
        0 <= size.height <= regular_tile_size,
{
    let none = DeviceIntSize { width: 0, height: 0 };
    if image_rect.is_empty() {
        return none;
    }
    let t: i32 = regular_tile_size as i32;
    let ghost unit = LayoutRect {
        min: LayoutPoint { x: 0, y: 0 },
        max: LayoutPoint { x: 1, y: 1 },
    };
    let ghost ax = tile_axis_x(unit, *image_rect, t as int);
    let ghost ay = tile_axis_y(unit, *image_rect, t as int);
    proof {
        ax.lemma_tile_range();
        ay.lemma_tile_range();
    }
    let x_first = floor_div(image_rect.min.x as i128, t as i128);
    let x_end = ceil_div_wide(image_rect.max.x as i128, t as i128);
    let y_first = floor_div(image_rect.min.y as i128, t as i128);
    let y_end = ceil_div_wide(image_rect.max.y as i128, t as i128);
    if (tile.x as i128) < x_first || (tile.x as i128) >= x_end || (tile.y as i128) < y_first || (
    tile.y as i128) >= y_end {
        return none;
    }
    let dx = tile_device_range(image_rect.min.x, image_rect.max.x, t, tile.x, Ghost(ax));
    let dy = tile_device_range(image_rect.min.y, image_rect.max.y, t, tile.y, Ghost(ay));
    DeviceIntSize { width: (dx.1 - dx.0) as i32, height: (dy.1 - dy.0) as i32 }
}


/// Column `c` of row `r` of a grid of `nx` columns and `ny` rows is entry
/// `r * nx + c` of the grid read row by row.
pub proof fn lemma_grid_index(nx: int, ny: int, c: int, r: int) -> (i: int)
    requires
        0 <= c < nx,
        0 <= r < ny,
    ensures
        i == r * nx + c,
        0 <= i < nx * ny,
        i % nx == c,
        i / nx == r,
{
    let i = r * nx + c;
    lemma_fundamental_div_mod_converse(i, nx, r, c);
    assert(0 <= r * nx + c < nx * ny) by (nonlinear_arith)
        requires
            0 <= c < nx,
            0 <= r < ny,
    ;
    i
}

/// Entry `i` of a grid of `nx` columns and `ny` rows read row by row is
/// column `i % nx` of row `i / nx`.
pub proof fn lemma_grid_position(nx: int, ny: int, i: int)
    requires
        0 < nx,
        0 <= i < nx * ny,
    ensures
        0 <= i % nx < nx,
        0 <= i / nx < ny,
        i == (i / nx) * nx + i % nx,
{
    lemma_fundamental_div_mod(i, nx);
    let q = i / nx;
    let r = i % nx;
    assert(0 <= r < nx) by (nonlinear_arith)
        requires
            r == i % nx,
            nx > 0,
    ;
    assert(0 <= q < ny) by (nonlinear_arith)
        requires
            i == nx * q + r,
            0 <= r < nx,
            0 <= i < nx * ny,
            nx > 0,
    ;
    assert(nx * q == q * nx) by (nonlinear_arith);
}

/// Every visible point of the box lies in exactly one of the enumerated
/// tiles: the tiles cover what is visible of the image, and no two of them
/// share a point.
pub proof fn lemma_tiles_cover(
    prim: LayoutRect,
    visible: LayoutRect,
    image: DeviceIntRect,
    tile_size: int,
    x: int,
    y: int,
) -> (i: int)
    requires
        0 < tile_size <= i32::MAX,
        !image.spec_is_empty(),
        prim.contains(x, y),
        visible.contains(x, y),
    ensures
        0 <= i < spec_tiles(prim, visible, image, tile_size).len(),
        spec_tiles(prim, visible, image, tile_size)[i].rect.contains(x, y),
        forall|j: int|
            0 <= j < spec_tiles(prim, visible, image, tile_size).len() && (#[trigger] spec_tiles(
                prim,
                visible,
                image,
                tile_size,
            )[j]).rect.contains(x, y) ==> j == i,
{
    crate::units::lemma_intersection_contains(prim, visible, x, y);
    let vis = prim.spec_intersection(&visible).unwrap();
    let ax = tile_axis_x(prim, image, tile_size);
    let ay = tile_axis_y(prim, image, tile_size);
    let fx = ax.first_visible(vis.min.x as int);
    let fy = ay.first_visible(vis.min.y as int);
    let nx = ax.visible_count(vis.min.x as int, vis.max.x as int);
    let ny = ay.visible_count(vis.min.y as int, vis.max.y as int);
    let kx = ax.lemma_unit_in_one_tile(x);
    let ky = ay.lemma_unit_in_one_tile(y);
    ax.lemma_visible_range(vis.min.x as int, vis.max.x as int, kx);
    ay.lemma_visible_range(vis.min.y as int, vis.max.y as int, ky);
    ax.lemma_tile_device_range(kx);
    ay.lemma_tile_device_range(ky);
    let i = lemma_grid_index(nx, ny, kx - fx, ky - fy);
    let all = spec_tiles(prim, visible, image, tile_size);
    assert(all[i] == tile_of(prim, image, tile_size, kx, ky));
    assert forall|j: int| 0 <= j < all.len() && (#[trigger] all[j]).rect.contains(x, y) implies j
        == i by {
        lemma_grid_position(nx, ny, j);
        let cx = fx + j % nx;
        let cy = fy + j / nx;
        assert(all[j] == tile_of(prim, image, tile_size, cx, cy));
        ax.lemma_visible_range(vis.min.x as int, vis.max.x as int, kx);
        lemma_visible_tiles_in_image(ax, vis.min.x as int, vis.max.x as int);
        lemma_visible_tiles_in_image(ay, vis.min.y as int, vis.max.y as int);
        ax.lemma_tile_device_range(cx);
        ay.lemma_tile_device_range(cy);
        assert(ax.layout_start(cx) <= x && x < ax.layout_end(cx));
        assert(ay.layout_start(cy) <= y && y < ay.layout_end(cy));
    }
    i
}

/// The visible tiles of an axis are tiles of the image, and there is at
/// least one.
pub proof fn lemma_visible_tiles_in_image(axis: TileAxis, vis_min: int, vis_max: int)
    requires
        axis.valid(),
        axis.prim_min <= vis_min < vis_max <= axis.prim_max,
    ensures
        axis.first_tile() <= axis.first_visible(vis_min) < axis.end_visible(vis_max)
            <= axis.end_tile(),
{
    let k = axis.lemma_unit_in_one_tile(vis_min);
    axis.lemma_visible_range(vis_min, vis_max, k);
}

/// Each enumerated tile is a tile of the image that reaches into the
/// visible box on both axes, lies inside the box the image is drawn in, and
/// holds no more device pixels than the regular tile size on either axis.
pub proof fn lemma_tiles_are_visible(
    prim: LayoutRect,
    visible: LayoutRect,
    image: DeviceIntRect,
    tile_size: int,
    i: int,
)
    requires
        0 < tile_size <= i32::MAX,
        0 <= i < spec_tiles(prim, visible, image, tile_size).len(),
    ensures
        ({
            let t = spec_tiles(prim, visible, image, tile_size)[i];
            let vis = prim.spec_intersection(&visible).unwrap();
            let ax = tile_axis_x(prim, image, tile_size);
            let ay = tile_axis_y(prim, image, tile_size);
            &&& prim.spec_intersection(&visible) is Some
            &&& t == tile_of(prim, image, tile_size, t.offset.x as int, t.offset.y as int)
            &&& ax.first_tile() <= t.offset.x < ax.end_tile()
            &&& ay.first_tile() <= t.offset.y < ay.end_tile()
            &&& ax.touches(t.offset.x as int, vis.min.x as int, vis.max.x as int)
            &&& ay.touches(t.offset.y as int, vis.min.y as int, vis.max.y as int)
            &&& prim.min.x <= t.rect.min.x <= t.rect.max.x <= prim.max.x
            &&& prim.min.y <= t.rect.min.y <= t.rect.max.y <= prim.max.y
            &&& 0 < ax.device_size(t.offset.x as int) <= tile_size
            &&& 0 < ay.device_size(t.offset.y as int) <= tile_size
        }),
{
    let vis = prim.spec_intersection(&visible).unwrap();
    let ax = tile_axis_x(prim, image, tile_size);
    let ay = tile_axis_y(prim, image, tile_size);
    let fx = ax.first_visible(vis.min.x as int);
    let fy = ay.first_visible(vis.min.y as int);
    let nx = ax.visible_count(vis.min.x as int, vis.max.x as int);
    let ny = ay.visible_count(vis.min.y as int, vis.max.y as int);
    lemma_visible_tiles_in_image(ax, vis.min.x as int, vis.max.x as int);
    lemma_visible_tiles_in_image(ay, vis.min.y as int, vis.max.y as int);
    lemma_grid_position(nx, ny, i);
    let cx = fx + i % nx;
    let cy = fy + i / nx;
    ax.lemma_tile_range();
    ay.lemma_tile_range();
    ax.lemma_visible_range(vis.min.x as int, vis.max.x as int, cx);
    ay.lemma_visible_range(vis.min.y as int, vis.max.y as int, cy);
    ax.lemma_tile_device_range(cx);
    ay.lemma_tile_device_range(cy);
}

/// A tile of the image that reaches into the visible box on both axes is
/// one of the enumerated tiles.
pub proof fn lemma_visible_tile_is_enumerated(
    prim: LayoutRect,
    visible: LayoutRect,
    image: DeviceIntRect,
    tile_size: int,
    col: int,
    row: int,
) -> (i: int)
    requires
        0 < tile_size <= i32::MAX,
        !image.spec_is_empty(),
        prim.spec_intersection(&visible) is Some,
        ({
            let vis = prim.spec_intersection(&visible).unwrap();
            let ax = tile_axis_x(prim, image, tile_size);
            let ay = tile_axis_y(prim, image, tile_size);
            &&& ax.first_tile() <= col < ax.end_tile()
            &&& ay.first_tile() <= row < ay.end_tile()
            &&& ax.touches(col, vis.min.x as int, vis.max.x as int)
            &&& ay.touches(row, vis.min.y as int, vis.max.y as int)
        }),
    ensures
        0 <= i < spec_tiles(prim, visible, image, tile_size).len(),
        spec_tiles(prim, visible, image, tile_size)[i] == tile_of(prim, image, tile_size, col, row),
{
    let vis = prim.spec_intersection(&visible).unwrap();
    let ax = tile_axis_x(prim, image, tile_size);
    let ay = tile_axis_y(prim, image, tile_size);
    let fx = ax.first_visible(vis.min.x as int);
    let fy = ay.first_visible(vis.min.y as int);
    let nx = ax.visible_count(vis.min.x as int, vis.max.x as int);
    let ny = ay.visible_count(vis.min.y as int, vis.max.y as int);
    ax.lemma_visible_range(vis.min.x as int, vis.max.x as int, col);
    ay.lemma_visible_range(vis.min.y as int, vis.max.y as int, row);
    lemma_grid_index(nx, ny, col - fx, row - fy)
}

/// Every visible point of the box lies in exactly one of the enumerated
/// placements, counting to each placement the gap that follows it on each
/// axis.
pub proof fn lemma_repetitions_cover(
    prim: LayoutRect,
    visible: LayoutRect,
    stride: LayoutSize,
    x: int,
    y: int,
) -> (i: int)
    requires
        stride.width > 0,
        stride.height > 0,
        prim.contains(x, y),
        visible.contains(x, y),
    ensures
        0 <= i < spec_repetitions(prim, visible, stride).len(),
        ({
            let r = spec_repetitions(prim, visible, stride)[i];
            &&& r.origin.x <= x < r.origin.x + stride.width
            &&& r.origin.y <= y < r.origin.y + stride.height
        }),
        forall|j: int|
            0 <= j < spec_repetitions(prim, visible, stride).len() && ({
                let r = #[trigger] spec_repetitions(prim, visible, stride)[j];
                &&& r.origin.x <= x < r.origin.x + stride.width
                &&& r.origin.y <= y < r.origin.y + stride.height
            }) ==> j == i,
{
    crate::units::lemma_intersection_contains(prim, visible, x, y);
    let vis = prim.spec_intersection(&visible).unwrap();
    let ax = repeat_axis_x(prim, stride);
    let ay = repeat_axis_y(prim, stride);
    let fx = ax.first_visible(vis.min.x as int);
    let fy = ay.first_visible(vis.min.y as int);
    let nx = ax.visible_count(vis.min.x as int, vis.max.x as int);
    let ny = ay.visible_count(vis.min.y as int, vis.max.y as int);
    let kx = ax.lemma_unit_in_one_cell(vis.min.x as int, vis.max.x as int, x);
    let ky = ay.lemma_unit_in_one_cell(vis.min.y as int, vis.max.y as int, y);
    let i = lemma_grid_index(nx, ny, kx - fx, ky - fy);
    let all = spec_repetitions(prim, visible, stride);
    assert(all[i] == repetition_of(prim, stride, kx, ky));
    lemma_cell_step(ax, kx);
    lemma_cell_step(ay, ky);
    assert forall|j: int|
        0 <= j < all.len() && ({
            let r = #[trigger] all[j];
            &&& r.origin.x <= x < r.origin.x + stride.width
            &&& r.origin.y <= y < r.origin.y + stride.height
        }) implies j == i by {
        lemma_grid_position(nx, ny, j);
        let cx = fx + j % nx;
        let cy = fy + j / nx;
        assert(all[j] == repetition_of(prim, stride, cx, cy));
        ax.lemma_visible_range(vis.min.x as int, vis.max.x as int, cx);
        ay.lemma_visible_range(vis.min.y as int, vis.max.y as int, cy);
        lemma_cell_origin_bound(ax, ax.end_visible(vis.max.x as int), cx, vis.max.x as int);
        lemma_cell_origin_bound(ay, ay.end_visible(vis.max.y as int), cy, vis.max.y as int);
        lemma_cell_step(ax, cx);
        lemma_cell_step(ay, cy);
        assert(ax.origin(cx) <= x && x < ax.origin(cx + 1));
        assert(ay.origin(cy) <= y && y < ay.origin(cy + 1));
    }
    lemma_cell_origin_bound(ax, ax.end_visible(vis.max.x as int), kx, vis.max.x as int);
    lemma_cell_origin_bound(ay, ay.end_visible(vis.max.y as int), ky, vis.max.y as int);
    i
}

/// Each cell starts one stride after the one before.
proof fn lemma_cell_step(axis: RepeatAxis, k: int)
    ensures
        axis.origin(k + 1) == axis.origin(k) + axis.stride,
{
    assert((k + 1) * axis.stride == k * axis.stride + axis.stride) by (nonlinear_arith);
}

/// Where the stride is at least the size of the box on both axes, the
/// pattern is a single placement at the origin of the box, with all four
/// edges on the boundary: what is drawn is the one region that is drawn
/// without any repetition.
pub proof fn lemma_single_repetition(prim: LayoutRect, visible: LayoutRect, stride: LayoutSize)
    requires
        prim.spec_intersection(&visible) is Some,
        stride.width >= prim.spec_width(),
        stride.height >= prim.spec_height(),
    ensures
        spec_repetitions(prim, visible, stride) == seq![
            Repetition { origin: prim.min, edge_flags: EdgeAaSegmentMask::spec_all() },
        ],
{
    let vis = prim.spec_intersection(&visible).unwrap();
    let ax = repeat_axis_x(prim, stride);
    let ay = repeat_axis_y(prim, stride);
    ax.lemma_single_cell(vis.min.x as int, vis.max.x as int);
    ay.lemma_single_cell(vis.min.y as int, vis.max.y as int);
    let all = spec_repetitions(prim, visible, stride);
    assert(all.len() == 1);
    assert(all[0] == repetition_of(prim, stride, 0, 0));
    assert(all =~= seq![
        Repetition { origin: prim.min, edge_flags: EdgeAaSegmentMask::spec_all() },
    ]);
}

} // verus!
