//! Image primitives: what is drawn for them in a frame.
//!
//! Once per frame and visible instance, `ImageData::update` consults the
//! resource cache about the source image and asks for the render tasks that
//! supply its pixels: one task for an image that is drawn whole, one task
//! per visible tile for a tiled image.

use vstd::prelude::*;
use crate::adjust::AdjustedImageSource;
use crate::api::{
    spec_bytes_per_pixel, AlphaType, ApiImageKey, ColorU, ExternalImageData, ExternalImageType,
    ImageBufferKind, ImageFormat, ImageRendering,
};
use crate::arith::{clamp_to_unit, clamp_unit, floor_div};
use crate::gpu_cache::{GpuBlock, GpuCache, GpuCacheHandle, GpuDataRequest, GpuSlot};
use crate::mask::EdgeAaSegmentMask;
use crate::frame::{
    find_dependency, FrameBuildingContext, FrameBuildingState, FrameModel, ImageDependency,
};
use crate::prim::{
    compute_conservative_visible_rect, spec_conservative_visible_rect, ClipChainInstance,
    CompositorSurfaceKind, ImageDataHandle, ImageInstanceIndex, LayoutPrimitiveInfo, PrimKey,
    PrimKeyCommonData, PrimTemplate, PrimTemplateCommonData, PrimitiveInstanceKind,
    PrimitiveOpacity, PrimitiveStore, PrimitiveVisibility, RasterSpace, SegmentInstanceIndex,
    Shadow, VisibilityState,
};
use crate::render_graph::{
    DeviceIntSideOffsets, ImageRequest, RenderTargetKind, RenderTask, RenderTaskId,
};
use crate::render_task_cache::{
    cached_task, lemma_find_after_push, CacheLookup, RenderTaskCacheEntry, RenderTaskCacheKey,
    RenderTaskCacheKeyKind, RenderTaskParent,
};
use crate::resource_cache::{find_image, requested_size, ImageProperties, ImageResource, TileSize};
use crate::tiling::{
    lemma_single_repetition, repetitions, spec_repetitions, spec_tiles, tiles, Repetition, Tile,
};
use crate::units::{DeviceIntRect, DeviceIntSize, LayoutRect, LayoutSize};

verus! {

/// One visible tile of a tiled image, as it is drawn.
#[derive(Clone, Copy, Debug, PartialEq, Eq, Structural)]
pub struct VisibleImageTile {
    /// The render task that supplies the pixels of the tile.
    pub src_color: RenderTaskId,
    pub edge_flags: EdgeAaSegmentMask,
    pub local_rect: LayoutRect,
    pub local_clip_rect: LayoutRect,
}

/// Identifies an image, or a part of one, that is kept in the cache of
/// render tasks.
#[derive(Clone, Copy, Debug, PartialEq, Eq, Hash, Structural)]
pub struct ImageCacheKey {
    pub request: ImageRequest,
    pub texel_rect: Option<DeviceIntRect>,
}

/// A size as it stands in a key.
#[derive(Clone, Copy, Debug, PartialEq, Eq, Hash, Structural)]
pub struct SizeKey {
    pub w: i32,
    pub h: i32,
}

/// An image primitive as it is interned: everything that tells one image
/// primitive from another.
#[derive(Clone, Copy, Debug, PartialEq, Eq, Hash, Structural)]
pub struct Image {
    pub key: ApiImageKey,
    pub stretch_size: SizeKey,
    pub tile_spacing: SizeKey,
    pub color: ColorU,
    pub image_rendering: ImageRendering,
    pub alpha_type: AlphaType,
}

/// The template of an image primitive: what all its instances share.
#[derive(Clone, Copy, Debug, PartialEq, Eq, Structural)]
pub struct ImageData {
    pub key: ApiImageKey,
    pub stretch_size: LayoutSize,
    pub tile_spacing: LayoutSize,
    pub color: ColorU,
    pub image_rendering: ImageRendering,
    pub alpha_type: AlphaType,
}

/// The opacity of an image primitive, leaving padding aside: opaque pixels
/// leave it to the alpha of the tint, pixels with alpha make it
/// translucent, and an image that is not known yet counts as opaque.
pub open spec fn spec_source_opacity(
    properties: Option<ImageProperties>,
    color: ColorU,
) -> PrimitiveOpacity {
    match properties {
        Some(p) => if p.descriptor.spec_is_opaque() {
            PrimitiveOpacity::spec_from_alpha(color.a)
        } else {
            PrimitiveOpacity::spec_translucent()
        },
        None => PrimitiveOpacity::spec_opaque(),
    }
}

/// One stretched image covers the whole box, so nothing is repeated.
pub open spec fn spec_covers(stretch_size: LayoutSize, prim_rect: LayoutRect) -> bool {
    stretch_size.width >= prim_rect.spec_width() && stretch_size.height >= prim_rect.spec_height()
}

/// `n / d` rounded towards zero, for a `d` other than zero.
pub open spec fn trunc_quotient(n: int, d: int) -> int {
    if n >= 0 {
        if d > 0 {
            n / d
        } else {
            -(n / (-d))
        }
    } else {
        if d > 0 {
            -((-n) / d)
        } else {
            (-n) / (-d)
        }
    }
}

/// The device pixels that stand for `spacing` layout units where `stretch`
/// layout units are drawn with `size` device pixels: `spacing * size /
/// stretch` rounded towards zero and clamped into 32 bits. A stretch of
/// zero gives the end of the range on the side of the sign, and zero for
/// no spacing at all.
pub open spec fn spec_scaled_spacing(spacing: int, size: int, stretch: int) -> int {
    let n = spacing * size;
    if stretch == 0 {
        if n > 0 {
            i32::MAX as int
        } else if n < 0 {
            i32::MIN as int
        } else {
            0
        }
    } else {
        clamp_unit(trunc_quotient(n, stretch))
    }
}

/// The padding that stands for the spacing around an image that is drawn
/// with `size` device pixels: none on the left and top, the scaled spacing
/// on the right and bottom.
pub open spec fn spec_padding(
    tile_spacing: LayoutSize,
    size: DeviceIntSize,
    stretch_size: LayoutSize,
) -> DeviceIntSideOffsets {
    DeviceIntSideOffsets {
        top: 0,
        right: spec_scaled_spacing(
            tile_spacing.width as int,
            size.width as int,
            stretch_size.width as int,
        ) as i32,
        bottom: spec_scaled_spacing(
            tile_spacing.height as int,
            size.height as int,
            stretch_size.height as int,
        ) as i32,
        left: 0,
    }
}

/// `size` grown by `padding`.
pub open spec fn spec_padded_size(
    size: DeviceIntSize,
    padding: DeviceIntSideOffsets,
) -> DeviceIntSize {
    DeviceIntSize {
        width: (size.width + padding.spec_horizontal()) as i32,
        height: (size.height + padding.spec_vertical()) as i32,
    }
}

/// `size` grown by `padding` is a size of 32 bits.
pub open spec fn padded_size_fits(size: DeviceIntSize, padding: DeviceIntSideOffsets) -> bool {
    &&& i32::MIN <= size.width + padding.spec_horizontal() <= i32::MAX
    &&& i32::MIN <= size.height + padding.spec_vertical() <= i32::MAX
}

/// The image is an external texture that has to be copied before it can
/// be drawn.
pub open spec fn spec_requires_copy(
    frame_context: FrameBuildingContext,
    external_image: Option<ExternalImageData>,
) -> bool {
    external_image matches Some(external) && frame_context.fb_config.external_images_require_copy
        && external.image_type == ExternalImageType::TextureHandle(ImageBufferKind::TextureExternal)
}

/// The kind of target that an image of `format` is drawn to: alpha for one
/// byte per pixel, colour for all else.
pub open spec fn spec_target_kind(format: ImageFormat) -> RenderTargetKind {
    if spec_bytes_per_pixel(format) == 1 {
        RenderTargetKind::Alpha
    } else {
        RenderTargetKind::Color
    }
}

/// The edges that spacing between the repetitions of an image lays open:
/// left and right for spacing in the width, top and bottom for spacing in
/// the height.
pub open spec fn spec_edge_flags_for_tile_spacing(tile_spacing: LayoutSize) -> EdgeAaSegmentMask {
    EdgeAaSegmentMask {
        left: tile_spacing.width > 0,
        top: tile_spacing.height > 0,
        right: tile_spacing.width > 0,
        bottom: tile_spacing.height > 0,
    }
}

/// The edges that spacing between the repetitions of an image lays open.
pub fn edge_flags_for_tile_spacing(tile_spacing: &LayoutSize) -> (flags: EdgeAaSegmentMask)
    ensures
        flags == spec_edge_flags_for_tile_spacing(*tile_spacing),
{
    let mut flags = EdgeAaSegmentMask::empty();
    if tile_spacing.width > 0 {
        flags = flags.union(
            EdgeAaSegmentMask { left: true, top: false, right: true, bottom: false },
        );
    }
    if tile_spacing.height > 0 {
        flags = flags.union(
            EdgeAaSegmentMask { left: false, top: true, right: false, bottom: true },
        );
    }
    flags
}

/// The opacity of an image primitive, leaving padding aside.
pub fn source_opacity(properties: &Option<ImageProperties>, color: ColorU) -> (o: PrimitiveOpacity)
    ensures
        o == spec_source_opacity(*properties, color),
{
    match properties {
        Some(p) => {
            if p.descriptor.is_opaque() {
                PrimitiveOpacity::from_alpha(color.a)
            } else {
                PrimitiveOpacity::translucent()
            }
        },
        None => PrimitiveOpacity::opaque(),
    }
}

/// The image is an external texture that has to be copied before it can
/// be drawn.
pub fn requires_copy(
    frame_context: &FrameBuildingContext,
    external_image: &Option<ExternalImageData>,
) -> (r: bool)
    ensures
        r == spec_requires_copy(*frame_context, *external_image),
{
    match external_image {
        Some(external) => frame_context.fb_config.external_images_require_copy
            && external.image_type == ExternalImageType::TextureHandle(
            ImageBufferKind::TextureExternal,
        ),
        None => false,
    }
}

/// The kind of target that an image of `format` is drawn to.
pub fn target_kind_for(format: ImageFormat) -> (kind: RenderTargetKind)
    ensures
        kind == spec_target_kind(format),
{
    if format.bytes_per_pixel() == 1 {
        RenderTargetKind::Alpha
    } else {
        RenderTargetKind::Color
    }
}

/// The device pixels that stand for `spacing` layout units.
pub fn scaled_spacing(spacing: i32, size: i32, stretch: i32) -> (r: i32)
    ensures
        r == spec_scaled_spacing(spacing as int, size as int, stretch as int),
{
    proof {
        crate::arith::lemma_span_product(spacing as int, size as int);
    }
    let n: i128 = (spacing as i128) * (size as i128);
    if stretch == 0 {
        if n > 0 {
            i32::MAX
        } else if n < 0 {
            i32::MIN
        } else {
            0
        }
    } else {
        let d: i128 = if stretch > 0 {
            stretch as i128
        } else {
            -(stretch as i128)
        };
        let m: i128 = if n >= 0 {
            n
        } else {
            -n
        };
        let q: i128 = floor_div(m, d);
        let same_sign = (n >= 0) == (stretch > 0);
        if same_sign {
            clamp_to_unit(q)
        } else {
            clamp_to_unit(-q)
        }
    }
}

/// The padding that stands for the spacing around an image that is drawn
/// with `size` device pixels.
pub fn compute_padding(
    tile_spacing: LayoutSize,
    size: DeviceIntSize,
    stretch_size: LayoutSize,
) -> (padding: DeviceIntSideOffsets)
    ensures
        padding == spec_padding(tile_spacing, size, stretch_size),
{
    DeviceIntSideOffsets::new(
        0,
        scaled_spacing(tile_spacing.width, size.width, stretch_size.width),
        scaled_spacing(tile_spacing.height, size.height, stretch_size.height),
        0,
    )
}

/// What a request to the cache of render tasks leaves behind, and the task
/// that it hands back. A key that the cache holds gives the cached task and
/// adds no task. For any other key the padded copy is built, a scaling task
/// that reads `source` and a blit that reads the scaling task, and the
/// blit is kept under the key. Either way `reader` reads the task.
pub open spec fn spec_request_cached(
    model: FrameModel,
    reader: RenderTaskId,
    key: RenderTaskCacheKey,
    is_opaque: bool,
    source: RenderTaskId,
    target_kind: RenderTargetKind,
    padding: DeviceIntSideOffsets,
) -> (FrameModel, RenderTaskId) {
    match cached_task(model.entries, key) {
        Some(task) => (model.add_dependency(reader, task), task),
        None => {
            let scaled = model.next_task();
            let m1 = model.add_task(
                RenderTask::spec_scaling(source, target_kind, key.size, padding),
            ).add_dependency(scaled, source);
            let blit = m1.next_task();
            let m2 = m1.add_task(RenderTask::spec_blit(key.size, scaled)).add_dependency(
                blit,
                scaled,
            ).add_entry(RenderTaskCacheEntry { key, task: blit, is_opaque }).add_dependency(
                reader,
                blit,
            );
            (m2, blit)
        },
    }
}

/// The task that reads a cached task for `parent`: the task of the surface
/// that is being built, or the task that `parent` names.
pub open spec fn spec_reader(parent: RenderTaskParent, surface: RenderTaskId) -> RenderTaskId {
    match parent {
        RenderTaskParent::Surface => surface,
        RenderTaskParent::RenderTask(task) => task,
    }
}

/// Asks the cache of render tasks for the padded copy of an image under
/// `key`, building it from `source` where the cache does not hold it, and
/// makes `parent` read it.
pub fn request_render_task(
    frame_state: &mut FrameBuildingState,
    key: RenderTaskCacheKey,
    is_opaque: bool,
    parent: RenderTaskParent,
    source: RenderTaskId,
    target_kind: RenderTargetKind,
    padding: DeviceIntSideOffsets,
) -> (task: RenderTaskId)
    requires
        old(frame_state).well_formed(),
        old(frame_state).rg_builder.has_task(source),
        parent matches RenderTaskParent::RenderTask(reader) ==> old(
            frame_state,
        ).rg_builder.has_task(reader),
    ensures
        final(frame_state).well_formed(),
        final(frame_state).same_inputs(old(frame_state)),
        final(frame_state).gpu_cache == old(frame_state).gpu_cache,
        (final(frame_state).model(), task) == spec_request_cached(
            old(frame_state).model(),
            spec_reader(parent, old(frame_state).surface_builder.surface_task),
            key,
            is_opaque,
            source,
            target_kind,
            padding,
        ),
        final(frame_state).rg_builder.has_task(task),
{
    let task = match frame_state.resource_cache.cached_render_tasks.lookup(&key) {
        CacheLookup::Hit(task) => {
            proof {
                let i = crate::render_task_cache::lemma_found_is_entry(
                    frame_state.resource_cache.cached_render_tasks.entries@,
                    key,
                    0,
                );
            }
            task
        },
        CacheLookup::Miss => {
            let scaled = RenderTask::new_scaling_with_padding(
                source,
                &mut frame_state.rg_builder,
                target_kind,
                key.size,
                padding,
            );
            let blit = RenderTask::new_blit(key.size, scaled, &mut frame_state.rg_builder);
            frame_state.resource_cache.cached_render_tasks.commit(key, blit, is_opaque);
            blit
        },
    };
    match parent {
        RenderTaskParent::Surface => {
            frame_state.surface_builder.add_child_render_task(task, &mut frame_state.rg_builder);
        },
        RenderTaskParent::RenderTask(reader) => {
            frame_state.rg_builder.add_dependency(reader, task);
        },
    }
    task
}

/// Asking twice for the same key builds once: the second request hands
/// back the task of the first and adds no task and no entry, whatever it
/// would have been built from.
pub proof fn lemma_request_twice_builds_once(
    model: FrameModel,
    surface: RenderTaskId,
    key: RenderTaskCacheKey,
    is_opaque: bool,
    source: RenderTaskId,
    target_kind: RenderTargetKind,
    padding: DeviceIntSideOffsets,
    is_opaque_again: bool,
    source_again: RenderTaskId,
    target_kind_again: RenderTargetKind,
    padding_again: DeviceIntSideOffsets,
)
    ensures
        ({
            let first = spec_request_cached(
                model,
                surface,
                key,
                is_opaque,
                source,
                target_kind,
                padding,
            );
            let second = spec_request_cached(
                first.0,
                surface,
                key,
                is_opaque_again,
                source_again,
                target_kind_again,
                padding_again,
            );
            &&& second.1 == first.1
            &&& second.0.tasks == first.0.tasks
            &&& second.0.entries == first.0.entries
            &&& second.0.requests == first.0.requests
            &&& cached_task(first.0.entries, key) == Some(first.1)
            &&& first.0.tasks.len() == model.tasks.len() + (if cached_task(model.entries, key)
                is Some {
                0int
            } else {
                2int
            })
        }),
{
    let first = spec_request_cached(model, surface, key, is_opaque, source, target_kind, padding);
    if cached_task(model.entries, key) is None {
        lemma_find_after_push(
            model.entries,
            RenderTaskCacheEntry { key, task: first.1, is_opaque },
            key,
            0,
        );
    }
}


/// What is kept of an image primitive from frame to frame for each of its
/// instances.
#[derive(Debug)]
pub struct ImageInstance {
    pub segment_instance_index: SegmentInstanceIndex,
    /// What the clips leave of the primitive's box.
    pub tight_local_clip_rect: LayoutRect,
    /// The visible tiles, where the image is tiled.
    pub visible_tiles: Vec<VisibleImageTile>,
    /// The render task that supplies the pixels, where the image is drawn
    /// whole.
    pub src_color: Option<RenderTaskId>,
    pub normalized_uvs: bool,
    pub adjustment: AdjustedImageSource,
}

/// A visible tile of one repetition of a tiled image, with the edges of it
/// that are anti-aliased.
#[derive(Clone, Copy, Debug, PartialEq, Eq, Structural)]
pub struct TilePiece {
    pub tile: Tile,
    pub edge_flags: EdgeAaSegmentMask,
}

/// The visible tiles of the repetition `rep` of an image of `stretch_size`:
/// the tiles of the image laid over the box of the repetition. An edge of a
/// tile is anti-aliased where the tile has it on the boundary of the image
/// and the repetition has it on the boundary of the pattern or next to
/// spacing.
pub open spec fn spec_repetition_pieces(
    rep: Repetition,
    base_flags: EdgeAaSegmentMask,
    stretch_size: LayoutSize,
    visible: LayoutRect,
    active: DeviceIntRect,
    tile_size: int,
) -> Seq<TilePiece> {
    let rect = LayoutRect::spec_from_origin_and_size(rep.origin, stretch_size);
    let flags = base_flags.spec_union(rep.edge_flags);
    let tiles = spec_tiles(rect, visible, active, tile_size);
    Seq::new(
        tiles.len(),
        |i: int|
            TilePiece { tile: tiles[i], edge_flags: tiles[i].edge_flags.spec_intersection(flags) },
    )
}

/// The visible tiles of the repetitions `reps`, one repetition after the
/// other.
pub open spec fn spec_pieces(
    reps: Seq<Repetition>,
    base_flags: EdgeAaSegmentMask,
    stretch_size: LayoutSize,
    visible: LayoutRect,
    active: DeviceIntRect,
    tile_size: int,
) -> Seq<TilePiece>
    decreases reps.len(),
{
    if reps.len() == 0 {
        Seq::empty()
    } else {
        spec_pieces(reps.drop_last(), base_flags, stretch_size, visible, active, tile_size)
            + spec_repetition_pieces(
            reps.last(),
            base_flags,
            stretch_size,
            visible,
            active,
            tile_size,
        )
    }
}

/// The frame after each of `pieces` was asked for: one request and one
/// image task for each, in order.
pub open spec fn spec_request_pieces(
    model: FrameModel,
    images: Seq<ImageResource>,
    request: ImageRequest,
    pieces: Seq<TilePiece>,
) -> FrameModel
    decreases pieces.len(),
{
    if pieces.len() == 0 {
        model
    } else {
        let before = spec_request_pieces(model, images, request, pieces.drop_last());
        let tile_request = request.spec_with_tile(pieces.last().tile.offset);
        before.add_request(tile_request).add_task(
            RenderTask::spec_new_image(requested_size(images, tile_request), tile_request),
        )
    }
}

/// The visible tiles that are drawn for `pieces` where the task of the
/// first piece is `first` and each further piece has the next task.
pub open spec fn spec_visible_tiles(
    first: RenderTaskId,
    pieces: Seq<TilePiece>,
    clip: LayoutRect,
) -> Seq<VisibleImageTile> {
    Seq::new(
        pieces.len(),
        |j: int|
            VisibleImageTile {
                src_color: RenderTaskId { index: (first.index + j) as usize },
                edge_flags: pieces[j].edge_flags,
                local_rect: pieces[j].tile.rect,
                local_clip_rect: clip,
            },
    )
}

/// Asking for pieces adds one task and one request for each and leaves the
/// rest of the frame as it is.
pub proof fn lemma_request_pieces_len(
    model: FrameModel,
    images: Seq<ImageResource>,
    request: ImageRequest,
    pieces: Seq<TilePiece>,
)
    ensures
        spec_request_pieces(model, images, request, pieces).tasks.len() == model.tasks.len()
            + pieces.len(),
        spec_request_pieces(model, images, request, pieces).requests.len() == model.requests.len()
            + pieces.len(),
        spec_request_pieces(model, images, request, pieces).dependencies == model.dependencies,
        spec_request_pieces(model, images, request, pieces).entries == model.entries,
        forall|i: int|
            0 <= i < model.tasks.len() ==> spec_request_pieces(
                model,
                images,
                request,
                pieces,
            ).tasks[i] == model.tasks[i],
    decreases pieces.len(),
{
    if pieces.len() > 0 {
        lemma_request_pieces_len(model, images, request, pieces.drop_last());
    }
}

/// What asking for the source of an image leaves behind.
pub struct SourceOutcome {
    /// The frame afterwards.
    pub model: FrameModel,
    /// The task that supplies the pixels of the image.
    pub task: RenderTaskId,
    /// Padding was added around the image.
    pub padded: bool,
}

/// The colour with its channels multiplied by its alpha, in parts of 255
/// times 255.
pub open spec fn spec_premultiplied(color: ColorU) -> GpuBlock {
    GpuBlock {
        x: (color.r * color.a) as i32,
        y: (color.g * color.a) as i32,
        z: (color.b * color.a) as i32,
        w: (color.a * 255) as i32,
    }
}

/// White, in parts of 255 times 255.
pub open spec fn spec_white() -> GpuBlock {
    GpuBlock { x: 65025, y: 65025, z: 65025, w: 65025 }
}

impl ImageData {
    /// The request for the whole image.
    pub open spec fn spec_request(&self) -> ImageRequest {
        ImageRequest { key: self.key, rendering: self.image_rendering, tile: None }
    }

    /// The distance from one repetition of the image to the next.
    pub open spec fn spec_stride(&self) -> LayoutSize {
        self.stretch_size.spec_plus(self.tile_spacing)
    }

    /// The visible tiles of all visible repetitions of the image over
    /// `prim_rect`, where the image holds valid pixels in `active` and is
    /// cut into tiles of `tile_size` device pixels.
    pub open spec fn spec_visible_pieces(
        &self,
        prim_rect: LayoutRect,
        visible: LayoutRect,
        active: DeviceIntRect,
        tile_size: int,
    ) -> Seq<TilePiece> {
        spec_pieces(
            spec_repetitions(prim_rect, visible, self.spec_stride()),
            spec_edge_flags_for_tile_spacing(self.tile_spacing),
            self.stretch_size,
            visible,
            active,
            tile_size,
        )
    }

    /// What the shaders are given for the primitive: the tint multiplied by
    /// its alpha, white, and the adjusted stretch size with the spacing
    /// added on each axis.
    pub open spec fn spec_prim_gpu_blocks(&self, adjustment: AdjustedImageSource) -> Seq<GpuBlock> {
        let stretch = adjustment@.map_stretch_size(self.stretch_size);
        seq![
            spec_premultiplied(self.color),
            spec_white(),
            GpuBlock {
                x: clamp_unit(stretch.width + self.tile_spacing.width) as i32,
                y: clamp_unit(stretch.height + self.tile_spacing.height) as i32,
                z: 0,
                w: 0,
            },
        ]
    }

    /// What asking for the source of an image that is drawn whole leaves
    /// behind. The image is asked for and gets an image task. An external
    /// texture that has to be copied gets a scaling task that the surface
    /// reads. Without spacing that is the source. With spacing the source
    /// is the padded copy from the cache of render tasks, under the key of
    /// the padded size and the request.
    pub open spec fn spec_request_source(
        &self,
        model: FrameModel,
        surface: RenderTaskId,
        properties: ImageProperties,
        frame_context: FrameBuildingContext,
    ) -> SourceOutcome {
        let request = self.spec_request();
        let size = properties.descriptor.size;
        let base = model.next_task();
        let m1 = model.add_request(request).add_task(RenderTask::spec_new_image(size, request));
        let kind = spec_target_kind(properties.descriptor.format);
        let copy = m1.next_task();
        let copied = spec_requires_copy(frame_context, properties.external_image);
        let m2 = if copied {
            m1.add_task(
                RenderTask::spec_scaling(base, kind, size, DeviceIntSideOffsets::spec_zero()),
            ).add_dependency(copy, base).add_dependency(surface, copy)
        } else {
            m1
        };
        let task = if copied {
            copy
        } else {
            base
        };
        if self.tile_spacing == LayoutSize::spec_zero() {
            SourceOutcome { model: m2, task, padded: false }
        } else {
            let padding = spec_padding(self.tile_spacing, size, self.stretch_size);
            let key = RenderTaskCacheKey {
                size: spec_padded_size(size, padding),
                kind: RenderTaskCacheKeyKind::Image(ImageCacheKey { request, texel_rect: None }),
            };
            let cached = spec_request_cached(
                m2,
                surface,
                key,
                properties.descriptor.spec_is_opaque(),
                task,
                kind,
                padding,
            );
            SourceOutcome {
                model: cached.0,
                task: cached.1,
                padded: padding != DeviceIntSideOffsets::spec_zero(),
            }
        }
    }

    /// The padded size of the image fits, where the image is drawn whole
    /// with spacing.
    pub open spec fn padding_fits(&self, properties: ImageProperties) -> bool {
        self.tile_spacing != LayoutSize::spec_zero() ==> padded_size_fits(
            properties.descriptor.size,
            spec_padding(self.tile_spacing, properties.descriptor.size, self.stretch_size),
        )
    }

    /// Asks for the source of an image that is drawn whole.
    fn request_source(
        &self,
        properties: &ImageProperties,
        frame_state: &mut FrameBuildingState,
        frame_context: &FrameBuildingContext,
    ) -> (r: (RenderTaskId, bool))
        requires
            old(frame_state).well_formed(),
            old(frame_state).resource_cache.spec_properties(self.key) == Some(*properties),
            self.padding_fits(*properties),
        ensures
            final(frame_state).well_formed(),
            final(frame_state).same_inputs(old(frame_state)),
            final(frame_state).gpu_cache == old(frame_state).gpu_cache,
            final(frame_state).rg_builder.has_task(r.0),
            ({
                let outcome = self.spec_request_source(
                    old(frame_state).model(),
                    old(frame_state).surface_builder.surface_task,
                    *properties,
                    *frame_context,
                );
                &&& final(frame_state).model() == outcome.model
                &&& r.0 == outcome.task
                &&& r.1 == outcome.padded
            }),
    {
        let request = ImageRequest { key: self.key, rendering: self.image_rendering, tile: None };
        let size = frame_state.resource_cache.request_image(request, &mut frame_state.gpu_cache);
        let mut task_id = frame_state.rg_builder.add_task(RenderTask::new_image(size, request));
        let target_kind = target_kind_for(properties.descriptor.format);
        if requires_copy(frame_context, &properties.external_image) {
            task_id = RenderTask::new_scaling(
                task_id,
                &mut frame_state.rg_builder,
                target_kind,
                size,
            );
            frame_state.surface_builder.add_child_render_task(task_id, &mut frame_state.rg_builder);
        }
        if self.tile_spacing == LayoutSize::zero() {
            (task_id, false)
        } else {
            let padding = compute_padding(self.tile_spacing, size, self.stretch_size);
            let padded = DeviceIntSize {
                width: (size.width as i64 + padding.horizontal()) as i32,
                height: (size.height as i64 + padding.vertical()) as i32,
            };
            let key = RenderTaskCacheKey {
                size: padded,
                kind: RenderTaskCacheKeyKind::Image(ImageCacheKey { request, texel_rect: None }),
            };
            let cached = request_render_task(
                frame_state,
                key,
                properties.descriptor.is_opaque(),
                RenderTaskParent::Surface,
                task_id,
                target_kind,
                padding,
            );
            (cached, padding != DeviceIntSideOffsets::zero())
        }
    }

    /// The visible tiles of all visible repetitions of a tiled image.
    pub fn visible_pieces(
        &self,
        prim_rect: &LayoutRect,
        visible_rect: &LayoutRect,
        active_rect: &DeviceIntRect,
        tile_size: TileSize,
    ) -> (out: Vec<TilePiece>)
        requires
            tile_size > 0,
            prim_rect.spec_intersection(visible_rect) is Some ==> self.spec_stride().width > 0
                && self.spec_stride().height > 0,
        ensures
            out@ == self.spec_visible_pieces(
                *prim_rect,
                *visible_rect,
                *active_rect,
                tile_size as int,
            ),
    {
        let base_edge_flags = edge_flags_for_tile_spacing(&self.tile_spacing);
        let stride = self.stretch_size.plus(self.tile_spacing);
        let reps = repetitions(prim_rect, visible_rect, stride);
        let mut out: Vec<TilePiece> = Vec::new();
        let ghost visible = *visible_rect;
        let ghost active = *active_rect;
        let ghost stretch = self.stretch_size;
        let mut i: usize = 0;
        while i < reps.len()
            invariant
                i <= reps@.len(),
                tile_size > 0,
                visible == *visible_rect,
                active == *active_rect,
                stretch == self.stretch_size,
                base_edge_flags == spec_edge_flags_for_tile_spacing(self.tile_spacing),
                out@ == spec_pieces(
                    reps@.subrange(0, i as int),
                    base_edge_flags,
                    stretch,
                    visible,
                    active,
                    tile_size as int,
                ),
            decreases reps@.len() - i,
        {
            let rep = reps[i];
            let edge_flags = base_edge_flags.union(rep.edge_flags);
            let layout_image_rect = LayoutRect::from_origin_and_size(rep.origin, self.stretch_size);
            let found = tiles(&layout_image_rect, visible_rect, active_rect, tile_size as i32);
            let ghost before = out@;
            let ghost these = spec_repetition_pieces(
                rep,
                base_edge_flags,
                stretch,
                visible,
                active,
                tile_size as int,
            );
            let mut k: usize = 0;
            while k < found.len()
                invariant
                    k <= found@.len(),
                    found@.len() == these.len(),
                    forall|j: int|
                        0 <= j < found@.len() ==> (#[trigger] these[j]) == (TilePiece {
                            tile: found@[j],
                            edge_flags: found@[j].edge_flags.spec_intersection(edge_flags),
                        }),
                    out@ == before + these.subrange(0, k as int),
                decreases found@.len() - k,
            {
                let tile = found[k];
                out.push(TilePiece { tile, edge_flags: tile.edge_flags.intersection(edge_flags) });
                proof {
                    assert(these.subrange(0, k as int + 1) =~= these.subrange(0, k as int).push(
                        these[k as int],
                    ));
                }
                k = k + 1;
            }
            proof {
                assert(these.subrange(0, k as int) =~= these);
                let next = reps@.subrange(0, i as int + 1);
                assert(next.drop_last() =~= reps@.subrange(0, i as int));
                assert(next.last() == rep);
            }
            i = i + 1;
        }
        proof {
            assert(reps@.subrange(0, i as int) =~= reps@);
        }
        out
    }

    /// Adds to `request` what the shaders are given for the primitive.
    pub fn write_prim_gpu_blocks(
        &self,
        adjustment: &AdjustedImageSource,
        request: &mut GpuDataRequest,
    )
        ensures
            final(request).slot == old(request).slot,
            final(request).blocks@ == old(request).blocks@ + self.spec_prim_gpu_blocks(*adjustment),
    {
        let stretch_size = adjustment.map_stretch_size(self.stretch_size);
        let a: i32 = self.color.a as i32;
        proof {
            let r = self.color.r as int;
            let g = self.color.g as int;
            let b = self.color.b as int;
            let alpha = a as int;
            assert(0 <= r * alpha <= 65025 && 0 <= g * alpha <= 65025 && 0 <= b * alpha <= 65025)
                by (nonlinear_arith)
                requires
                    0 <= r <= 255,
                    0 <= g <= 255,
                    0 <= b <= 255,
                    0 <= alpha <= 255,
            ;
        }
        request.push(
            GpuBlock {
                x: self.color.r as i32 * a,
                y: self.color.g as i32 * a,
                z: self.color.b as i32 * a,
                w: a * 255,
            },
        );
        request.push(GpuBlock { x: 65025, y: 65025, z: 65025, w: 65025 });
        request.push(
            GpuBlock {
                x: clamp_to_unit(stretch_size.width as i128 + self.tile_spacing.width as i128),
                y: clamp_to_unit(stretch_size.height as i128 + self.tile_spacing.height as i128),
                z: 0,
                w: 0,
            },
        );
        proof {
            assert(request.blocks@ =~= old(request).blocks@ + self.spec_prim_gpu_blocks(
                *adjustment,
            ));
        }
    }
}

/// Asks for each of `pieces` of a tiled image: the tile is marked as
/// needed, gets an image task of its size, and is added to `visible_tiles`
/// with that task.
fn request_tiles(
    frame_state: &mut FrameBuildingState,
    request: ImageRequest,
    pieces: &Vec<TilePiece>,
    clip: LayoutRect,
    visible_tiles: &mut Vec<VisibleImageTile>,
)
    requires
        old(frame_state).well_formed(),
        old(visible_tiles)@.len() == 0,
        request.tile is None,
        old(frame_state).resource_cache.spec_properties(request.key) matches Some(properties)
            ==> properties.tiling is Some,
    ensures
        final(frame_state).well_formed(),
        final(frame_state).same_inputs(old(frame_state)),
        final(frame_state).gpu_cache == old(frame_state).gpu_cache,
        final(frame_state).model() == spec_request_pieces(
            old(frame_state).model(),
            old(frame_state).resource_cache.images@,
            request,
            pieces@,
        ),
        final(visible_tiles)@ == spec_visible_tiles(
            old(frame_state).model().next_task(),
            pieces@,
            clip,
        ),
{
    let ghost start = frame_state.model();
    let ghost images = frame_state.resource_cache.images@;
    let ghost first = start.next_task();
    let mut j: usize = 0;
    while j < pieces.len()
        invariant
            j <= pieces@.len(),
            frame_state.well_formed(),
            frame_state.same_inputs(old(frame_state)),
            frame_state.gpu_cache == old(frame_state).gpu_cache,
            images == old(frame_state).resource_cache.images@,
            start == old(frame_state).model(),
            first == start.next_task(),
            request.tile is None,
            find_image(images, request.key, 0) matches Some(properties) ==> properties.tiling
                is Some,
            frame_state.model() == spec_request_pieces(
                start,
                images,
                request,
                pieces@.subrange(0, j as int),
            ),
            frame_state.rg_builder.tasks@.len() == start.tasks.len() + j,
            visible_tiles@ == spec_visible_tiles(first, pieces@.subrange(0, j as int), clip),
        decreases pieces@.len() - j,
    {
        let piece = pieces[j];
        let tile_request = request.with_tile(piece.tile.offset);
        let size = frame_state.resource_cache.request_image(
            tile_request,
            &mut frame_state.gpu_cache,
        );
        let task_id = frame_state.rg_builder.add_task(RenderTask::new_image(size, tile_request));
        visible_tiles.push(
            VisibleImageTile {
                src_color: task_id,
                edge_flags: piece.edge_flags,
                local_rect: piece.tile.rect,
                local_clip_rect: clip,
            },
        );
        proof {
            let next = pieces@.subrange(0, j as int + 1);
            assert(next.drop_last() =~= pieces@.subrange(0, j as int));
            assert(next.last() == piece);
            assert(visible_tiles@ =~= spec_visible_tiles(first, next, clip));
        }
        j = j + 1;
    }
    proof {
        assert(pieces@.subrange(0, j as int) =~= pieces@);
    }
}


/// What an image primitive draws from in a frame.
pub struct PathOutcome {
    /// The frame after the source was asked for.
    pub model: FrameModel,
    /// The task that supplies the pixels, where the image is drawn whole.
    pub src_color: Option<RenderTaskId>,
    /// The visible tiles, where the image is tiled.
    pub visible_tiles: Seq<VisibleImageTile>,
    /// Padding was added around the image.
    pub padded: bool,
}

/// The frame after the surface was made to read the task that the image
/// `key` depends on, where there is such a task.
pub open spec fn spec_add_image_dependency(
    model: FrameModel,
    surface: RenderTaskId,
    dependencies: Seq<ImageDependency>,
    key: ApiImageKey,
) -> FrameModel {
    match find_dependency(dependencies, key, 0) {
        Some(task) => model.add_dependency(surface, task),
        None => model,
    }
}

impl ImageData {
    /// What the primitive draws from. An image that is not known has no
    /// source. An image that is drawn whole has one source task and no
    /// tiles. A tiled image has no source task and one tile with its own
    /// task for each visible piece.
    pub open spec fn spec_update_source(
        &self,
        model: FrameModel,
        images: Seq<ImageResource>,
        surface: RenderTaskId,
        frame_context: FrameBuildingContext,
        prim_rect: LayoutRect,
        clip: LayoutRect,
        visible: LayoutRect,
    ) -> PathOutcome {
        match find_image(images, self.key, 0) {
            None => PathOutcome {
                model,
                src_color: None,
                visible_tiles: Seq::empty(),
                padded: false,
            },
            Some(properties) => match properties.tiling {
                None => {
                    let outcome = self.spec_request_source(
                        model,
                        surface,
                        properties,
                        frame_context,
                    );
                    PathOutcome {
                        model: outcome.model,
                        src_color: Some(outcome.task),
                        visible_tiles: Seq::empty(),
                        padded: outcome.padded,
                    }
                },
                Some(tile_size) => {
                    let pieces = self.spec_visible_pieces(
                        prim_rect,
                        visible,
                        properties.visible_rect,
                        tile_size as int,
                    );
                    PathOutcome {
                        model: spec_request_pieces(model, images, self.spec_request(), pieces),
                        src_color: None,
                        visible_tiles: spec_visible_tiles(model.next_task(), pieces, clip),
                        padded: false,
                    }
                },
            },
        }
    }

    /// The update is defined for the image as the cache knows it: the
    /// padded size of an image that is drawn whole fits, and a tiled image
    /// that can be seen repeats at a positive stride.
    pub open spec fn source_is_defined(
        &self,
        properties: Option<ImageProperties>,
        prim_rect: LayoutRect,
        visible: LayoutRect,
    ) -> bool {
        match properties {
            None => true,
            Some(p) => match p.tiling {
                None => self.padding_fits(p),
                Some(_) => prim_rect.spec_intersection(&visible) is Some
                    ==> self.spec_stride().width > 0 && self.spec_stride().height > 0,
            },
        }
    }

    /// Tests whether `update` is defined for an instance: the clips leave
    /// something of the primitive's box, and the source is defined for the
    /// image as the cache knows it.
    pub fn update_is_defined(
        &self,
        common: &PrimTemplateCommonData,
        dirty_rect: Option<LayoutRect>,
        frame_state: &FrameBuildingState,
        visibility: &PrimitiveVisibility,
    ) -> (ok: bool)
        ensures
            ok == (visibility.clip_chain.local_clip_rect.spec_intersection(&common.prim_rect)
                is Some && self.source_is_defined(
                frame_state.resource_cache.spec_properties(self.key),
                common.prim_rect,
                spec_conservative_visible_rect(visibility.clip_chain, dirty_rect),
            )),
    {
        if visibility.clip_chain.local_clip_rect.intersection(&common.prim_rect).is_none() {
            return false;
        }
        match frame_state.resource_cache.get_image_properties(self.key) {
            None => true,
            Some(properties) => match properties.tiling {
                None => {
                    if self.tile_spacing == LayoutSize::zero() {
                        true
                    } else {
                        let size = properties.descriptor.size;
                        let padding = compute_padding(self.tile_spacing, size, self.stretch_size);
                        let width = size.width as i64 + padding.horizontal();
                        let height = size.height as i64 + padding.vertical();
                        i32::MIN as i64 <= width && width <= i32::MAX as i64 && i32::MIN as i64
                            <= height && height <= i32::MAX as i64
                    }
                },
                Some(_) => {
                    let visible = compute_conservative_visible_rect(
                        &visibility.clip_chain,
                        dirty_rect,
                    );
                    if common.prim_rect.intersection(&visible).is_some() {
                        let stride = self.stretch_size.plus(self.tile_spacing);
                        stride.width > 0 && stride.height > 0
                    } else {
                        true
                    }
                },
            },
        }
    }

    /// Works out what an instance of the primitive draws in this frame.
    ///
    /// The opacity and the need for repetition of the template are derived
    /// anew, the instance gets its tight clip box and its source, the frame
    /// gets the requests and render tasks for the source, and the data for
    /// the shaders is written where the GPU cache holds none that is
    /// current. `dirty_rect` is the part of the frame that is drawn anew,
    /// in the primitive's space.
    pub fn update(
        &mut self,
        common: &mut PrimTemplateCommonData,
        image_instance: &mut ImageInstance,
        dirty_rect: Option<LayoutRect>,
        frame_state: &mut FrameBuildingState,
        frame_context: &FrameBuildingContext,
        visibility: &mut PrimitiveVisibility,
    )
        requires
            old(frame_state).well_formed(),
            old(visibility).clip_chain.local_clip_rect.spec_intersection(&old(common).prim_rect)
                is Some,
            old(self).source_is_defined(
                old(frame_state).resource_cache.spec_properties(old(self).key),
                old(common).prim_rect,
                spec_conservative_visible_rect(old(visibility).clip_chain, dirty_rect),
            ),
        ensures
            *final(self) == *old(self),
            final(frame_state).well_formed(),
            final(frame_state).same_inputs(old(frame_state)),
            ({
                let properties = old(frame_state).resource_cache.spec_properties(old(self).key);
                let tiled = properties matches Some(p) && p.tiling is Some;
                let whole = properties matches Some(p) && p.tiling is None;
                let clip = old(visibility).clip_chain.local_clip_rect.spec_intersection(
                    &old(common).prim_rect,
                ).unwrap();
                let surface = old(frame_state).surface_builder.surface_task;
                let outcome = old(self).spec_update_source(
                    old(frame_state).model(),
                    old(frame_state).resource_cache.images@,
                    surface,
                    *frame_context,
                    old(common).prim_rect,
                    clip,
                    spec_conservative_visible_rect(old(visibility).clip_chain, dirty_rect),
                );
                // the frame
                &&& final(frame_state).model() == spec_add_image_dependency(
                    outcome.model,
                    surface,
                    old(frame_state).image_dependencies@,
                    old(self).key,
                )
                // the template
                &&& final(common).opacity == (if outcome.padded {
                    PrimitiveOpacity::spec_translucent()
                } else {
                    spec_source_opacity(properties, old(self).color)
                })
                &&& final(common).may_need_repetition == (old(common).may_need_repetition
                    && !spec_covers(old(self).stretch_size, old(common).prim_rect) && !tiled)
                &&& final(common).flags == old(common).flags
                &&& final(common).prim_rect == old(common).prim_rect
                &&& final(common).edge_aa_mask == old(common).edge_aa_mask
                // the instance
                &&& final(image_instance).segment_instance_index
                    == old(image_instance).segment_instance_index
                &&& final(image_instance).tight_local_clip_rect == clip
                &&& final(image_instance).src_color == outcome.src_color
                &&& final(image_instance).visible_tiles@ == outcome.visible_tiles
                &&& final(image_instance).adjustment == (if whole {
                    properties.unwrap().adjustment
                } else {
                    AdjustedImageSource::spec_new()
                })
                &&& final(image_instance).normalized_uvs == (if whole
                    && properties.unwrap().external_image is Some && !spec_requires_copy(
                    *frame_context,
                    properties.unwrap().external_image,
                ) {
                    properties.unwrap().external_image.unwrap().normalized_uvs
                } else {
                    old(image_instance).normalized_uvs
                })
                // visibility
                &&& final(visibility).clip_chain == old(visibility).clip_chain
                &&& final(visibility).state == (if tiled && outcome.visible_tiles.len() == 0 {
                    VisibilityState::Culled
                } else {
                    old(visibility).state
                })
            }),
            // padding makes the primitive translucent, whatever the image holds
            (old(frame_state).resource_cache.spec_properties(old(self).key) matches Some(p)
                && p.tiling is None && old(self).tile_spacing != LayoutSize::spec_zero()
                && spec_padding(old(self).tile_spacing, p.descriptor.size, old(self).stretch_size)
                != DeviceIntSideOffsets::spec_zero()) ==> final(common).opacity
                == PrimitiveOpacity::spec_translucent(),
            // every task that the instance names is a task of this frame
            final(image_instance).src_color matches Some(task)
                ==> final(frame_state).rg_builder.has_task(task),
            forall|i: int|
                0 <= i < final(image_instance).visible_tiles@.len()
                    ==> final(frame_state).rg_builder.has_task(
                    (#[trigger] final(image_instance).visible_tiles@[i]).src_color,
                ),
            // the instance draws from a source task or from tiles, never
            // from both
            final(image_instance).src_color is Some ==> final(image_instance).visible_tiles@.len()
                == 0,
            // the data for the shaders is written where none is current
            final(frame_state).gpu_cache.is_current(final(common).gpu_cache_handle),
            old(frame_state).gpu_cache.is_current(old(common).gpu_cache_handle) ==> {
                &&& final(common).gpu_cache_handle == old(common).gpu_cache_handle
                &&& final(frame_state).gpu_cache.blocks@ == old(frame_state).gpu_cache.blocks@
                &&& final(frame_state).gpu_cache.slots@ == old(frame_state).gpu_cache.slots@
            },
            !old(frame_state).gpu_cache.is_current(old(common).gpu_cache_handle) ==> {
                &&& final(common).gpu_cache_handle.location == Some(
                    old(frame_state).gpu_cache.slots.len(),
                )
                &&& final(frame_state).gpu_cache.blocks@ == old(frame_state).gpu_cache.blocks@
                    + old(self).spec_prim_gpu_blocks(final(image_instance).adjustment)
                &&& final(frame_state).gpu_cache.slots@ == old(frame_state).gpu_cache.slots@.push(
                    GpuSlot {
                        start: old(frame_state).gpu_cache.blocks.len(),
                        len: 3,
                        resident: true,
                    },
                )
                &&& final(frame_state).gpu_cache.slot_blocks(final(common).gpu_cache_handle)
                    == old(self).spec_prim_gpu_blocks(final(image_instance).adjustment)
            },
    {
        let image_properties = frame_state.resource_cache.get_image_properties(self.key);
        common.opacity = source_opacity(&image_properties, self.color);
        if self.stretch_size.width as i64 >= common.prim_rect.width()
            && self.stretch_size.height as i64 >= common.prim_rect.height() {
            common.may_need_repetition = false;
        }
        // Decomposing a repeated image gives pieces that reach past the
        // primitive's box, so each piece is clipped to what the clips leave
        // of the box.
        let tight_clip_rect = visibility.clip_chain.local_clip_rect.intersection(
            &common.prim_rect,
        ).unwrap();
        image_instance.tight_local_clip_rect = tight_clip_rect;
        let path = self.prepare_source(
            &image_properties,
            &common.prim_rect,
            &visibility.clip_chain,
            dirty_rect,
            image_instance,
            frame_state,
            frame_context,
        );
        match path {
            SourcePath::Whole { padded } => {
                if padded {
                    common.opacity = PrimitiveOpacity::translucent();
                }
            },
            SourcePath::Tiled => {
                // The repetitions are worked out here, so the shader has
                // none to draw.
                common.may_need_repetition = false;
                if image_instance.visible_tiles.is_empty() {
                    visibility.reset();
                }
            },
            SourcePath::Missing => {},
        }
        add_image_dependency(frame_state, self.key);
        write_gpu_blocks_once(
            self,
            &image_instance.adjustment,
            &mut common.gpu_cache_handle,
            &mut frame_state.gpu_cache,
        );
    }

    /// Gives the instance its source for this frame and asks the frame for
    /// it.
    fn prepare_source(
        &self,
        image_properties: &Option<ImageProperties>,
        prim_rect: &LayoutRect,
        clip_chain: &ClipChainInstance,
        dirty_rect: Option<LayoutRect>,
        image_instance: &mut ImageInstance,
        frame_state: &mut FrameBuildingState,
        frame_context: &FrameBuildingContext,
    ) -> (path: SourcePath)
        requires
            old(frame_state).well_formed(),
            *image_properties == old(frame_state).resource_cache.spec_properties(self.key),
            self.source_is_defined(
                *image_properties,
                *prim_rect,
                spec_conservative_visible_rect(*clip_chain, dirty_rect),
            ),
        ensures
            final(frame_state).well_formed(),
            final(frame_state).same_inputs(old(frame_state)),
            final(frame_state).gpu_cache == old(frame_state).gpu_cache,
            ({
                let outcome = self.spec_update_source(
                    old(frame_state).model(),
                    old(frame_state).resource_cache.images@,
                    old(frame_state).surface_builder.surface_task,
                    *frame_context,
                    *prim_rect,
                    old(image_instance).tight_local_clip_rect,
                    spec_conservative_visible_rect(*clip_chain, dirty_rect),
                );
                &&& final(frame_state).model() == outcome.model
                &&& final(image_instance).src_color == outcome.src_color
                &&& final(image_instance).visible_tiles@ == outcome.visible_tiles
                &&& path == (match *image_properties {
                    None => SourcePath::Missing,
                    Some(p) => if p.tiling is Some {
                        SourcePath::Tiled
                    } else {
                        SourcePath::Whole { padded: outcome.padded }
                    },
                })
            }),
            final(image_instance).segment_instance_index
                == old(image_instance).segment_instance_index,
            final(image_instance).tight_local_clip_rect
                == old(image_instance).tight_local_clip_rect,
            final(image_instance).adjustment == (match *image_properties {
                Some(p) => if p.tiling is None {
                    p.adjustment
                } else {
                    AdjustedImageSource::spec_new()
                },
                None => AdjustedImageSource::spec_new(),
            }),
            final(image_instance).normalized_uvs == (match *image_properties {
                Some(p) => if p.tiling is None && p.external_image is Some && !spec_requires_copy(
                    *frame_context,
                    p.external_image,
                ) {
                    p.external_image.unwrap().normalized_uvs
                } else {
                    old(image_instance).normalized_uvs
                },
                None => old(image_instance).normalized_uvs,
            }),
            final(image_instance).src_color matches Some(task)
                ==> final(frame_state).rg_builder.has_task(task),
            forall|i: int|
                0 <= i < final(image_instance).visible_tiles@.len()
                    ==> final(frame_state).rg_builder.has_task(
                    (#[trigger] final(image_instance).visible_tiles@[i]).src_color,
                ),
            final(image_instance).src_color is Some ==> final(image_instance).visible_tiles@.len()
                == 0,
    {
        image_instance.adjustment = AdjustedImageSource::new();
        image_instance.visible_tiles.clear();
        match image_properties {
            Some(properties) => match properties.tiling {
                None => {
                    image_instance.adjustment = properties.adjustment;
                    let source = self.request_source(properties, frame_state, frame_context);
                    match properties.external_image {
                        Some(external) => {
                            // An image that is drawn from a copy is drawn
                            // from a render task, whose coordinates need no
                            // normalizing.
                            if !requires_copy(frame_context, &properties.external_image) {
                                image_instance.normalized_uvs = external.normalized_uvs;
                            }
                        },
                        None => {},
                    }
                    image_instance.src_color = Some(source.0);
                    SourcePath::Whole { padded: source.1 }
                },
                Some(tile_size) => {
                    // There is a source task for each visible tile instead.
                    image_instance.src_color = None;
                    let request = ImageRequest {
                        key: self.key,
                        rendering: self.image_rendering,
                        tile: None,
                    };
                    let visible_rect = compute_conservative_visible_rect(clip_chain, dirty_rect);
                    proof {
                        let i = crate::resource_cache::lemma_found_is_image(
                            frame_state.resource_cache.images@,
                            self.key,
                            0,
                        );
                        assert(crate::resource_cache::tiling_is_valid(
                            frame_state.resource_cache.images@[i].properties,
                        ));
                    }
                    let pieces = self.visible_pieces(
                        prim_rect,
                        &visible_rect,
                        &properties.visible_rect,
                        tile_size,
                    );
                    proof {
                        lemma_request_pieces_len(
                            frame_state.model(),
                            frame_state.resource_cache.images@,
                            request,
                            pieces@,
                        );
                    }
                    request_tiles(
                        frame_state,
                        request,
                        &pieces,
                        image_instance.tight_local_clip_rect,
                        &mut image_instance.visible_tiles,
                    );
                    SourcePath::Tiled
                },
            },
            None => {
                image_instance.src_color = None;
                SourcePath::Missing
            },
        }
    }
}

/// Which way the source of an image primitive was found.
enum SourcePath {
    /// The image is not known.
    Missing,
    /// The image is drawn whole, with padding or without.
    Whole { padded: bool },
    /// The image is drawn tile by tile.
    Tiled,
}

/// Writes the data of `data` for the shaders where the GPU cache holds
/// none that is current for `handle`.
fn write_gpu_blocks_once(
    data: &ImageData,
    adjustment: &AdjustedImageSource,
    handle: &mut GpuCacheHandle,
    gpu_cache: &mut GpuCache,
)
    requires
        old(gpu_cache).well_formed(),
    ensures
        final(gpu_cache).well_formed(),
        final(gpu_cache).is_current(*final(handle)),
        old(gpu_cache).is_current(*old(handle)) ==> {
            &&& *final(handle) == *old(handle)
            &&& final(gpu_cache).blocks@ == old(gpu_cache).blocks@
            &&& final(gpu_cache).slots@ == old(gpu_cache).slots@
        },
        !old(gpu_cache).is_current(*old(handle)) ==> {
            &&& final(handle).location == Some(old(gpu_cache).slots.len())
            &&& final(gpu_cache).blocks@ == old(gpu_cache).blocks@ + data.spec_prim_gpu_blocks(
                *adjustment,
            )
            &&& final(gpu_cache).slots@ == old(gpu_cache).slots@.push(
                GpuSlot { start: old(gpu_cache).blocks.len(), len: 3, resident: true },
            )
            &&& final(gpu_cache).slot_blocks(*final(handle)) == data.spec_prim_gpu_blocks(
                *adjustment,
            )
        },
{
    match gpu_cache.request(handle) {
        Some(mut request) => {
            let ghost before = gpu_cache.blocks@;
            data.write_prim_gpu_blocks(adjustment, &mut request);
            let ghost written = request.blocks@;
            proof {
                assert(written =~= data.spec_prim_gpu_blocks(*adjustment));
            }
            gpu_cache.commit(request);
            proof {
                let slot = gpu_cache.slots@[handle.location.unwrap() as int];
                assert(slot.start == before.len());
                assert(slot.len == written.len());
                assert(gpu_cache.blocks@.subrange(
                    before.len() as int,
                    (before.len() + written.len()) as int,
                ) =~= written);
            }
        },
        None => {},
    }
}

/// Makes the surface read the task that the image `key` depends on in this
/// frame, where there is such a task.
fn add_image_dependency(frame_state: &mut FrameBuildingState, key: ApiImageKey)
    requires
        old(frame_state).well_formed(),
    ensures
        final(frame_state).well_formed(),
        final(frame_state).same_inputs(old(frame_state)),
        final(frame_state).gpu_cache == old(frame_state).gpu_cache,
        final(frame_state).model() == spec_add_image_dependency(
            old(frame_state).model(),
            old(frame_state).surface_builder.surface_task,
            old(frame_state).image_dependencies@,
            key,
        ),
        forall|task: RenderTaskId|
            old(frame_state).rg_builder.has_task(task) ==> final(frame_state).rg_builder.has_task(
                task,
            ),
{
    match frame_state.image_dependency(key) {
        Some(task_id) => {
            frame_state.surface_builder.add_child_render_task(task_id, &mut frame_state.rg_builder);
        },
        None => {},
    }
}


/// The key of an image primitive.
pub type ImageKey = PrimKey<Image>;

/// The template of an image primitive.
pub type ImageTemplate = PrimTemplate<ImageData>;

impl ImageKey {
    /// The key of the image primitive `image` that lies where `info` says.
    pub fn new(info: &LayoutPrimitiveInfo, image: Image) -> (key: Self)
        ensures
            key.common == PrimKeyCommonData::spec_from_info(*info),
            key.kind == image,
    {
        PrimKey { common: PrimKeyCommonData::from_info(*info), kind: image }
    }
}

impl ImageData {
    /// The template data of the interned image primitive `image`.
    pub open spec fn spec_from_image(image: Image) -> ImageData {
        ImageData {
            key: image.key,
            stretch_size: LayoutSize {
                width: image.stretch_size.w,
                height: image.stretch_size.h,
            },
            tile_spacing: LayoutSize {
                width: image.tile_spacing.w,
                height: image.tile_spacing.h,
            },
            color: image.color,
            image_rendering: image.image_rendering,
            alpha_type: image.alpha_type,
        }
    }
}

impl From<Image> for ImageData {
    fn from(image: Image) -> (data: Self) {
        ImageData {
            key: image.key,
            stretch_size: LayoutSize {
                width: image.stretch_size.w,
                height: image.stretch_size.h,
            },
            tile_spacing: LayoutSize {
                width: image.tile_spacing.w,
                height: image.tile_spacing.h,
            },
            color: image.color,
            image_rendering: image.image_rendering,
            alpha_type: image.alpha_type,
        }
    }
}

impl vstd::std_specs::convert::FromSpecImpl<Image> for ImageData {
    open spec fn obeys_from_spec() -> bool {
        true
    }

    open spec fn from_spec(image: Image) -> Self {
        ImageData::spec_from_image(image)
    }
}

impl From<ImageKey> for ImageTemplate {
    fn from(image: ImageKey) -> (template: Self) {
        let common = PrimTemplateCommonData::with_key_common(image.common);
        PrimTemplate { common, kind: ImageData::from(image.kind) }
    }
}

impl vstd::std_specs::convert::FromSpecImpl<ImageKey> for ImageTemplate {
    open spec fn obeys_from_spec() -> bool {
        true
    }

    open spec fn from_spec(image: ImageKey) -> Self {
        PrimTemplate {
            common: PrimTemplateCommonData::spec_with_key_common(image.common),
            kind: ImageData::spec_from_image(image.kind),
        }
    }
}

impl ImageInstance {
    /// The state of an instance that was not drawn yet.
    pub open spec fn is_fresh(&self) -> bool {
        &&& self.segment_instance_index == SegmentInstanceIndex::spec_invalid()
        &&& self.tight_local_clip_rect == LayoutRect::spec_zero()
        &&& self.visible_tiles@.len() == 0
        &&& self.src_color is None
        &&& !self.normalized_uvs
        &&& self.adjustment == AdjustedImageSource::spec_new()
    }

    /// The state of an instance that was not drawn yet.
    pub fn new() -> (instance: Self)
        ensures
            instance.is_fresh(),
    {
        ImageInstance {
            segment_instance_index: SegmentInstanceIndex::invalid(),
            tight_local_clip_rect: LayoutRect::zero(),
            visible_tiles: Vec::new(),
            src_color: None,
            normalized_uvs: false,
            adjustment: AdjustedImageSource::new(),
        }
    }
}

impl Image {
    /// The key of this image primitive where `info` says it lies.
    pub fn into_key(self, info: &LayoutPrimitiveInfo) -> (key: ImageKey)
        ensures
            key.common == PrimKeyCommonData::spec_from_info(*info),
            key.kind == self,
    {
        ImageKey::new(info, self)
    }

    /// Makes an instance of the image primitive: a fresh per-instance state
    /// is added at the end of the primitive store, and the instance refers
    /// to the template and to that state.
    pub fn make_instance_kind(
        _key: ImageKey,
        data_handle: ImageDataHandle,
        prim_store: &mut PrimitiveStore,
    ) -> (kind: PrimitiveInstanceKind)
        ensures
            final(prim_store).images@.len() == old(prim_store).images@.len() + 1,
            final(prim_store).images@.subrange(0, old(prim_store).images@.len() as int)
                == old(prim_store).images@,
            final(prim_store).images@.last().is_fresh(),
            kind == (PrimitiveInstanceKind::Image {
                data_handle,
                image_instance_index: ImageInstanceIndex {
                    index: old(prim_store).images.len(),
                },
                compositor_surface_kind: CompositorSurfaceKind::Blit,
            }),
    {
        let index = prim_store.images.len();
        prim_store.images.push(ImageInstance::new());
        proof {
            assert(prim_store.images@.subrange(0, index as int) =~= old(prim_store).images@);
        }
        PrimitiveInstanceKind::Image {
            data_handle,
            image_instance_index: ImageInstanceIndex { index },
            compositor_surface_kind: CompositorSurfaceKind::Blit,
        }
    }

    /// The image primitive that draws the shadow of this one: the same
    /// image in the colour of the shadow.
    pub fn create_shadow(
        &self,
        shadow: &Shadow,
        _blur_is_noop: bool,
        _raster_space: RasterSpace,
    ) -> (image: Image)
        ensures
            image == (Image { color: shadow.color, ..*self }),
    {
        Image {
            tile_spacing: self.tile_spacing,
            stretch_size: self.stretch_size,
            key: self.key,
            image_rendering: self.image_rendering,
            alpha_type: self.alpha_type,
            color: shadow.color,
        }
    }

    /// An image primitive is always drawn.
    pub fn is_visible(&self) -> (visible: bool)
        ensures
            visible,
    {
        true
    }
}


/// Without spacing, a tiled image that covers the box on its own is drawn
/// as the one region that it is drawn as when it is not tiled: the pieces
/// are the tiles of the image laid once over the box of the stretch size
/// at the origin of the primitive, and an edge is anti-aliased exactly
/// where a tile has it on the boundary of the image.
pub proof fn lemma_zero_spacing_is_one_region(
    data: ImageData,
    prim_rect: LayoutRect,
    visible: LayoutRect,
    active: DeviceIntRect,
    tile_size: int,
)
    requires
        data.tile_spacing == LayoutSize::spec_zero(),
        spec_covers(data.stretch_size, prim_rect),
        prim_rect.spec_intersection(&visible) is Some,
    ensures
        ({
            let region = LayoutRect::spec_from_origin_and_size(prim_rect.min, data.stretch_size);
            let tiles = spec_tiles(region, visible, active, tile_size);
            let pieces = data.spec_visible_pieces(prim_rect, visible, active, tile_size);
            &&& pieces.len() == tiles.len()
            &&& forall|i: int|
                0 <= i < tiles.len() ==> #[trigger] pieces[i] == (TilePiece {
                    tile: tiles[i],
                    edge_flags: tiles[i].edge_flags,
                })
        }),
{
    let stride = data.spec_stride();
    assert(stride == data.stretch_size);
    lemma_single_repetition(prim_rect, visible, stride);
    let rep = Repetition { origin: prim_rect.min, edge_flags: EdgeAaSegmentMask::spec_all() };
    let reps = spec_repetitions(prim_rect, visible, stride);
    let base = spec_edge_flags_for_tile_spacing(data.tile_spacing);
    assert(reps.drop_last() =~= Seq::<Repetition>::empty());
    assert(reps.last() == rep);
    let first = spec_pieces(reps.drop_last(), base, data.stretch_size, visible, active, tile_size);
    assert(first =~= Seq::<TilePiece>::empty());
    let these = spec_repetition_pieces(rep, base, data.stretch_size, visible, active, tile_size);
    assert(data.spec_visible_pieces(prim_rect, visible, active, tile_size) =~= these);
}

} // verus!
