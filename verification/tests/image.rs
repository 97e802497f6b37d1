use image_prim::adjust::AdjustedImageSource;
use image_prim::api::{
    AlphaType, ApiImageKey, ColorU, ExternalImageData, ExternalImageType, ImageBufferKind,
    ImageDescriptor, ImageFormat, ImageRendering, ALLOW_MIPMAPS, IS_OPAQUE,
};
use image_prim::frame::{
    FrameBuilderConfig, FrameBuildingContext, FrameBuildingState, ImageDependency,
};
use image_prim::gpu_cache::{GpuBlock, GpuCache, GpuCacheHandle, GpuDataRequest, GpuSlot};
use image_prim::image::{
    compute_padding, edge_flags_for_tile_spacing, request_render_task, requires_copy,
    scaled_spacing, source_opacity, target_kind_for, Image, ImageCacheKey, ImageData,
    ImageInstance, ImageKey, ImageTemplate, SizeKey, VisibleImageTile,
};
use image_prim::mask::EdgeAaSegmentMask;
use image_prim::prim::{
    ClipChainInstance, CompositorSurfaceKind, ImageDataHandle, ImageInstanceIndex,
    LayoutPrimitiveInfo, PrimKeyCommonData, PrimTemplateCommonData, PrimitiveFlags,
    PrimitiveInstanceKind, PrimitiveOpacity, PrimitiveStore, PrimitiveVisibility, RasterSpace,
    SegmentInstanceIndex, Shadow, VisibilityState,
};
use image_prim::render_graph::{
    Dependency, DeviceIntSideOffsets, ImageRequest, RenderTargetKind, RenderTask, RenderTaskId,
    RenderTaskKind,
};
use image_prim::render_task_cache::{
    CacheLookup, RenderTaskCache, RenderTaskCacheEntry, RenderTaskCacheKey, RenderTaskCacheKeyKind,
    RenderTaskParent,
};
use image_prim::resource_cache::{ImageProperties, ResourceCache};
use image_prim::units::{
    DeviceIntPoint, DeviceIntRect, DeviceIntSize, LayoutPoint, LayoutRect, LayoutSize, TileOffset,
};

fn rect(x0: i32, y0: i32, x1: i32, y1: i32) -> LayoutRect {
    LayoutRect { min: LayoutPoint { x: x0, y: y0 }, max: LayoutPoint { x: x1, y: y1 } }
}

fn size(width: i32, height: i32) -> LayoutSize {
    LayoutSize { width, height }
}

fn key(id: u32) -> ApiImageKey {
    ApiImageKey { namespace: 1, id }
}

fn id(index: usize) -> RenderTaskId {
    RenderTaskId { index }
}

fn edge(parent: usize, child: usize) -> Dependency {
    Dependency { parent: id(parent), child: id(child) }
}

fn properties(width: i32, height: i32, flags: u32) -> ImageProperties {
    ImageProperties {
        descriptor: ImageDescriptor {
            format: ImageFormat::BGRA8,
            size: DeviceIntSize { width, height },
            flags,
        },
        external_image: None,
        tiling: None,
        visible_rect: DeviceIntRect {
            min: DeviceIntPoint { x: 0, y: 0 },
            max: DeviceIntPoint { x: width, y: height },
        },
        adjustment: AdjustedImageSource::new(),
    }
}

fn frame_with(images: Vec<(ApiImageKey, ImageProperties)>) -> FrameBuildingState {
    let mut resource_cache = ResourceCache::new();
    for (key, properties) in images {
        resource_cache.add_image(key, properties);
    }
    FrameBuildingState::new(resource_cache, GpuCache::new())
}

fn context(copy: bool) -> FrameBuildingContext {
    FrameBuildingContext { fb_config: FrameBuilderConfig { external_images_require_copy: copy } }
}

fn data(stretch: LayoutSize, spacing: LayoutSize, alpha: u8) -> ImageData {
    ImageData {
        key: key(7),
        stretch_size: stretch,
        tile_spacing: spacing,
        color: ColorU { r: 200, g: 100, b: 50, a: alpha },
        image_rendering: ImageRendering::Auto,
        alpha_type: AlphaType::PremultipliedAlpha,
    }
}

fn common(prim_rect: LayoutRect) -> PrimTemplateCommonData {
    PrimTemplateCommonData::with_key_common(PrimKeyCommonData {
        flags: PrimitiveFlags { bits: 1 },
        prim_rect,
    })
}

fn visibility(clip: LayoutRect) -> PrimitiveVisibility {
    PrimitiveVisibility {
        state: VisibilityState::Visible,
        clip_chain: ClipChainInstance { local_clip_rect: clip },
    }
}

fn whole_request() -> ImageRequest {
    ImageRequest { key: key(7), rendering: ImageRendering::Auto, tile: None }
}

fn image_task(width: i32, height: i32, request: ImageRequest) -> RenderTask {
    RenderTask { size: DeviceIntSize { width, height }, kind: RenderTaskKind::Image { request } }
}

fn surface_task() -> RenderTask {
    RenderTask { size: DeviceIntSize { width: 0, height: 0 }, kind: RenderTaskKind::Surface }
}

#[test]
fn image_that_fills_its_box_is_drawn_from_one_task() {
    let mut frame = frame_with(vec![(key(7), properties(100, 100, IS_OPAQUE))]);
    let mut image = data(size(100, 100), size(0, 0), 255);
    let mut common = common(rect(0, 0, 100, 100));
    let mut instance = ImageInstance::new();
    let mut vis = visibility(rect(0, 0, 100, 100));
    image.update(&mut common, &mut instance, None, &mut frame, &context(false), &mut vis);

    assert!(!common.may_need_repetition);
    assert_eq!(common.opacity, PrimitiveOpacity { is_opaque: true });
    assert_eq!(instance.src_color, Some(id(1)));
    assert!(instance.visible_tiles.is_empty());
    assert_eq!(instance.tight_local_clip_rect, rect(0, 0, 100, 100));
    assert_eq!(frame.rg_builder.tasks, vec![surface_task(), image_task(100, 100, whole_request())]);
    assert!(frame.rg_builder.dependencies.is_empty());
    assert_eq!(frame.resource_cache.requests, vec![whole_request()]);
    assert!(frame.resource_cache.cached_render_tasks.entries.is_empty());
    assert_eq!(vis.state, VisibilityState::Visible);
}

#[test]
fn opacity_of_an_opaque_image_follows_the_alpha_of_the_tint() {
    let mut frame = frame_with(vec![(key(7), properties(100, 100, IS_OPAQUE | ALLOW_MIPMAPS))]);
    let mut image = data(size(100, 100), size(0, 0), 254);
    let mut common = common(rect(0, 0, 100, 100));
    let mut instance = ImageInstance::new();
    let mut vis = visibility(rect(0, 0, 100, 100));
    image.update(&mut common, &mut instance, None, &mut frame, &context(false), &mut vis);
    assert_eq!(common.opacity, PrimitiveOpacity { is_opaque: false });
}

#[test]
fn image_with_alpha_is_translucent() {
    let mut frame = frame_with(vec![(key(7), properties(100, 100, ALLOW_MIPMAPS))]);
    let mut image = data(size(100, 100), size(0, 0), 255);
    let mut common = common(rect(0, 0, 100, 100));
    let mut instance = ImageInstance::new();
    let mut vis = visibility(rect(0, 0, 100, 100));
    image.update(&mut common, &mut instance, None, &mut frame, &context(false), &mut vis);
    assert_eq!(common.opacity, PrimitiveOpacity { is_opaque: false });
}

#[test]
fn source_opacity_cases() {
    let color = ColorU { r: 1, g: 2, b: 3, a: 255 };
    let faint = ColorU { r: 1, g: 2, b: 3, a: 10 };
    assert!(source_opacity(&None, faint).is_opaque);
    assert!(source_opacity(&Some(properties(4, 4, IS_OPAQUE)), color).is_opaque);
    assert!(!source_opacity(&Some(properties(4, 4, IS_OPAQUE)), faint).is_opaque);
    assert!(!source_opacity(&Some(properties(4, 4, 0)), color).is_opaque);
    assert!(!source_opacity(&Some(properties(4, 4, ALLOW_MIPMAPS)), color).is_opaque);
}

#[test]
fn image_that_is_not_known_has_no_source() {
    let mut frame = frame_with(vec![(key(8), properties(100, 100, 0))]);
    let mut image = data(size(50, 50), size(0, 0), 3);
    let mut common = common(rect(0, 0, 100, 100));
    let mut instance = ImageInstance::new();
    instance.src_color = Some(id(0));
    instance.visible_tiles.push(VisibleImageTile {
        src_color: id(0),
        edge_flags: EdgeAaSegmentMask::all(),
        local_rect: rect(0, 0, 1, 1),
        local_clip_rect: rect(0, 0, 1, 1),
    });
    let mut vis = visibility(rect(-10, -10, 50, 200));
    image.update(&mut common, &mut instance, None, &mut frame, &context(false), &mut vis);

    assert_eq!(instance.src_color, None);
    assert!(instance.visible_tiles.is_empty());
    assert_eq!(instance.tight_local_clip_rect, rect(0, 0, 50, 100));
    assert_eq!(common.opacity, PrimitiveOpacity { is_opaque: true });
    assert!(common.may_need_repetition);
    assert_eq!(frame.rg_builder.tasks, vec![surface_task()]);
    assert!(frame.resource_cache.requests.is_empty());
    assert_eq!(vis.state, VisibilityState::Visible);
}

#[test]
fn spacing_is_drawn_as_padding_from_the_cache() {
    let mut frame = frame_with(vec![(key(7), properties(50, 50, IS_OPAQUE))]);
    let mut image = data(size(50, 50), size(10, 10), 255);
    let mut common = common(rect(0, 0, 200, 200));
    let mut instance = ImageInstance::new();
    let mut vis = visibility(rect(0, 0, 200, 200));
    image.update(&mut common, &mut instance, None, &mut frame, &context(false), &mut vis);

    let padding = DeviceIntSideOffsets { top: 0, right: 10, bottom: 10, left: 0 };
    let padded = DeviceIntSize { width: 60, height: 60 };
    let cache_key = RenderTaskCacheKey {
        size: padded,
        kind: RenderTaskCacheKeyKind::Image(ImageCacheKey {
            request: whole_request(),
            texel_rect: None,
        }),
    };
    assert_eq!(common.opacity, PrimitiveOpacity { is_opaque: false });
    assert!(common.may_need_repetition);
    assert_eq!(instance.src_color, Some(id(3)));
    assert!(instance.visible_tiles.is_empty());
    assert_eq!(
        frame.rg_builder.tasks,
        vec![
            surface_task(),
            image_task(50, 50, whole_request()),
            RenderTask {
                size: padded,
                kind: RenderTaskKind::Scaling {
                    source: id(1),
                    target_kind: RenderTargetKind::Color,
                    padding,
                },
            },
            RenderTask { size: padded, kind: RenderTaskKind::Blit { source: id(2) } },
        ]
    );
    assert_eq!(frame.rg_builder.dependencies, vec![edge(2, 1), edge(3, 2), edge(0, 3)]);
    assert_eq!(
        frame.resource_cache.cached_render_tasks.entries,
        vec![RenderTaskCacheEntry { key: cache_key, task: id(3), is_opaque: true }]
    );
}

#[test]
fn second_instance_reuses_the_cached_padding_task() {
    let mut frame = frame_with(vec![(key(7), properties(50, 50, 0))]);
    let mut image = data(size(50, 50), size(10, 10), 255);
    let mut common = common(rect(0, 0, 200, 200));
    let mut first = ImageInstance::new();
    let mut second = ImageInstance::new();
    let mut vis = visibility(rect(0, 0, 200, 200));
    image.update(&mut common, &mut first, None, &mut frame, &context(false), &mut vis);
    let blocks = frame.gpu_cache.blocks.len();
    image.update(&mut common, &mut second, None, &mut frame, &context(false), &mut vis);

    assert_eq!(first.src_color, Some(id(3)));
    assert_eq!(second.src_color, Some(id(3)));
    // The second instance asks for the image again, but nothing is built a
    // second time.
    assert_eq!(frame.rg_builder.tasks.len(), 5);
    assert_eq!(frame.rg_builder.tasks[4], image_task(50, 50, whole_request()));
    assert_eq!(frame.resource_cache.cached_render_tasks.entries.len(), 1);
    assert_eq!(
        frame.rg_builder.dependencies,
        vec![edge(2, 1), edge(3, 2), edge(0, 3), edge(0, 3)]
    );
    // The data for the shaders is written once.
    assert_eq!(blocks, 3);
    assert_eq!(frame.gpu_cache.blocks.len(), 3);
    assert_eq!(frame.gpu_cache.slots.len(), 1);
}

#[test]
fn requesting_a_key_twice_builds_once() {
    let mut frame = frame_with(vec![]);
    let source = frame.rg_builder.add_task(image_task(8, 8, whole_request()));
    let cache_key = RenderTaskCacheKey {
        size: DeviceIntSize { width: 9, height: 8 },
        kind: RenderTaskCacheKeyKind::Image(ImageCacheKey {
            request: whole_request(),
            texel_rect: None,
        }),
    };
    let padding = DeviceIntSideOffsets { top: 0, right: 1, bottom: 0, left: 0 };
    let first = request_render_task(
        &mut frame,
        cache_key,
        true,
        RenderTaskParent::Surface,
        source,
        RenderTargetKind::Alpha,
        padding,
    );
    let tasks = frame.rg_builder.tasks.clone();
    let second = request_render_task(
        &mut frame,
        cache_key,
        true,
        RenderTaskParent::Surface,
        source,
        RenderTargetKind::Alpha,
        padding,
    );
    assert_eq!(first, id(3));
    assert_eq!(second, first);
    assert_eq!(frame.rg_builder.tasks, tasks);
    assert_eq!(tasks.len(), 4);
    assert_eq!(frame.resource_cache.cached_render_tasks.entries.len(), 1);
    // Another key is built for itself.
    let other_key =
        RenderTaskCacheKey { size: DeviceIntSize { width: 10, height: 8 }, ..cache_key };
    let third = request_render_task(
        &mut frame,
        other_key,
        true,
        RenderTaskParent::RenderTask(source),
        source,
        RenderTargetKind::Alpha,
        padding,
    );
    assert_eq!(third, id(5));
    assert_eq!(frame.resource_cache.cached_render_tasks.entries.len(), 2);
    assert_eq!(
        frame.rg_builder.dependencies,
        vec![edge(2, 1), edge(3, 2), edge(0, 3), edge(0, 3), edge(4, 1), edge(5, 4), edge(1, 5)]
    );
}

#[test]
fn render_task_cache_lookup_and_commit() {
    let mut cache = RenderTaskCache::new();
    let cache_key = RenderTaskCacheKey {
        size: DeviceIntSize { width: 9, height: 8 },
        kind: RenderTaskCacheKeyKind::Image(ImageCacheKey {
            request: whole_request(),
            texel_rect: None,
        }),
    };
    let tiled = RenderTaskCacheKey {
        kind: RenderTaskCacheKeyKind::Image(ImageCacheKey {
            request: whole_request().with_tile(TileOffset { x: 1, y: 2 }),
            texel_rect: None,
        }),
        ..cache_key
    };
    assert_eq!(cache.lookup(&cache_key), CacheLookup::Miss);
    cache.commit(cache_key, id(4), false);
    assert_eq!(cache.lookup(&cache_key), CacheLookup::Hit(id(4)));
    assert_eq!(cache.lookup(&tiled), CacheLookup::Miss);
    cache.commit(tiled, id(6), false);
    assert_eq!(cache.lookup(&cache_key), CacheLookup::Hit(id(4)));
    assert_eq!(cache.lookup(&tiled), CacheLookup::Hit(id(6)));
    cache.evict(&cache_key);
    assert_eq!(cache.lookup(&cache_key), CacheLookup::Miss);
    assert_eq!(cache.lookup(&tiled), CacheLookup::Hit(id(6)));
    cache.commit(cache_key, id(9), true);
    assert_eq!(cache.lookup(&cache_key), CacheLookup::Hit(id(9)));
    cache.clear();
    assert_eq!(cache.lookup(&cache_key), CacheLookup::Miss);
    assert_eq!(cache.lookup(&tiled), CacheLookup::Miss);
}

#[test]
fn evicted_key_is_built_again_once() {
    let mut frame = frame_with(vec![(key(7), properties(50, 50, 0))]);
    let mut image = data(size(50, 50), size(10, 10), 255);
    let mut common = common(rect(0, 0, 200, 200));
    let mut instance = ImageInstance::new();
    let mut vis = visibility(rect(0, 0, 200, 200));
    image.update(&mut common, &mut instance, None, &mut frame, &context(false), &mut vis);
    assert_eq!(instance.src_color, Some(id(3)));
    let cache_key = frame.resource_cache.cached_render_tasks.entries[0].key;
    frame.resource_cache.cached_render_tasks.evict(&cache_key);
    image.update(&mut common, &mut instance, None, &mut frame, &context(false), &mut vis);
    // tasks: surface, image, scaling, blit, image, scaling, blit
    assert_eq!(instance.src_color, Some(id(6)));
    assert_eq!(frame.rg_builder.tasks.len(), 7);
    image.update(&mut common, &mut instance, None, &mut frame, &context(false), &mut vis);
    assert_eq!(instance.src_color, Some(id(6)));
    assert_eq!(frame.rg_builder.tasks.len(), 8);
}

#[test]
fn padding_is_the_spacing_in_device_pixels() {
    let device = DeviceIntSize { width: 200, height: 30 };
    assert_eq!(
        compute_padding(size(10, 10), device, size(50, 40)),
        DeviceIntSideOffsets { top: 0, right: 40, bottom: 7, left: 0 }
    );
    // A spacing too small for a device pixel gives no padding.
    assert_eq!(
        compute_padding(size(1, 1), DeviceIntSize { width: 10, height: 10 }, size(50, 50)),
        DeviceIntSideOffsets::zero()
    );
}

#[test]
fn scaled_spacing_rounds_towards_zero_and_clamps() {
    assert_eq!(scaled_spacing(10, 50, 50), 10);
    assert_eq!(scaled_spacing(10, 30, 40), 7);
    assert_eq!(scaled_spacing(-10, 30, 40), -7);
    assert_eq!(scaled_spacing(10, 30, -40), -7);
    assert_eq!(scaled_spacing(-10, 30, -40), 7);
    assert_eq!(scaled_spacing(0, 30, 40), 0);
    assert_eq!(scaled_spacing(i32::MAX, i32::MAX, 1), i32::MAX);
    assert_eq!(scaled_spacing(i32::MIN, i32::MAX, 1), i32::MIN);
    assert_eq!(scaled_spacing(5, 5, 0), i32::MAX);
    assert_eq!(scaled_spacing(-5, 5, 0), i32::MIN);
    assert_eq!(scaled_spacing(0, 5, 0), 0);
}

#[test]
fn spacing_too_small_for_padding_leaves_the_opacity() {
    let mut frame = frame_with(vec![(key(7), properties(10, 10, IS_OPAQUE))]);
    let mut image = data(size(50, 50), size(1, 1), 255);
    let mut common = common(rect(0, 0, 200, 200));
    let mut instance = ImageInstance::new();
    let mut vis = visibility(rect(0, 0, 200, 200));
    image.update(&mut common, &mut instance, None, &mut frame, &context(false), &mut vis);
    // The source still comes from the cache, under the size of the image.
    assert_eq!(common.opacity, PrimitiveOpacity { is_opaque: true });
    assert_eq!(instance.src_color, Some(id(3)));
    assert_eq!(
        frame.resource_cache.cached_render_tasks.entries[0].key.size,
        DeviceIntSize { width: 10, height: 10 }
    );
}

#[test]
fn external_texture_is_copied_where_the_platform_asks_for_it() {
    let mut external = properties(64, 32, IS_OPAQUE);
    external.descriptor.format = ImageFormat::R8;
    external.external_image = Some(ExternalImageData {
        image_type: ExternalImageType::TextureHandle(ImageBufferKind::TextureExternal),
        normalized_uvs: true,
    });
    let mut frame = frame_with(vec![(key(7), external)]);
    let mut image = data(size(100, 100), size(0, 0), 255);
    let mut common = common(rect(0, 0, 100, 100));
    let mut instance = ImageInstance::new();
    let mut vis = visibility(rect(0, 0, 100, 100));
    image.update(&mut common, &mut instance, None, &mut frame, &context(true), &mut vis);

    assert_eq!(instance.src_color, Some(id(2)));
    assert!(!instance.normalized_uvs);
    assert_eq!(
        frame.rg_builder.tasks[2],
        RenderTask {
            size: DeviceIntSize { width: 64, height: 32 },
            kind: RenderTaskKind::Scaling {
                source: id(1),
                target_kind: RenderTargetKind::Alpha,
                padding: DeviceIntSideOffsets::zero(),
            },
        }
    );
    assert_eq!(frame.rg_builder.dependencies, vec![edge(2, 1), edge(0, 2)]);
}

#[test]
fn external_image_that_needs_no_copy_passes_its_coordinates_on() {
    let mut external = properties(64, 32, IS_OPAQUE);
    external.external_image = Some(ExternalImageData {
        image_type: ExternalImageType::TextureHandle(ImageBufferKind::TextureExternal),
        normalized_uvs: true,
    });
    let mut rect_texture = external;
    rect_texture.external_image = Some(ExternalImageData {
        image_type: ExternalImageType::TextureHandle(ImageBufferKind::TextureRect),
        normalized_uvs: true,
    });
    for (properties, copy) in [(external, false), (rect_texture, true)] {
        let mut frame = frame_with(vec![(key(7), properties)]);
        let mut image = data(size(100, 100), size(0, 0), 255);
        let mut common = common(rect(0, 0, 100, 100));
        let mut instance = ImageInstance::new();
        let mut vis = visibility(rect(0, 0, 100, 100));
        image.update(&mut common, &mut instance, None, &mut frame, &context(copy), &mut vis);
        assert_eq!(instance.src_color, Some(id(1)));
        assert!(instance.normalized_uvs);
        assert_eq!(frame.rg_builder.tasks.len(), 2);
    }
}

#[test]
fn requires_copy_cases() {
    let external = |kind| {
        Some(ExternalImageData {
            image_type: ExternalImageType::TextureHandle(kind),
            normalized_uvs: false,
        })
    };
    let buffer = Some(ExternalImageData {
        image_type: ExternalImageType::Buffer,
        normalized_uvs: false,
    });
    assert!(requires_copy(&context(true), &external(ImageBufferKind::TextureExternal)));
    assert!(!requires_copy(&context(false), &external(ImageBufferKind::TextureExternal)));
    assert!(!requires_copy(&context(true), &external(ImageBufferKind::Texture2D)));
    assert!(!requires_copy(&context(true), &external(ImageBufferKind::TextureExternalBT709)));
    assert!(!requires_copy(&context(true), &buffer));
    assert!(!requires_copy(&context(true), &None));
}

#[test]
fn target_kind_follows_the_bytes_per_pixel() {
    assert_eq!(target_kind_for(ImageFormat::R8), RenderTargetKind::Alpha);
    for format in [
        ImageFormat::R16,
        ImageFormat::BGRA8,
        ImageFormat::RGBAF32,
        ImageFormat::RG8,
        ImageFormat::RG16,
        ImageFormat::RGBAI32,
        ImageFormat::RGBA8,
    ] {
        assert_eq!(target_kind_for(format), RenderTargetKind::Color);
    }
}

#[test]
fn tiled_image_is_drawn_tile_by_tile() {
    let mut tiled = properties(1000, 1000, IS_OPAQUE);
    tiled.tiling = Some(256);
    let mut frame = frame_with(vec![(key(7), tiled)]);
    let mut image = data(size(1000, 1000), size(0, 0), 255);
    let mut common = common(rect(0, 0, 1000, 1000));
    let mut instance = ImageInstance::new();
    instance.src_color = Some(id(0));
    let mut vis = visibility(rect(0, 0, 1000, 1000));
    let dirty = Some(rect(0, 0, 300, 300));
    image.update(&mut common, &mut instance, dirty, &mut frame, &context(false), &mut vis);

    let clip = rect(0, 0, 1000, 1000);
    let none = EdgeAaSegmentMask::empty();
    let expected = vec![
        VisibleImageTile {
            src_color: id(1),
            edge_flags: EdgeAaSegmentMask { left: true, top: true, right: false, bottom: false },
            local_rect: rect(0, 0, 256, 256),
            local_clip_rect: clip,
        },
        VisibleImageTile {
            src_color: id(2),
            edge_flags: EdgeAaSegmentMask { left: false, top: true, right: false, bottom: false },
            local_rect: rect(256, 0, 512, 256),
            local_clip_rect: clip,
        },
        VisibleImageTile {
            src_color: id(3),
            edge_flags: EdgeAaSegmentMask { left: true, top: false, right: false, bottom: false },
            local_rect: rect(0, 256, 256, 512),
            local_clip_rect: clip,
        },
        VisibleImageTile {
            src_color: id(4),
            edge_flags: none,
            local_rect: rect(256, 256, 512, 512),
            local_clip_rect: clip,
        },
    ];
    assert_eq!(instance.visible_tiles, expected);
    assert_eq!(instance.src_color, None);
    assert!(!common.may_need_repetition);
    assert_eq!(common.opacity, PrimitiveOpacity { is_opaque: true });
    assert_eq!(vis.state, VisibilityState::Visible);
    let offsets = [(0, 0), (1, 0), (0, 1), (1, 1)];
    for (i, (x, y)) in offsets.iter().enumerate() {
        let request = whole_request().with_tile(TileOffset { x: *x, y: *y });
        assert_eq!(frame.resource_cache.requests[i], request);
        assert_eq!(frame.rg_builder.tasks[i + 1], image_task(256, 256, request));
    }
    assert_eq!(frame.rg_builder.tasks.len(), 5);
}

#[test]
fn repeated_tiled_image_keeps_only_the_outer_edges_without_spacing() {
    let mut tiled = properties(100, 100, 0);
    tiled.tiling = Some(64);
    let mut frame = frame_with(vec![(key(7), tiled)]);
    // Two repetitions side by side, each of two by two tiles.
    let mut image = data(size(100, 100), size(0, 0), 255);
    let mut common = common(rect(0, 0, 200, 100));
    let mut instance = ImageInstance::new();
    let mut vis = visibility(rect(0, 0, 200, 100));
    let dirty = Some(rect(0, 0, 200, 100));
    image.update(&mut common, &mut instance, dirty, &mut frame, &context(false), &mut vis);

    let rects: Vec<LayoutRect> = instance.visible_tiles.iter().map(|t| t.local_rect).collect();
    assert_eq!(
        rects,
        vec![
            rect(0, 0, 64, 64),
            rect(64, 0, 100, 64),
            rect(0, 64, 64, 100),
            rect(64, 64, 100, 100),
            rect(100, 0, 164, 64),
            rect(164, 0, 200, 64),
            rect(100, 64, 164, 100),
            rect(164, 64, 200, 100),
        ]
    );
    let flags: Vec<u8> = instance.visible_tiles.iter().map(|t| t.edge_flags.bits()).collect();
    // left 1, top 2, right 4, bottom 8
    assert_eq!(flags, vec![1 | 2, 2, 1 | 8, 8, 2, 2 | 4, 8, 4 | 8]);
    let sizes: Vec<(i32, i32)> =
        frame.rg_builder.tasks[1..].iter().map(|t| (t.size.width, t.size.height)).collect();
    assert_eq!(
        sizes,
        vec![(64, 64), (36, 64), (64, 36), (36, 36), (64, 64), (36, 64), (64, 36), (36, 36)]
    );
}

#[test]
fn spacing_lays_the_edges_between_repetitions_open() {
    let mut tiled = properties(100, 100, 0);
    tiled.tiling = Some(128);
    let mut frame = frame_with(vec![(key(7), tiled)]);
    let mut image = data(size(100, 100), size(20, 0), 255);
    let mut common = common(rect(0, 0, 220, 200));
    let mut instance = ImageInstance::new();
    let mut vis = visibility(rect(0, 0, 220, 200));
    let dirty = Some(rect(0, 0, 220, 200));
    image.update(&mut common, &mut instance, dirty, &mut frame, &context(false), &mut vis);

    let rects: Vec<LayoutRect> = instance.visible_tiles.iter().map(|t| t.local_rect).collect();
    assert_eq!(
        rects,
        vec![
            rect(0, 0, 100, 100),
            rect(120, 0, 220, 100),
            rect(0, 100, 100, 200),
            rect(120, 100, 220, 200),
        ]
    );
    let flags: Vec<u8> = instance.visible_tiles.iter().map(|t| t.edge_flags.bits()).collect();
    assert_eq!(flags, vec![1 | 2 | 4, 1 | 2 | 4, 1 | 4 | 8, 1 | 4 | 8]);
}

#[test]
fn tiled_image_out_of_sight_is_culled() {
    let mut tiled = properties(1000, 1000, 0);
    tiled.tiling = Some(256);
    let mut frame = frame_with(vec![(key(7), tiled)]);
    let mut image = data(size(1000, 1000), size(0, 0), 255);
    let mut common = common(rect(0, 0, 1000, 1000));
    let mut instance = ImageInstance::new();
    let mut vis = visibility(rect(0, 0, 1000, 1000));
    image.update(&mut common, &mut instance, None, &mut frame, &context(false), &mut vis);
    assert!(instance.visible_tiles.is_empty());
    assert_eq!(instance.src_color, None);
    assert_eq!(vis.state, VisibilityState::Culled);
    assert_eq!(frame.rg_builder.tasks.len(), 1);
}

#[test]
fn surface_reads_the_task_that_the_image_depends_on() {
    let mut frame = frame_with(vec![(key(7), properties(100, 100, 0))]);
    let producer = frame.rg_builder.add_task(surface_task());
    frame.image_dependencies.push(ImageDependency { key: key(9), task: id(0) });
    frame.image_dependencies.push(ImageDependency { key: key(7), task: producer });
    assert_eq!(frame.image_dependency(key(7)), Some(producer));
    assert_eq!(frame.image_dependency(key(3)), None);
    let mut image = data(size(100, 100), size(0, 0), 255);
    let mut common = common(rect(0, 0, 100, 100));
    let mut instance = ImageInstance::new();
    let mut vis = visibility(rect(0, 0, 100, 100));
    image.update(&mut common, &mut instance, None, &mut frame, &context(false), &mut vis);
    assert_eq!(instance.src_color, Some(id(2)));
    assert_eq!(frame.rg_builder.dependencies, vec![edge(0, 1)]);
}

#[test]
fn adjustment_of_the_image_is_taken_over_and_scales_the_stretch_size() {
    let mut adjusted = properties(100, 100, 0);
    adjusted.adjustment =
        AdjustedImageSource::from_rects(&rect(0, 0, 100, 100), &rect(-10, 0, 140, 50));
    let mut frame = frame_with(vec![(key(7), adjusted)]);
    let mut image = data(size(60, 60), size(0, 0), 255);
    let mut common = common(rect(0, 0, 60, 60));
    let mut instance = ImageInstance::new();
    let mut vis = visibility(rect(0, 0, 60, 60));
    image.update(&mut common, &mut instance, None, &mut frame, &context(false), &mut vis);
    assert_eq!(instance.adjustment.map_local_rect(&rect(0, 0, 100, 100)), rect(-10, 0, 140, 50));
    assert_eq!(common.gpu_cache_handle, GpuCacheHandle { location: Some(0) });
    assert_eq!(
        frame.gpu_cache.blocks,
        vec![
            GpuBlock { x: 200 * 255, y: 100 * 255, z: 50 * 255, w: 255 * 255 },
            GpuBlock { x: 65025, y: 65025, z: 65025, w: 65025 },
            GpuBlock { x: 90, y: 30, z: 0, w: 0 },
        ]
    );
    assert_eq!(frame.gpu_cache.slots, vec![GpuSlot { start: 0, len: 3, resident: true }]);
}

#[test]
fn gpu_blocks_hold_the_tint_and_the_stride() {
    let image = data(size(50, 40), size(10, 5), 128);
    let mut request = GpuDataRequest { slot: 0, blocks: Vec::new() };
    image.write_prim_gpu_blocks(&AdjustedImageSource::new(), &mut request);
    assert_eq!(
        request.blocks,
        vec![
            GpuBlock { x: 200 * 128, y: 100 * 128, z: 50 * 128, w: 128 * 255 },
            GpuBlock { x: 65025, y: 65025, z: 65025, w: 65025 },
            GpuBlock { x: 60, y: 45, z: 0, w: 0 },
        ]
    );
}

#[test]
fn gpu_data_is_written_again_after_eviction() {
    let mut frame = frame_with(vec![(key(7), properties(100, 100, 0))]);
    let mut image = data(size(100, 100), size(0, 0), 255);
    let mut common = common(rect(0, 0, 100, 100));
    let mut instance = ImageInstance::new();
    let mut vis = visibility(rect(0, 0, 100, 100));
    image.update(&mut common, &mut instance, None, &mut frame, &context(false), &mut vis);
    assert_eq!(frame.gpu_cache.blocks.len(), 3);
    image.update(&mut common, &mut instance, None, &mut frame, &context(false), &mut vis);
    assert_eq!(frame.gpu_cache.blocks.len(), 3);
    frame.gpu_cache.evict(&common.gpu_cache_handle);
    image.update(&mut common, &mut instance, None, &mut frame, &context(false), &mut vis);
    assert_eq!(frame.gpu_cache.blocks.len(), 6);
    assert_eq!(common.gpu_cache_handle, GpuCacheHandle { location: Some(1) });
    assert_eq!(
        frame.gpu_cache.slots,
        vec![
            GpuSlot { start: 0, len: 3, resident: false },
            GpuSlot { start: 3, len: 3, resident: true },
        ]
    );
}

#[test]
fn edge_flags_for_spacing() {
    assert_eq!(edge_flags_for_tile_spacing(&size(0, 0)), EdgeAaSegmentMask::empty());
    assert_eq!(
        edge_flags_for_tile_spacing(&size(1, 0)),
        EdgeAaSegmentMask { left: true, top: false, right: true, bottom: false }
    );
    assert_eq!(
        edge_flags_for_tile_spacing(&size(0, 3)),
        EdgeAaSegmentMask { left: false, top: true, right: false, bottom: true }
    );
    assert_eq!(edge_flags_for_tile_spacing(&size(2, 3)), EdgeAaSegmentMask::all());
    assert_eq!(edge_flags_for_tile_spacing(&size(-2, -3)), EdgeAaSegmentMask::empty());
}

#[test]
fn keys_templates_and_instances() {
    let image = Image {
        key: key(7),
        stretch_size: SizeKey { w: 50, h: 40 },
        tile_spacing: SizeKey { w: 1, h: 2 },
        color: ColorU::new(9, 8, 7, 6),
        image_rendering: ImageRendering::Pixelated,
        alpha_type: AlphaType::Alpha,
    };
    let info = LayoutPrimitiveInfo { rect: rect(1, 2, 3, 4), flags: PrimitiveFlags { bits: 5 } };
    let prim_key = ImageKey::new(&info, image);
    assert_eq!(prim_key.kind, image);
    assert_eq!(
        prim_key.common,
        PrimKeyCommonData { flags: PrimitiveFlags { bits: 5 }, prim_rect: rect(1, 2, 3, 4) }
    );
    assert_eq!(image.into_key(&info), prim_key);

    let data = ImageData::from(image);
    assert_eq!(
        data,
        ImageData {
            key: key(7),
            stretch_size: size(50, 40),
            tile_spacing: size(1, 2),
            color: ColorU { r: 9, g: 8, b: 7, a: 6 },
            image_rendering: ImageRendering::Pixelated,
            alpha_type: AlphaType::Alpha,
        }
    );
    let template = ImageTemplate::from(prim_key.clone());
    assert_eq!(template.kind, data);
    assert_eq!(template.common.prim_rect, rect(1, 2, 3, 4));
    assert_eq!(template.common.flags, PrimitiveFlags { bits: 5 });
    assert!(template.common.may_need_repetition);
    assert_eq!(template.common.opacity, PrimitiveOpacity { is_opaque: false });
    assert_eq!(template.common.gpu_cache_handle, GpuCacheHandle::new());
    assert_eq!(template.common.edge_aa_mask, EdgeAaSegmentMask::all());

    let mut store = PrimitiveStore::new();
    store.images.push(ImageInstance::new());
    let kind = Image::make_instance_kind(prim_key, ImageDataHandle { uid: 3 }, &mut store);
    assert_eq!(
        kind,
        PrimitiveInstanceKind::Image {
            data_handle: ImageDataHandle { uid: 3 },
            image_instance_index: ImageInstanceIndex { index: 1 },
            compositor_surface_kind: CompositorSurfaceKind::Blit,
        }
    );
    assert_eq!(store.images.len(), 2);
    let fresh = &store.images[1];
    assert_eq!(fresh.segment_instance_index, SegmentInstanceIndex::invalid());
    assert_eq!(fresh.tight_local_clip_rect, LayoutRect::zero());
    assert!(fresh.visible_tiles.is_empty());
    assert_eq!(fresh.src_color, None);
    assert!(!fresh.normalized_uvs);

    let shadow = Shadow {
        offset: LayoutPoint { x: 1, y: 1 },
        color: ColorU { r: 0, g: 0, b: 0, a: 90 },
        blur_radius: 4,
    };
    let shadowed = image.create_shadow(&shadow, false, RasterSpace::Screen);
    assert_eq!(shadowed, Image { color: shadow.color, ..image });
    assert!(image.is_visible());
}

#[test]
fn update_is_defined_cases() {
    let image = data(size(50, 50), size(10, 10), 255);
    let common = common(rect(0, 0, 200, 200));
    let vis = visibility(rect(0, 0, 200, 200));
    let frame = frame_with(vec![(key(7), properties(50, 50, 0))]);
    assert!(image.update_is_defined(&common, None, &frame, &vis));
    // The clips leave nothing of the box.
    let clipped = visibility(rect(200, 0, 300, 200));
    assert!(!image.update_is_defined(&common, None, &frame, &clipped));
    // The padded size does not fit.
    let huge = frame_with(vec![(key(7), properties(i32::MAX, 50, 0))]);
    assert!(!image.update_is_defined(&common, None, &huge, &vis));
    let unspaced = data(size(50, 50), size(0, 0), 255);
    assert!(unspaced.update_is_defined(&common, None, &huge, &vis));
    // An image that is not known asks for nothing.
    let empty = frame_with(vec![]);
    assert!(image.update_is_defined(&common, None, &empty, &vis));
    // A tiled image that can be seen needs a positive stride.
    let mut tiled = properties(50, 50, 0);
    tiled.tiling = Some(16);
    let tiled_frame = frame_with(vec![(key(7), tiled)]);
    let flat = data(size(50, 0), size(10, 0), 255);
    assert!(image.update_is_defined(&common, Some(rect(0, 0, 10, 10)), &tiled_frame, &vis));
    assert!(!flat.update_is_defined(&common, Some(rect(0, 0, 10, 10)), &tiled_frame, &vis));
    assert!(flat.update_is_defined(&common, None, &tiled_frame, &vis));
    assert!(flat.update_is_defined(&common, Some(rect(500, 0, 510, 10)), &tiled_frame, &vis));
}

#[test]
fn frame_well_formedness_is_tested() {
    let mut frame = frame_with(vec![(key(7), properties(50, 50, 0))]);
    assert!(frame.is_well_formed());
    frame.image_dependencies.push(ImageDependency { key: key(7), task: id(1) });
    assert!(!frame.is_well_formed());
    frame.rg_builder.add_task(surface_task());
    assert!(frame.is_well_formed());
    frame.rg_builder.dependencies.push(edge(1, 2));
    assert!(!frame.rg_builder.is_well_formed());
    assert!(!frame.is_well_formed());
    frame.rg_builder.dependencies.clear();
    assert!(frame.is_well_formed());
    frame.surface_builder.surface_task = id(2);
    assert!(!frame.is_well_formed());
    frame.surface_builder.surface_task = id(0);
    frame.gpu_cache.slots.push(GpuSlot { start: 0, len: 1, resident: true });
    assert!(!frame.gpu_cache.is_well_formed());
    assert!(!frame.is_well_formed());
    frame.gpu_cache.blocks.push(GpuBlock { x: 0, y: 0, z: 0, w: 0 });
    assert!(frame.is_well_formed());
    frame.gpu_cache.slots.push(GpuSlot { start: usize::MAX, len: 2, resident: true });
    assert!(!frame.is_well_formed());
    frame.gpu_cache.slots.pop();
    let mut zero_tiles = properties(50, 50, 0);
    zero_tiles.tiling = Some(0);
    // Nothing tests the tile size on the way in here.
    frame.resource_cache.images.push(image_prim::resource_cache::ImageResource {
        key: key(9),
        properties: zero_tiles,
    });
    assert!(!frame.resource_cache.is_well_formed());
    assert!(!frame.is_well_formed());
    frame.resource_cache.images.pop();
    assert!(frame.is_well_formed());
    let cache_key = RenderTaskCacheKey {
        size: DeviceIntSize { width: 9, height: 8 },
        kind: RenderTaskCacheKeyKind::Image(ImageCacheKey {
            request: whole_request(),
            texel_rect: None,
        }),
    };
    frame.resource_cache.cached_render_tasks.commit(cache_key, id(5), false);
    assert!(!frame.resource_cache.cached_render_tasks.is_well_formed(&frame.rg_builder));
    assert!(!frame.is_well_formed());
}
