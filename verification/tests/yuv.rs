use image_prim::adjust::AdjustedImageSource;
use image_prim::api::{
    ApiImageKey, ColorDepth, ColorRange, ImageDescriptor, ImageFormat, ImageRendering,
    YuvColorSpace, YuvFormat,
};
use image_prim::gpu_cache::{GpuBlock, GpuCache, GpuDataRequest};
use image_prim::frame::FrameBuildingState;
use image_prim::prim::{
    CompositorSurfaceKind, LayoutPrimitiveInfo, PrimKeyCommonData, PrimTemplateCommonData,
    PrimitiveFlags, PrimitiveInstanceKind, PrimitiveOpacity, PrimitiveStore, SegmentInstanceIndex,
    YuvImageDataHandle,
};
use image_prim::render_graph::{ImageRequest, RenderTask, RenderTaskId, RenderTaskKind};
use image_prim::resource_cache::{ImageProperties, ResourceCache};
use image_prim::units::{DeviceIntPoint, DeviceIntRect, DeviceIntSize, LayoutPoint, LayoutRect};
use image_prim::yuv::{YuvImage, YuvImageData, YuvImageKey, YuvImageTemplate};

fn key(id: u32) -> ApiImageKey {
    ApiImageKey { namespace: 2, id }
}

fn plane(width: i32, height: i32) -> ImageProperties {
    ImageProperties {
        descriptor: ImageDescriptor {
            format: ImageFormat::R8,
            size: DeviceIntSize { width, height },
            flags: 0,
        },
        external_image: None,
        tiling: None,
        visible_rect: DeviceIntRect {
            min: DeviceIntPoint { x: 0, y: 0 },
            max: DeviceIntPoint { x: width, y: height },
        },
        adjustment: AdjustedImageSource::new(),
    }
}

fn image(format: YuvFormat) -> YuvImage {
    YuvImage {
        color_depth: ColorDepth::Color10,
        yuv_key: [key(1), key(2), key(3)],
        format,
        color_space: YuvColorSpace::Rec709,
        color_range: ColorRange::Full,
        image_rendering: ImageRendering::CrispEdges,
    }
}

fn frame() -> FrameBuildingState {
    let mut resource_cache = ResourceCache::new();
    resource_cache.add_image(key(1), plane(640, 480));
    resource_cache.add_image(key(2), plane(320, 240));
    FrameBuildingState::new(resource_cache, GpuCache::new())
}

fn common() -> PrimTemplateCommonData {
    PrimTemplateCommonData::with_key_common(PrimKeyCommonData {
        flags: PrimitiveFlags { bits: 0 },
        prim_rect: LayoutRect {
            min: LayoutPoint { x: 0, y: 0 },
            max: LayoutPoint { x: 640, y: 480 },
        },
    })
}

fn request(id: u32) -> ImageRequest {
    ImageRequest { key: key(id), rendering: ImageRendering::CrispEdges, tile: None }
}

fn task(width: i32, height: i32, id: u32) -> RenderTask {
    RenderTask {
        size: DeviceIntSize { width, height },
        kind: RenderTaskKind::Image { request: request(id) },
    }
}

#[test]
fn yuv_image_is_opaque_and_has_a_task_for_each_plane() {
    let mut frame = frame();
    let mut data = YuvImageData::from(image(YuvFormat::PlanarYCbCr));
    let mut common = common();
    assert_eq!(common.opacity, PrimitiveOpacity { is_opaque: false });
    data.update(&mut common, &mut frame);

    assert_eq!(common.opacity, PrimitiveOpacity { is_opaque: true });
    assert_eq!(
        data.src_yuv,
        [
            Some(RenderTaskId { index: 1 }),
            Some(RenderTaskId { index: 2 }),
            Some(RenderTaskId { index: 3 }),
        ]
    );
    assert_eq!(frame.resource_cache.requests, vec![request(1), request(2), request(3)]);
    // The third plane is not known: its task has no size.
    assert_eq!(frame.rg_builder.tasks[1..], [task(640, 480, 1), task(320, 240, 2), task(0, 0, 3)]);
    assert!(common.may_need_repetition);
}

#[test]
fn planes_that_the_format_does_not_have_get_no_source() {
    for (format, planes) in [
        (YuvFormat::NV12, 2),
        (YuvFormat::P010, 2),
        (YuvFormat::NV16, 2),
        (YuvFormat::PlanarYCbCr, 3),
        (YuvFormat::InterleavedYCbCr, 1),
    ] {
        let mut frame = frame();
        let mut data = YuvImageData::from(image(format));
        data.src_yuv = [Some(RenderTaskId { index: 0 }); 3];
        let mut common = common();
        data.update(&mut common, &mut frame);
        for channel in 0..3 {
            let expected =
                if channel < planes { Some(RenderTaskId { index: channel + 1 }) } else { None };
            assert_eq!(data.src_yuv[channel], expected);
        }
        assert_eq!(frame.rg_builder.tasks.len(), planes + 1);
        assert_eq!(frame.resource_cache.requests.len(), planes);
        assert!(common.opacity.is_opaque);
    }
}

#[test]
fn yuv_gpu_block_holds_depth_colour_space_and_format() {
    let mut frame = frame();
    let mut data = YuvImageData::from(image(YuvFormat::PlanarYCbCr));
    let mut common = common();
    data.update(&mut common, &mut frame);
    assert_eq!(frame.gpu_cache.blocks, vec![GpuBlock { x: 10, y: 3, z: 3, w: 0 }]);
    data.update(&mut common, &mut frame);
    assert_eq!(frame.gpu_cache.blocks.len(), 1);
    assert_eq!(frame.gpu_cache.slots.len(), 1);
}

#[test]
fn yuv_gpu_block_numbers() {
    let block = |depth, space, range, format| {
        let data = YuvImageData::from(YuvImage {
            color_depth: depth,
            color_space: space,
            color_range: range,
            ..image(format)
        });
        let mut request = GpuDataRequest { slot: 0, blocks: Vec::new() };
        data.write_prim_gpu_blocks(&mut request);
        assert_eq!(request.blocks.len(), 1);
        assert_eq!(request.blocks[0].w, 0);
        (request.blocks[0].x, request.blocks[0].y, request.blocks[0].z)
    };
    let (limited, full) = (ColorRange::Limited, ColorRange::Full);
    let c8 = ColorDepth::Color8;
    assert_eq!(block(c8, YuvColorSpace::Rec601, limited, YuvFormat::NV12), (8, 0, 0));
    assert_eq!(
        block(ColorDepth::Color10, YuvColorSpace::Rec601, full, YuvFormat::P010),
        (10, 1, 1)
    );
    assert_eq!(
        block(ColorDepth::Color12, YuvColorSpace::Rec709, limited, YuvFormat::NV16),
        (12, 2, 2)
    );
    assert_eq!(
        block(ColorDepth::Color16, YuvColorSpace::Rec709, full, YuvFormat::PlanarYCbCr),
        (16, 3, 3)
    );
    assert_eq!(
        block(c8, YuvColorSpace::Rec2020, limited, YuvFormat::InterleavedYCbCr),
        (8, 4, 4)
    );
    assert_eq!(block(c8, YuvColorSpace::Rec2020, full, YuvFormat::NV12), (8, 5, 0));
    assert_eq!(block(c8, YuvColorSpace::Identity, limited, YuvFormat::NV12), (8, 6, 0));
    assert_eq!(block(c8, YuvColorSpace::Identity, full, YuvFormat::NV12), (8, 6, 0));
}

#[test]
fn request_resources_marks_the_planes() {
    let mut resource_cache = ResourceCache::new();
    let mut data = YuvImageData::from(image(YuvFormat::NV12));
    let mut gpu_cache = GpuCache::new();
    data.request_resources(&mut resource_cache, &mut gpu_cache);
    assert_eq!(resource_cache.requests, vec![request(1), request(2)]);
    let mut single = YuvImageData::from(image(YuvFormat::InterleavedYCbCr));
    single.request_resources(&mut resource_cache, &mut gpu_cache);
    assert!(gpu_cache.blocks.is_empty() && gpu_cache.slots.is_empty());
    assert_eq!(resource_cache.requests, vec![request(1), request(2), request(1)]);
}

#[test]
fn yuv_keys_templates_and_instances() {
    let yuv = image(YuvFormat::NV12);
    let info = LayoutPrimitiveInfo {
        rect: LayoutRect { min: LayoutPoint { x: 1, y: 2 }, max: LayoutPoint { x: 3, y: 4 } },
        flags: PrimitiveFlags { bits: 9 },
    };
    let prim_key = YuvImageKey::new(&info, yuv.clone());
    assert_eq!(prim_key.kind, yuv);
    assert_eq!(prim_key.common.prim_rect, info.rect);
    assert_eq!(prim_key.common.flags, info.flags);
    assert_eq!(yuv.clone().into_key(&info), prim_key);

    let template = YuvImageTemplate::from(prim_key.clone());
    assert_eq!(template.kind.src_yuv, [None, None, None]);
    assert_eq!(template.kind.yuv_key, yuv.yuv_key);
    assert_eq!(template.kind.color_depth, ColorDepth::Color10);
    assert_eq!(template.kind.format, YuvFormat::NV12);
    assert_eq!(template.kind.color_space, YuvColorSpace::Rec709);
    assert_eq!(template.kind.color_range, ColorRange::Full);
    assert_eq!(template.kind.image_rendering, ImageRendering::CrispEdges);
    assert_eq!(template.common.prim_rect, info.rect);

    let mut store = PrimitiveStore::new();
    let kind = YuvImage::make_instance_kind(prim_key, YuvImageDataHandle { uid: 8 }, &mut store);
    assert_eq!(
        kind,
        PrimitiveInstanceKind::YuvImage {
            data_handle: YuvImageDataHandle { uid: 8 },
            segment_instance_index: SegmentInstanceIndex::invalid(),
            compositor_surface_kind: CompositorSurfaceKind::Blit,
        }
    );
    assert!(store.images.is_empty());
    assert!(yuv.is_visible());
}
