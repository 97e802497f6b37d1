//! YUV image primitives: images of up to three planes, as video frames
//! are.

use vstd::prelude::*;
use crate::api::{
    spec_bit_depth, spec_format_code, spec_plane_num, spec_ranged_color_space_code, ApiImageKey,
    ColorDepth, ColorRange, ImageRendering, YuvColorSpace, YuvFormat,
};
use crate::gpu_cache::{GpuBlock, GpuCache, GpuCacheHandle, GpuDataRequest, GpuSlot};
use crate::frame::{FrameBuildingState, FrameModel};
use crate::prim::{
    CompositorSurfaceKind, LayoutPrimitiveInfo, PrimKey, PrimKeyCommonData,
    PrimTemplate, PrimTemplateCommonData, PrimitiveInstanceKind, PrimitiveOpacity, PrimitiveStore,
    SegmentInstanceIndex, YuvImageDataHandle,
};
use crate::render_graph::{ImageRequest, RenderTask, RenderTaskId};
use crate::resource_cache::{requested_size, ImageResource, ResourceCache};

verus! {

/// A YUV image primitive as it is interned.
#[derive(Clone, Debug, PartialEq, Eq, Hash)]
pub struct YuvImage {
    pub color_depth: ColorDepth,
    pub yuv_key: [ApiImageKey; 3],
    pub format: YuvFormat,
    pub color_space: YuvColorSpace,
    pub color_range: ColorRange,
    pub image_rendering: ImageRendering,
}

/// The key of a YUV image primitive.
pub type YuvImageKey = PrimKey<YuvImage>;

/// The template of a YUV image primitive.
pub struct YuvImageData {
    pub color_depth: ColorDepth,
    pub yuv_key: [ApiImageKey; 3],
    /// The render task that supplies each plane in this frame.
    pub src_yuv: [Option<RenderTaskId>; 3],
    pub format: YuvFormat,
    pub color_space: YuvColorSpace,
    pub color_range: ColorRange,
    pub image_rendering: ImageRendering,
}

/// The template of a YUV image primitive with what is common to templates.
pub type YuvImageTemplate = PrimTemplate<YuvImageData>;

/// The request for a whole plane.
pub open spec fn spec_plane_request(key: ApiImageKey, rendering: ImageRendering) -> ImageRequest {
    ImageRequest { key, rendering, tile: None }
}

/// The frame after the first `count` planes were asked for: one request
/// and one image task for each, in order.
pub open spec fn spec_request_planes(
    model: FrameModel,
    images: Seq<ImageResource>,
    keys: Seq<ApiImageKey>,
    rendering: ImageRendering,
    count: int,
) -> FrameModel
    decreases count,
{
    if count <= 0 {
        model
    } else {
        let before = spec_request_planes(model, images, keys, rendering, count - 1);
        let request = spec_plane_request(keys[count - 1], rendering);
        before.add_request(request).add_task(
            RenderTask::spec_new_image(requested_size(images, request), request),
        )
    }
}

/// The requests after the first `count` planes were marked as needed.
pub open spec fn spec_mark_planes(
    requests: Seq<ImageRequest>,
    keys: Seq<ApiImageKey>,
    rendering: ImageRendering,
    count: int,
) -> Seq<ImageRequest>
    decreases count,
{
    if count <= 0 {
        requests
    } else {
        spec_mark_planes(requests, keys, rendering, count - 1).push(
            spec_plane_request(keys[count - 1], rendering),
        )
    }
}

/// The sources of the planes where the first plane has the task `first`
/// and each further plane the next task: a task for each plane that the
/// format has, none for the others.
pub open spec fn spec_plane_sources(first: RenderTaskId, count: int) -> Seq<Option<RenderTaskId>> {
    Seq::new(
        3,
        |c: int|
            if c < count {
                Some(RenderTaskId { index: (first.index + c) as usize })
            } else {
                None
            },
    )
}

impl YuvImageKey {
    /// The key of the YUV image primitive `yuv_image` that lies where
    /// `info` says.
    pub fn new(info: &LayoutPrimitiveInfo, yuv_image: YuvImage) -> (key: Self)
        ensures
            key.common == PrimKeyCommonData::spec_from_info(*info),
            key.kind == yuv_image,
    {
        PrimKey { common: PrimKeyCommonData::from_info(*info), kind: yuv_image }
    }
}

impl YuvImageData {
    /// The template data of the interned primitive `image`: no plane has a
    /// source yet.
    pub open spec fn spec_from_image(image: YuvImage) -> YuvImageData {
        YuvImageData {
            color_depth: image.color_depth,
            yuv_key: image.yuv_key,
            src_yuv: [None, None, None],
            format: image.format,
            color_space: image.color_space,
            color_range: image.color_range,
            image_rendering: image.image_rendering,
        }
    }

    /// What the shaders are given for the primitive: the bits per channel,
    /// the number of the ranged colour space and the number of the format.
    pub open spec fn spec_prim_gpu_blocks(&self) -> Seq<GpuBlock> {
        seq![
            GpuBlock {
                x: spec_bit_depth(self.color_depth) as i32,
                y: spec_ranged_color_space_code(self.color_space, self.color_range) as i32,
                z: spec_format_code(self.format) as i32,
                w: 0,
            },
        ]
    }

    /// Works out what the primitive draws in this frame: each plane that
    /// the format has is asked for and gets an image task, the other planes
    /// have no source, the data for the shaders is written where the GPU
    /// cache holds none that is current, and the primitive is opaque,
    /// whatever its planes hold.
    pub fn update(
        &mut self,
        common: &mut PrimTemplateCommonData,
        frame_state: &mut FrameBuildingState,
    )
        requires
            old(frame_state).well_formed(),
        ensures
            final(frame_state).well_formed(),
            final(frame_state).same_inputs(old(frame_state)),
            final(frame_state).model() == spec_request_planes(
                old(frame_state).model(),
                old(frame_state).resource_cache.images@,
                old(self).yuv_key@,
                old(self).image_rendering,
                spec_plane_num(old(self).format),
            ),
            final(self).src_yuv@ == spec_plane_sources(
                old(frame_state).model().next_task(),
                spec_plane_num(old(self).format),
            ),
            final(self).color_depth == old(self).color_depth,
            final(self).yuv_key == old(self).yuv_key,
            final(self).format == old(self).format,
            final(self).color_space == old(self).color_space,
            final(self).color_range == old(self).color_range,
            final(self).image_rendering == old(self).image_rendering,
            final(common).opacity == PrimitiveOpacity::spec_opaque(),
            final(common).may_need_repetition == old(common).may_need_repetition,
            final(common).flags == old(common).flags,
            final(common).prim_rect == old(common).prim_rect,
            final(common).edge_aa_mask == old(common).edge_aa_mask,
            forall|c: int|
                0 <= c < 3 ==> ((#[trigger] final(self).src_yuv@[c]) matches Some(task)
                    ==> final(frame_state).rg_builder.has_task(task)),
            final(frame_state).gpu_cache.is_current(final(common).gpu_cache_handle),
            old(frame_state).gpu_cache.is_current(old(common).gpu_cache_handle) ==> {
                &&& final(common).gpu_cache_handle == old(common).gpu_cache_handle
                &&& final(frame_state).gpu_cache.blocks@ == old(frame_state).gpu_cache.blocks@
                &&& final(frame_state).gpu_cache.slots@ == old(frame_state).gpu_cache.slots@
            },
            !old(frame_state).gpu_cache.is_current(old(common).gpu_cache_handle) ==> {
                &&& final(common).gpu_cache_handle.location == Some(
                    old(frame_state).gpu_cache.slots.len(),
                )
                &&& final(frame_state).gpu_cache.blocks@ == old(frame_state).gpu_cache.blocks@
                    + old(self).spec_prim_gpu_blocks()
                &&& final(frame_state).gpu_cache.slots@ == old(frame_state).gpu_cache.slots@.push(
                    GpuSlot {
                        start: old(frame_state).gpu_cache.blocks.len(),
                        len: 1,
                        resident: true,
                    },
                )
                &&& final(frame_state).gpu_cache.slot_blocks(final(common).gpu_cache_handle)
                    == old(self).spec_prim_gpu_blocks()
            },
    {
        self.src_yuv = [None, None, None];
        let channel_num = self.format.get_plane_num();
        let ghost start = frame_state.model();
        let ghost images = frame_state.resource_cache.images@;
        let ghost first = start.next_task();
        let mut channel: usize = 0;
        while channel < channel_num
            invariant
                channel <= channel_num <= 3,
                frame_state.well_formed(),
                frame_state.same_inputs(old(frame_state)),
                frame_state.gpu_cache == old(frame_state).gpu_cache,
                images == old(frame_state).resource_cache.images@,
                start == old(frame_state).model(),
                first == start.next_task(),
                self.color_depth == old(self).color_depth,
                self.yuv_key == old(self).yuv_key,
                self.format == old(self).format,
                self.color_space == old(self).color_space,
                self.color_range == old(self).color_range,
                self.image_rendering == old(self).image_rendering,
                frame_state.model() == spec_request_planes(
                    start,
                    images,
                    self.yuv_key@,
                    self.image_rendering,
                    channel as int,
                ),
                frame_state.rg_builder.tasks@.len() == start.tasks.len() + channel,
                self.src_yuv@ == spec_plane_sources(first, channel as int),
            decreases channel_num - channel,
        {
            let request = ImageRequest {
                key: self.yuv_key[channel],
                rendering: self.image_rendering,
                tile: None,
            };
            let size = frame_state.resource_cache.request_image(
                request,
                &mut frame_state.gpu_cache,
            );
            let task_id = frame_state.rg_builder.add_task(RenderTask::new_image(size, request));
            self.src_yuv[channel] = Some(task_id);
            proof {
                assert(self.src_yuv@ =~= spec_plane_sources(first, channel as int + 1));
            }
            channel = channel + 1;
        }
        write_gpu_blocks_once(self, &mut common.gpu_cache_handle, &mut frame_state.gpu_cache);
        // YUV images never have transparency.
        common.opacity = PrimitiveOpacity::opaque();
    }

    /// Marks each plane that the format has as needed in this frame.
    pub fn request_resources(
        &mut self,
        resource_cache: &mut ResourceCache,
        gpu_cache: &mut GpuCache,
    )
        requires
            old(resource_cache).well_formed(),
        ensures
            *final(self) == *old(self),
            *final(gpu_cache) == *old(gpu_cache),
            final(resource_cache).well_formed(),
            final(resource_cache).images@ == old(resource_cache).images@,
            final(resource_cache).cached_render_tasks == old(resource_cache).cached_render_tasks,
            final(resource_cache).requests@ == spec_mark_planes(
                old(resource_cache).requests@,
                old(self).yuv_key@,
                old(self).image_rendering,
                spec_plane_num(old(self).format),
            ),
    {
        let channel_num = self.format.get_plane_num();
        let mut channel: usize = 0;
        while channel < channel_num
            invariant
                channel <= channel_num <= 3,
                *self == *old(self),
                *gpu_cache == *old(gpu_cache),
                resource_cache.well_formed(),
                resource_cache.images@ == old(resource_cache).images@,
                resource_cache.cached_render_tasks == old(resource_cache).cached_render_tasks,
                resource_cache.requests@ == spec_mark_planes(
                    old(resource_cache).requests@,
                    self.yuv_key@,
                    self.image_rendering,
                    channel as int,
                ),
            decreases channel_num - channel,
        {
            resource_cache.request_image(
                ImageRequest {
                    key: self.yuv_key[channel],
                    rendering: self.image_rendering,
                    tile: None,
                },
                gpu_cache,
            );
            channel = channel + 1;
        }
    }

    /// Adds to `request` what the shaders are given for the primitive.
    pub fn write_prim_gpu_blocks(&self, request: &mut GpuDataRequest)
        ensures
            final(request).slot == old(request).slot,
            final(request).blocks@ == old(request).blocks@ + self.spec_prim_gpu_blocks(),
    {
        let ranged_color_space = self.color_space.with_range(self.color_range);
        request.push(
            GpuBlock {
                x: self.color_depth.bit_depth() as i32,
                y: ranged_color_space as i32,
                z: self.format.code() as i32,
                w: 0,
            },
        );
        proof {
            assert(request.blocks@ =~= old(request).blocks@ + self.spec_prim_gpu_blocks());
        }
    }
}

/// Writes the data of `data` for the shaders where the GPU cache holds
/// none that is current for `handle`.
fn write_gpu_blocks_once(data: &YuvImageData, handle: &mut GpuCacheHandle, gpu_cache: &mut GpuCache)
    requires
        old(gpu_cache).well_formed(),
    ensures
        final(gpu_cache).well_formed(),
        final(gpu_cache).is_current(*final(handle)),
        old(gpu_cache).is_current(*old(handle)) ==> {
            &&& *final(handle) == *old(handle)
            &&& final(gpu_cache).blocks@ == old(gpu_cache).blocks@
            &&& final(gpu_cache).slots@ == old(gpu_cache).slots@
        },
        !old(gpu_cache).is_current(*old(handle)) ==> {
            &&& final(handle).location == Some(old(gpu_cache).slots.len())
            &&& final(gpu_cache).blocks@ == old(gpu_cache).blocks@ + data.spec_prim_gpu_blocks()
            &&& final(gpu_cache).slots@ == old(gpu_cache).slots@.push(
                GpuSlot { start: old(gpu_cache).blocks.len(), len: 1, resident: true },
            )
            &&& final(gpu_cache).slot_blocks(*final(handle)) == data.spec_prim_gpu_blocks()
        },
{
    match gpu_cache.request(handle) {
        Some(mut request) => {
            let ghost before = gpu_cache.blocks@;
            data.write_prim_gpu_blocks(&mut request);
            let ghost written = request.blocks@;
            proof {
                assert(written =~= data.spec_prim_gpu_blocks());
            }
            gpu_cache.commit(request);
            proof {
                let slot = gpu_cache.slots@[handle.location.unwrap() as int];
                assert(slot.start == before.len());
                assert(slot.len == written.len());
                assert(gpu_cache.blocks@.subrange(
                    before.len() as int,
                    (before.len() + written.len()) as int,
                ) =~= written);
            }
        },
        None => {},
    }
}

impl From<YuvImage> for YuvImageData {
    fn from(image: YuvImage) -> (data: Self) {
        YuvImageData {
            color_depth: image.color_depth,
            yuv_key: image.yuv_key,
            src_yuv: [None, None, None],
            format: image.format,
            color_space: image.color_space,
            color_range: image.color_range,
            image_rendering: image.image_rendering,
        }
    }
}

impl vstd::std_specs::convert::FromSpecImpl<YuvImage> for YuvImageData {
    open spec fn obeys_from_spec() -> bool {
        true
    }

    open spec fn from_spec(image: YuvImage) -> Self {
        YuvImageData::spec_from_image(image)
    }
}

impl From<YuvImageKey> for YuvImageTemplate {
    fn from(image: YuvImageKey) -> (template: Self) {
        let common = PrimTemplateCommonData::with_key_common(image.common);
        PrimTemplate { common, kind: YuvImageData::from(image.kind) }
    }
}

impl vstd::std_specs::convert::FromSpecImpl<YuvImageKey> for YuvImageTemplate {
    open spec fn obeys_from_spec() -> bool {
        true
    }

    open spec fn from_spec(image: YuvImageKey) -> Self {
        PrimTemplate {
            common: PrimTemplateCommonData::spec_with_key_common(image.common),
            kind: YuvImageData::spec_from_image(image.kind),
        }
    }
}

impl YuvImage {
    /// The key of this YUV image primitive where `info` says it lies.
    pub fn into_key(self, info: &LayoutPrimitiveInfo) -> (key: YuvImageKey)
        ensures
            key.common == PrimKeyCommonData::spec_from_info(*info),
            key.kind == self,
    {
        YuvImageKey::new(info, self)
    }

    /// Makes an instance of the YUV image primitive, which refers to the
    /// template and keeps nothing in the primitive store.
    pub fn make_instance_kind(
        _key: YuvImageKey,
        data_handle: YuvImageDataHandle,
        _prim_store: &mut PrimitiveStore,
    ) -> (kind: PrimitiveInstanceKind)
        ensures
            final(_prim_store).images@ == old(_prim_store).images@,
            kind == (PrimitiveInstanceKind::YuvImage {
                data_handle,
                segment_instance_index: SegmentInstanceIndex::spec_invalid(),
                compositor_surface_kind: CompositorSurfaceKind::Blit,
            }),
    {
        PrimitiveInstanceKind::YuvImage {
            data_handle,
            segment_instance_index: SegmentInstanceIndex::invalid(),
            compositor_surface_kind: CompositorSurfaceKind::Blit,
        }
    }

    /// A YUV image primitive is always drawn.
    pub fn is_visible(&self) -> (visible: bool)
        ensures
            visible,
    {
        true
    }
}

} // verus!
