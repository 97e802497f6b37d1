//! What image primitives share with every other primitive: the common part
//! of keys and templates, visibility, and what instances refer to.

use vstd::prelude::*;
use crate::api::ColorU;
use crate::image::ImageInstance;
use crate::gpu_cache::GpuCacheHandle;
use crate::mask::EdgeAaSegmentMask;
use crate::units::{LayoutPoint, LayoutRect};

verus! {

/// Whether a primitive covers all that lies under it.
#[derive(Clone, Copy, Debug, PartialEq, Eq, Hash, Structural)]
pub struct PrimitiveOpacity {
    pub is_opaque: bool,
}

impl PrimitiveOpacity {
    pub open spec fn spec_opaque() -> Self {
        PrimitiveOpacity { is_opaque: true }
    }

    pub open spec fn spec_translucent() -> Self {
        PrimitiveOpacity { is_opaque: false }
    }

    /// Opaque exactly for the full alpha of 255.
    pub open spec fn spec_from_alpha(alpha: u8) -> Self {
        PrimitiveOpacity { is_opaque: alpha == 255 }
    }

    #[verifier::when_used_as_spec(spec_opaque)]
    pub fn opaque() -> (o: Self)
        ensures
            o == Self::spec_opaque(),
    {
        PrimitiveOpacity { is_opaque: true }
    }

    #[verifier::when_used_as_spec(spec_translucent)]
    pub fn translucent() -> (o: Self)
        ensures
            o == Self::spec_translucent(),
    {
        PrimitiveOpacity { is_opaque: false }
    }

    #[verifier::when_used_as_spec(spec_from_alpha)]
    pub fn from_alpha(alpha: u8) -> (o: Self)
        ensures
            o == Self::spec_from_alpha(alpha),
    {
        PrimitiveOpacity { is_opaque: alpha == 255 }
    }
}

/// Flags of a primitive, as bits.
#[derive(Clone, Copy, Debug, PartialEq, Eq, Hash, Structural)]
pub struct PrimitiveFlags {
    pub bits: u8,
}

/// Where a primitive lies, as the display list gives it.
#[derive(Clone, Copy, Debug, PartialEq, Eq, Hash, Structural)]
pub struct LayoutPrimitiveInfo {
    pub rect: LayoutRect,
    pub flags: PrimitiveFlags,
}

/// The part of a primitive's key that all kinds of primitives have.
#[derive(Clone, Copy, Debug, PartialEq, Eq, Hash, Structural)]
pub struct PrimKeyCommonData {
    pub flags: PrimitiveFlags,
    pub prim_rect: LayoutRect,
}

impl PrimKeyCommonData {
    pub open spec fn spec_from_info(info: LayoutPrimitiveInfo) -> Self {
        PrimKeyCommonData { flags: info.flags, prim_rect: info.rect }
    }

    #[verifier::when_used_as_spec(spec_from_info)]
    pub fn from_info(info: LayoutPrimitiveInfo) -> (c: Self)
        ensures
            c == Self::spec_from_info(info),
    {
        PrimKeyCommonData { flags: info.flags, prim_rect: info.rect }
    }
}

/// The key of a primitive: what is common, and what its kind adds.
#[derive(Clone, Debug, PartialEq, Eq, Hash)]
pub struct PrimKey<T> {
    pub common: PrimKeyCommonData,
    pub kind: T,
}

/// The part of a primitive's template that all kinds of primitives have.
#[derive(Clone, Copy, Debug)]
pub struct PrimTemplateCommonData {
    pub flags: PrimitiveFlags,
    pub may_need_repetition: bool,
    pub prim_rect: LayoutRect,
    pub opacity: PrimitiveOpacity,
    /// The slot of the template's data in the GPU cache.
    pub gpu_cache_handle: GpuCacheHandle,
    pub edge_aa_mask: EdgeAaSegmentMask,
}

impl PrimTemplateCommonData {
    pub open spec fn spec_with_key_common(common: PrimKeyCommonData) -> Self {
        PrimTemplateCommonData {
            flags: common.flags,
            may_need_repetition: true,
            prim_rect: common.prim_rect,
            opacity: PrimitiveOpacity::spec_translucent(),
            gpu_cache_handle: GpuCacheHandle { location: None },
            edge_aa_mask: EdgeAaSegmentMask::spec_all(),
        }
    }

    /// The common part of a fresh template: it may need repetition, counts
    /// as translucent and has no slot in the GPU cache yet.
    #[verifier::when_used_as_spec(spec_with_key_common)]
    pub fn with_key_common(common: PrimKeyCommonData) -> (t: Self)
        ensures
            t == Self::spec_with_key_common(common),
    {
        PrimTemplateCommonData {
            flags: common.flags,
            may_need_repetition: true,
            prim_rect: common.prim_rect,
            opacity: PrimitiveOpacity::translucent(),
            gpu_cache_handle: GpuCacheHandle { location: None },
            edge_aa_mask: EdgeAaSegmentMask::all(),
        }
    }
}

/// The template of a primitive: what is common, and what its kind adds.
pub struct PrimTemplate<T> {
    pub common: PrimTemplateCommonData,
    pub kind: T,
}

/// Names the segments of a primitive instance, where it has any.
#[derive(Clone, Copy, Debug, PartialEq, Eq, Hash, Structural)]
pub struct SegmentInstanceIndex {
    pub index: u32,
}

impl SegmentInstanceIndex {
    /// The index that names no segments.
    pub open spec fn spec_invalid() -> Self {
        SegmentInstanceIndex { index: 0xffff_ffff }
    }

    #[verifier::when_used_as_spec(spec_invalid)]
    pub fn invalid() -> (i: Self)
        ensures
            i == Self::spec_invalid(),
    {
        SegmentInstanceIndex { index: 0xffff_ffff }
    }
}

/// How a primitive is composited where it is promoted to a surface of its
/// own.
#[derive(Clone, Copy, Debug, PartialEq, Eq, Hash, Structural)]
pub enum CompositorSurfaceKind {
    Blit,
    Underlay,
    Overlay,
}

/// What visibility found of a primitive.
#[derive(Clone, Copy, Debug, PartialEq, Eq, Hash, Structural)]
pub enum VisibilityState {
    Unset,
    Culled,
    Visible,
}

/// The clips that apply to a primitive instance.
#[derive(Clone, Copy, Debug, PartialEq, Eq, Hash, Structural)]
pub struct ClipChainInstance {
    /// The box that the clips leave, in the primitive's space.
    pub local_clip_rect: LayoutRect,
}

/// The visibility of a primitive instance in the current frame.
#[derive(Clone, Copy, Debug, PartialEq, Eq, Hash, Structural)]
pub struct PrimitiveVisibility {
    pub state: VisibilityState,
    pub clip_chain: ClipChainInstance,
}

impl PrimitiveVisibility {
    /// Marks the primitive as not drawn in this frame.
    pub fn reset(&mut self)
        ensures
            final(self).state == VisibilityState::Culled,
            final(self).clip_chain == old(self).clip_chain,
    {
        self.state = VisibilityState::Culled;
    }
}

/// The box that can be seen of a primitive: what its clips leave of the
/// part of the frame that is drawn anew. `dirty_rect` is that part in the
/// primitive's space, or `None` where it cannot be brought there; then, and
/// where the two share nothing, nothing can be seen.
pub open spec fn spec_conservative_visible_rect(
    clip_chain: ClipChainInstance,
    dirty_rect: Option<LayoutRect>,
) -> LayoutRect {
    match dirty_rect {
        None => LayoutRect::zero(),
        Some(dirty) => match clip_chain.local_clip_rect.spec_intersection(&dirty) {
            None => LayoutRect::zero(),
            Some(rect) => rect,
        },
    }
}

/// The box that can be seen of a primitive.
pub fn compute_conservative_visible_rect(
    clip_chain: &ClipChainInstance,
    dirty_rect: Option<LayoutRect>,
) -> (r: LayoutRect)
    ensures
        r == spec_conservative_visible_rect(*clip_chain, dirty_rect),
{
    match dirty_rect {
        None => LayoutRect::zero(),
        Some(dirty) => match clip_chain.local_clip_rect.intersection(&dirty) {
            None => LayoutRect::zero(),
            Some(rect) => rect,
        },
    }
}

/// Names the interned template of an image primitive.
#[derive(Clone, Copy, Debug, PartialEq, Eq, Hash, Structural)]
pub struct ImageDataHandle {
    pub uid: u32,
}

/// Names the interned template of a YUV image primitive.
#[derive(Clone, Copy, Debug, PartialEq, Eq, Hash, Structural)]
pub struct YuvImageDataHandle {
    pub uid: u32,
}

/// Names the per-instance state of an image primitive in the primitive
/// store.
#[derive(Clone, Copy, Debug, PartialEq, Eq, Hash, Structural)]
pub struct ImageInstanceIndex {
    pub index: usize,
}

/// What an instance of an image primitive or of a YUV image primitive
/// refers to.
#[allow(inconsistent_fields)]
#[derive(Clone, Copy, Debug, PartialEq, Eq, Hash, Structural)]
pub enum PrimitiveInstanceKind {
    Image {
        data_handle: ImageDataHandle,
        image_instance_index: ImageInstanceIndex,
        compositor_surface_kind: CompositorSurfaceKind,
    },
    YuvImage {
        data_handle: YuvImageDataHandle,
        segment_instance_index: SegmentInstanceIndex,
        compositor_surface_kind: CompositorSurfaceKind,
    },
}

/// The per-instance state of the primitives of a scene.
pub struct PrimitiveStore {
    pub images: Vec<ImageInstance>,
}

impl PrimitiveStore {
    pub fn new() -> (s: Self)
        ensures
            s.images@.len() == 0,
    {
        PrimitiveStore { images: Vec::new() }
    }
}

/// The space that a primitive is rasterized in.
#[derive(Clone, Copy, Debug, PartialEq, Eq, Hash, Structural)]
pub enum RasterSpace {
    Local,
    Screen,
}

/// A shadow that is cast by the primitives that follow it.
#[derive(Clone, Copy, Debug, PartialEq, Eq, Hash, Structural)]
pub struct Shadow {
    pub offset: LayoutPoint,
    pub color: ColorU,
    pub blur_radius: i32,
}

} // verus!
