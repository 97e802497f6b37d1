//! The cache of image resources, as far as image primitives consult it:
//! what is known of an image, and which images a frame needs.

use vstd::prelude::*;
use crate::adjust::AdjustedImageSource;
use crate::api::{ApiImageKey, ExternalImageData, ImageDescriptor};
use crate::gpu_cache::GpuCache;
use crate::render_graph::ImageRequest;
use crate::render_task_cache::RenderTaskCache;
use crate::tiling::{compute_tile_size, spec_tile_size};
use crate::units::{DeviceIntRect, DeviceIntSize};

verus! {

/// The size of the tiles of a tiled image, in device pixels.
pub type TileSize = u16;

/// What is known of an image.
#[derive(Clone, Copy, Debug)]
pub struct ImageProperties {
    pub descriptor: ImageDescriptor,
    pub external_image: Option<ExternalImageData>,
    /// The tile size, where the image is tiled.
    pub tiling: Option<TileSize>,
    /// The part of a tiled image that holds valid pixels.
    pub visible_rect: DeviceIntRect,
    /// How the box that was rasterized differs from the box that the
    /// primitive was laid out with.
    pub adjustment: AdjustedImageSource,
}

/// An image with its key.
#[derive(Clone, Copy, Debug)]
pub struct ImageResource {
    pub key: ApiImageKey,
    pub properties: ImageProperties,
}

/// The cache.
pub struct ResourceCache {
    pub images: Vec<ImageResource>,
    /// What was asked for in this frame, in order.
    pub requests: Vec<ImageRequest>,
    pub cached_render_tasks: RenderTaskCache,
}

/// The properties of the first image with `key` from index `from` on.
pub open spec fn find_image(images: Seq<ImageResource>, key: ApiImageKey, from: int) -> Option<
    ImageProperties,
>
    decreases images.len() - from,
{
    if from < 0 || from >= images.len() {
        None
    } else if images[from].key == key {
        Some(images[from].properties)
    } else {
        find_image(images, key, from + 1)
    }
}

/// A tile size, where there is one, is positive.
pub open spec fn tiling_is_valid(properties: ImageProperties) -> bool {
    properties.tiling matches Some(tile_size) ==> tile_size > 0
}

/// The size of what `request` asks for: the size of the image, the size of
/// the tile where it asks for one, and nothing where the image is unknown.
pub open spec fn requested_size(
    images: Seq<ImageResource>,
    request: ImageRequest,
) -> DeviceIntSize {
    match find_image(images, request.key, 0) {
        None => DeviceIntSize { width: 0, height: 0 },
        Some(properties) => match request.tile {
            None => properties.descriptor.size,
            Some(tile) => spec_tile_size(
                properties.visible_rect,
                properties.tiling.unwrap() as int,
                tile,
            ),
        },
    }
}

/// An image that is found is one of the images.
pub proof fn lemma_found_is_image(
    images: Seq<ImageResource>,
    key: ApiImageKey,
    from: int,
) -> (i: int)
    requires
        0 <= from,
        find_image(images, key, from) is Some,
    ensures
        from <= i < images.len(),
        images[i].key == key,
        find_image(images, key, from) == Some(images[i].properties),
    decreases images.len() - from,
{
    if images[from].key == key {
        from
    } else {
        lemma_found_is_image(images, key, from + 1)
    }
}

impl ResourceCache {
    /// What the cache knows of the image `key`.
    pub open spec fn spec_properties(&self, key: ApiImageKey) -> Option<ImageProperties> {
        find_image(self.images@, key, 0)
    }

    /// Every tiled image has a positive tile size.
    pub open spec fn well_formed(&self) -> bool {
        forall|i: int|
            0 <= i < self.images@.len() ==> tiling_is_valid((#[trigger] self.images@[i]).properties)
    }

    /// `request` can be answered: where it asks for a tile of a known
    /// image, the image is tiled.
    pub open spec fn can_answer(&self, request: ImageRequest) -> bool {
        request.tile is Some ==> (self.spec_properties(request.key) matches Some(properties)
            ==> properties.tiling is Some)
    }

    pub fn new() -> (c: Self)
        ensures
            c.images@.len() == 0,
            c.requests@.len() == 0,
            c.cached_render_tasks.entries@.len() == 0,
            c.well_formed(),
    {
        ResourceCache {
            images: Vec::new(),
            requests: Vec::new(),
            cached_render_tasks: RenderTaskCache::new(),
        }
    }

    /// Tests whether every tiled image has a positive tile size.
    pub fn is_well_formed(&self) -> (ok: bool)
        ensures
            ok == self.well_formed(),
    {
        let mut i: usize = 0;
        while i < self.images.len()
            invariant
                i <= self.images@.len(),
                forall|j: int| 0 <= j < i ==> tiling_is_valid((#[trigger] self.images@[j]).properties),
            decreases self.images@.len() - i,
        {
            match self.images[i].properties.tiling {
                Some(tile_size) => {
                    if tile_size == 0 {
                        return false;
                    }
                },
                None => {},
            }
            i = i + 1;
        }
        true
    }

    /// Makes an image known under `key`. An image that is already known
    /// under the key stays what is found.
    pub fn add_image(&mut self, key: ApiImageKey, properties: ImageProperties)
        requires
            old(self).well_formed(),
            tiling_is_valid(properties),
        ensures
            final(self).well_formed(),
            final(self).images@ == old(self).images@.push(ImageResource { key, properties }),
            final(self).requests@ == old(self).requests@,
            final(self).cached_render_tasks == old(self).cached_render_tasks,
    {
        self.images.push(ImageResource { key, properties });
    }

    /// What the cache knows of the image `key`, if it knows it.
    pub fn get_image_properties(&self, key: ApiImageKey) -> (r: Option<ImageProperties>)
        ensures
            r == self.spec_properties(key),
            self.well_formed() ==> (r matches Some(properties) ==> tiling_is_valid(properties)),
    {
        let mut i: usize = 0;
        while i < self.images.len()
            invariant
                i <= self.images@.len(),
                find_image(self.images@, key, 0) == find_image(self.images@, key, i as int),
            decreases self.images@.len() - i,
        {
            if self.images[i].key == key {
                return Some(self.images[i].properties);
            }
            i = i + 1;
        }
        None
    }

    /// Marks what `request` asks for as needed in this frame, and gives its
    /// size in device pixels. The GPU cache is left as it is: nothing of an
    /// image is kept there before the image is drawn.
    pub fn request_image(&mut self, request: ImageRequest, gpu_cache: &mut GpuCache) -> (size:
        DeviceIntSize)
        requires
            old(self).well_formed(),
            old(self).can_answer(request),
        ensures
            *final(gpu_cache) == *old(gpu_cache),
            final(self).images@ == old(self).images@,
            final(self).cached_render_tasks == old(self).cached_render_tasks,
            final(self).requests@ == old(self).requests@.push(request),
            size == requested_size(old(self).images@, request),
    {
        let size = match self.get_image_properties(request.key) {
            None => DeviceIntSize { width: 0, height: 0 },
            Some(properties) => match request.tile {
                None => properties.descriptor.size,
                Some(tile) => {
                    let tile_size = properties.tiling.unwrap();
                    compute_tile_size(&properties.visible_rect, tile_size, tile)
                },
            },
        };
        self.requests.push(request);
        size
    }
}

} // verus!
