//! The plain values of the public interface that the image primitives are
//! described with: keys, colours, formats and the like.

use vstd::prelude::*;

verus! {

/// Identifies an image that was registered with the renderer.
#[derive(Clone, Copy, Debug, PartialEq, Eq, Hash, Structural)]
pub struct ApiImageKey {
    pub namespace: u32,
    pub id: u32,
}

/// A colour with one byte per channel. An alpha of 255 is opaque.
#[derive(Clone, Copy, Debug, PartialEq, Eq, Hash, Structural)]
pub struct ColorU {
    pub r: u8,
    pub g: u8,
    pub b: u8,
    pub a: u8,
}

impl ColorU {
    pub fn new(r: u8, g: u8, b: u8, a: u8) -> (c: Self)
        ensures
            c == (ColorU { r, g, b, a }),
    {
        ColorU { r, g, b, a }
    }
}

/// How an image is sampled when it is scaled.
#[derive(Clone, Copy, Debug, PartialEq, Eq, Hash, Structural)]
pub enum ImageRendering {
    Auto,
    CrispEdges,
    Pixelated,
}

/// Whether the colour channels of an image were multiplied by its alpha.
#[derive(Clone, Copy, Debug, PartialEq, Eq, Hash, Structural)]
pub enum AlphaType {
    Alpha,
    PremultipliedAlpha,
}

/// The layout of the pixels of an image in memory.
#[derive(Clone, Copy, Debug, PartialEq, Eq, Hash, Structural)]
pub enum ImageFormat {
    R8,
    R16,
    BGRA8,
    RGBAF32,
    RG8,
    RG16,
    RGBAI32,
    RGBA8,
}

/// The bits per channel of a YUV image.
#[derive(Clone, Copy, Debug, PartialEq, Eq, Hash, Structural)]
pub enum ColorDepth {
    Color8,
    Color10,
    Color12,
    Color16,
}

/// The colour space of a YUV image.
#[derive(Clone, Copy, Debug, PartialEq, Eq, Hash, Structural)]
pub enum YuvColorSpace {
    Rec601,
    Rec709,
    Rec2020,
    Identity,
}

/// The range of the values of a YUV image.
#[derive(Clone, Copy, Debug, PartialEq, Eq, Hash, Structural)]
pub enum ColorRange {
    Limited,
    Full,
}

/// How the planes of a YUV image are laid out.
#[derive(Clone, Copy, Debug, PartialEq, Eq, Hash, Structural)]
pub enum YuvFormat {
    NV12,
    P010,
    NV16,
    PlanarYCbCr,
    InterleavedYCbCr,
}

/// The kind of texture that backs an external image.
#[derive(Clone, Copy, Debug, PartialEq, Eq, Hash, Structural)]
pub enum ImageBufferKind {
    Texture2D,
    TextureRect,
    TextureExternal,
    TextureExternalBT709,
}

/// How an image that the embedder owns is stored.
#[derive(Clone, Copy, Debug, PartialEq, Eq, Hash, Structural)]
pub enum ExternalImageType {
    TextureHandle(ImageBufferKind),
    Buffer,
}

/// What the pipeline reads of an image that the embedder owns.
#[derive(Clone, Copy, Debug, PartialEq, Eq, Hash, Structural)]
pub struct ExternalImageData {
    pub image_type: ExternalImageType,
    pub normalized_uvs: bool,
}

/// The flag bit of an image descriptor that says the image is opaque.
pub const IS_OPAQUE: u32 = 1;

/// The flag bit of an image descriptor that allows mipmaps.
pub const ALLOW_MIPMAPS: u32 = 2;

/// The size, format and flags of an image.
#[derive(Clone, Copy, Debug, PartialEq, Eq, Hash, Structural)]
pub struct ImageDescriptor {
    pub format: ImageFormat,
    pub size: crate::units::DeviceIntSize,
    pub flags: u32,
}

/// The bytes that one pixel of the format takes.
pub open spec fn spec_bytes_per_pixel(format: ImageFormat) -> int {
    match format {
        ImageFormat::R8 => 1,
        ImageFormat::R16 => 2,
        ImageFormat::BGRA8 => 4,
        ImageFormat::RGBAF32 => 16,
        ImageFormat::RG8 => 2,
        ImageFormat::RG16 => 4,
        ImageFormat::RGBAI32 => 16,
        ImageFormat::RGBA8 => 4,
    }
}

/// The number of planes of the format.
pub open spec fn spec_plane_num(format: YuvFormat) -> int {
    match format {
        YuvFormat::NV12 | YuvFormat::P010 | YuvFormat::NV16 => 2,
        YuvFormat::PlanarYCbCr => 3,
        YuvFormat::InterleavedYCbCr => 1,
    }
}

/// The number by which shaders know the format.
pub open spec fn spec_format_code(format: YuvFormat) -> int {
    match format {
        YuvFormat::NV12 => 0,
        YuvFormat::P010 => 1,
        YuvFormat::NV16 => 2,
        YuvFormat::PlanarYCbCr => 3,
        YuvFormat::InterleavedYCbCr => 4,
    }
}

/// The bits per channel of the depth.
pub open spec fn spec_bit_depth(depth: ColorDepth) -> int {
    match depth {
        ColorDepth::Color8 => 8,
        ColorDepth::Color10 => 10,
        ColorDepth::Color12 => 12,
        ColorDepth::Color16 => 16,
    }
}

/// The number by which shaders know a colour space taken with a range: two
/// for each of the three ranged spaces, the narrow range first, and one for
/// the identity space, which has no range.
pub open spec fn spec_ranged_color_space_code(space: YuvColorSpace, range: ColorRange) -> int {
    match space {
        YuvColorSpace::Rec601 => if range == ColorRange::Limited { 0 } else { 1 },
        YuvColorSpace::Rec709 => if range == ColorRange::Limited { 2 } else { 3 },
        YuvColorSpace::Rec2020 => if range == ColorRange::Limited { 4 } else { 5 },
        YuvColorSpace::Identity => 6,
    }
}

impl ImageFormat {
    /// Calls `webrender_api::ImageFormat::bytes_per_pixel` on the same
    /// format: the bytes that one pixel takes.
    #[verifier::external_body]
    pub(crate) fn bytes_per_pixel(self) -> (n: i32)
        ensures
            n == spec_bytes_per_pixel(self),
    {
        let format = match self {
            ImageFormat::R8 => webrender_api::ImageFormat::R8,
            ImageFormat::R16 => webrender_api::ImageFormat::R16,
            ImageFormat::BGRA8 => webrender_api::ImageFormat::BGRA8,
            ImageFormat::RGBAF32 => webrender_api::ImageFormat::RGBAF32,
            ImageFormat::RG8 => webrender_api::ImageFormat::RG8,
            ImageFormat::RG16 => webrender_api::ImageFormat::RG16,
            ImageFormat::RGBAI32 => webrender_api::ImageFormat::RGBAI32,
            ImageFormat::RGBA8 => webrender_api::ImageFormat::RGBA8,
        };
        format.bytes_per_pixel()
    }
}

impl ImageDescriptor {
    /// The image has no alpha channel to blend with.
    pub open spec fn spec_is_opaque(&self) -> bool {
        self.flags & IS_OPAQUE != 0
    }

    /// Calls `webrender_api::ImageDescriptor::is_opaque` on the same
    /// descriptor: whether the flag bit `IS_OPAQUE` is set.
    #[verifier::external_body]
    pub(crate) fn is_opaque(&self) -> (o: bool)
        ensures
            o == self.spec_is_opaque(),
    {
        let format = match self.format {
            ImageFormat::R8 => webrender_api::ImageFormat::R8,
            ImageFormat::R16 => webrender_api::ImageFormat::R16,
            ImageFormat::BGRA8 => webrender_api::ImageFormat::BGRA8,
            ImageFormat::RGBAF32 => webrender_api::ImageFormat::RGBAF32,
            ImageFormat::RG8 => webrender_api::ImageFormat::RG8,
            ImageFormat::RG16 => webrender_api::ImageFormat::RG16,
            ImageFormat::RGBAI32 => webrender_api::ImageFormat::RGBAI32,
            ImageFormat::RGBA8 => webrender_api::ImageFormat::RGBA8,
        };
        let flags = webrender_api::ImageDescriptorFlags::from_bits_retain(self.flags);
        let (width, height) = (self.size.width, self.size.height);
        webrender_api::ImageDescriptor::new(width, height, format, flags).is_opaque()
    }
}

impl YuvFormat {
    /// Calls `webrender_api::YuvFormat::get_plane_num` on the same format:
    /// the number of planes that an image of the format has.
    #[verifier::external_body]
    pub(crate) fn get_plane_num(self) -> (n: usize)
        ensures
            n == spec_plane_num(self),
    {
        let format = match self {
            YuvFormat::NV12 => webrender_api::YuvFormat::NV12,
            YuvFormat::P010 => webrender_api::YuvFormat::P010,
            YuvFormat::NV16 => webrender_api::YuvFormat::NV16,
            YuvFormat::PlanarYCbCr => webrender_api::YuvFormat::PlanarYCbCr,
            YuvFormat::InterleavedYCbCr => webrender_api::YuvFormat::InterleavedYCbCr,
        };
        format.get_plane_num()
    }

    /// The number that `webrender_api::YuvFormat` gives the same format,
    /// which is the number that shaders know it by.
    #[verifier::external_body]
    pub(crate) fn code(self) -> (n: u32)
        ensures
            n == spec_format_code(self),
    {
        let format = match self {
            YuvFormat::NV12 => webrender_api::YuvFormat::NV12,
            YuvFormat::P010 => webrender_api::YuvFormat::P010,
            YuvFormat::NV16 => webrender_api::YuvFormat::NV16,
            YuvFormat::PlanarYCbCr => webrender_api::YuvFormat::PlanarYCbCr,
            YuvFormat::InterleavedYCbCr => webrender_api::YuvFormat::InterleavedYCbCr,
        };
        format as u32
    }
}

impl ColorDepth {
    /// Calls `webrender_api::ColorDepth::bit_depth` on the same depth: the
    /// bits per channel.
    #[verifier::external_body]
    pub(crate) fn bit_depth(self) -> (n: u32)
        ensures
            n == spec_bit_depth(self),
    {
        let depth = match self {
            ColorDepth::Color8 => webrender_api::ColorDepth::Color8,
            ColorDepth::Color10 => webrender_api::ColorDepth::Color10,
            ColorDepth::Color12 => webrender_api::ColorDepth::Color12,
            ColorDepth::Color16 => webrender_api::ColorDepth::Color16,
        };
        depth.bit_depth()
    }
}

impl YuvColorSpace {
    /// Calls `webrender_api::YuvColorSpace::with_range` on the same colour
    /// space and range and gives the number of the ranged colour space that
    /// comes back.
    #[verifier::external_body]
    pub(crate) fn with_range(self, range: ColorRange) -> (n: u32)
        ensures
            n == spec_ranged_color_space_code(self, range),
    {
        let space = match self {
            YuvColorSpace::Rec601 => webrender_api::YuvColorSpace::Rec601,
            YuvColorSpace::Rec709 => webrender_api::YuvColorSpace::Rec709,
            YuvColorSpace::Rec2020 => webrender_api::YuvColorSpace::Rec2020,
            YuvColorSpace::Identity => webrender_api::YuvColorSpace::Identity,
        };
        let range = match range {
            ColorRange::Limited => webrender_api::ColorRange::Limited,
            ColorRange::Full => webrender_api::ColorRange::Full,
        };
        space.with_range(range) as u32
    }
}

} // verus!
