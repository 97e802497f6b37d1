//! Per-frame preparation of image primitives and YUV image primitives.
//!
//! For every visible instance of such a primitive a frame needs to know
//! what the instance is drawn from: the render tasks that supply its
//! pixels, tile by tile where the image is tiled, and the data that its
//! shader reads. This crate works that out and proves what it works out.
//!
//! Layout space is held in whole layout units: app units, sixtieths of a
//! pixel, as `webrender_api::units::LayoutRectAu` holds them. So every
//! quantity here is an integer, every contract is stated over mathematical
//! integers, and fractions are kept exactly, as a numerator over a
//! denominator. Arithmetic on layout units does not trap: a result that
//! leaves the range of 32 bits stays at the end of the range.
//!
//! - [`units`], [`mask`], [`api`]: the plain values that primitives are
//!   described with.
//! - [`adjust`]: the adjustment between the box an image was laid out with
//!   and the box that was rasterized.
//! - [`tiling`]: the repetitions of a stretched image and the tiles of a
//!   tiled one that can be seen.
//! - [`render_graph`], [`render_task_cache`], [`resource_cache`],
//!   [`gpu_cache`], [`frame`]: the parts of a frame that primitives read
//!   and add to.
//! - [`prim`]: what image primitives share with all primitives.
//! - [`image`], [`yuv`]: the primitives and their update.

pub mod adjust;
pub mod api;
pub mod arith;
pub mod frame;
pub mod gpu_cache;
pub mod image;
pub mod mask;
pub mod prim;
pub mod render_graph;
pub mod render_task_cache;
pub mod resource_cache;
pub mod tiling;
pub mod units;
pub mod yuv;
