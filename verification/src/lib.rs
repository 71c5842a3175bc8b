//! Batch image conversion library.
//!
//! Scans of a directory tree, decoding of raster images (PNG/JPEG) and
//! rasterization of vector images (SVG) are combined into one pipeline:
//! every verified function here computes on plain values (paths as bytes,
//! images as pixel buffers), while decoding, rendering and encoding are
//! delegated to outside libraries behind trusted wrappers.
use vstd::prelude::*;

pub mod driver;
pub mod error;
pub mod paths;
pub mod pixel;
pub mod raster;
pub mod vector;

verus! {

/// Lossy quality factor handed to the WebP encoder, on a 0-100 scale
/// where higher means better quality and larger output.
pub const WEBP_QUALITY: u8 = 65;

} // verus!
