//! The in-memory pixel buffer every converter produces before encoding.
use vstd::prelude::*;

verus! {

/// A decoded image: `width * height` pixels of four bytes each (RGBA),
/// rows top to bottom.
pub struct PixelBuffer {
    /// Width in pixels.
    pub width: u32,
    /// Height in pixels.
    pub height: u32,
    /// The raw pixel bytes, four per pixel.
    pub data: Vec<u8>,
}

impl PixelBuffer {
    /// The buffer holds exactly four bytes per pixel.
    pub open spec fn wf(&self) -> bool {
        self.data@.len() == (self.width as nat) * (self.height as nat) * 4
    }
}

} // verus!
