//! The single-channel image buffer that the conversion strategies consume.
//!
//! A preprocessing collaborator (decode, resize, grayscale) produces this
//! buffer; from here on it is read-only: a width, a height, and one
//! intensity sample per pixel in row-major order.

use vstd::prelude::*;

verus! {

/// A grayscale image: `width * height` intensity samples (0 = darkest,
/// 255 = brightest) in row-major order.
pub struct ImageBuffer {
    pub width: usize,
    pub height: usize,
    pub samples: Vec<u8>,
}

impl ImageBuffer {
    /// A buffer is well formed when both dimensions are positive and it
    /// holds exactly one sample per pixel.
    pub open spec fn well_formed(self) -> bool {
        &&& self.width > 0
        &&& self.height > 0
        &&& self.samples@.len() == self.width * self.height
    }

    pub fn new(width: usize, height: usize, samples: Vec<u8>) -> (buffer: ImageBuffer)
        ensures
            buffer.width == width,
            buffer.height == height,
            buffer.samples == samples,
    {
        ImageBuffer { width, height, samples }
    }

    /// Runtime check of `well_formed`, safe against `width * height`
    /// overflowing `usize`.
    pub fn is_well_formed(&self) -> (ok: bool)
        ensures
            ok == self.well_formed(),
    {
        if self.width == 0 || self.height == 0 {
            return false;
        }
        match self.width.checked_mul(self.height) {
            Some(pixel_count) => self.samples.len() == pixel_count,
            None => {
                let stored = self.samples.len();
                proof {
                    assert(stored < self.width * self.height);
                }
                false
            },
        }
    }
}

} // verus!
