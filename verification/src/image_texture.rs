//! Decoded image data for the image-lookup texture.
//!
//! Decoding an image file is a collaborator's concern; this type accepts
//! the already-decoded bitmap as plain bytes, three per pixel in row-major
//! order, and answers pixel lookups exactly. The mapping from floating-point
//! texture coordinates to a pixel coordinate happens outside this crate.

use vstd::prelude::*;

verus! {

/// A decoded bitmap: `width * height` pixels, three bytes each (red,
/// green, blue), rows concatenated top to bottom.
pub struct Image {
    pub width: u32,
    pub height: u32,
    pub data: Vec<u8>,
}

impl View for Image {
    type V = Seq<u8>;

    /// The bitmap's bytes, three per pixel, rows concatenated.
    open spec fn view(&self) -> Seq<u8> {
        self.data@
    }
}

impl Image {
    /// Three bytes per pixel, every pixel present.
    pub open spec fn wf(&self) -> bool {
        self.data@.len() == 3 * (self.width as int) * (self.height as int)
    }

    /// The byte triple of the pixel at column `x` of row `y`.
    pub open spec fn pixel_spec(&self, x: int, y: int) -> (u8, u8, u8) {
        let base = 3 * (y * (self.width as int) + x);
        (self.data@[base], self.data@[base + 1], self.data@[base + 2])
    }

    /// Wraps an already-decoded bitmap.
    pub fn new(width: u32, height: u32, data: Vec<u8>) -> (image: Image)
        requires
            data@.len() == 3 * (width as int) * (height as int),
        ensures
            image.wf(),
            image.width == width,
            image.height == height,
            image@ == data@,
    {
        Image { width, height, data }
    }

    /// How many pixels wide the bitmap is.
    pub fn width(&self) -> (w: u32)
        ensures
            w == self.width,
    {
        self.width
    }

    /// How many pixels high the bitmap is.
    pub fn height(&self) -> (h: u32)
        ensures
            h == self.height,
    {
        self.height
    }

    /// Looks the pixel at column `x` of row `y` up.
    pub fn pixel(&self, x: u32, y: u32) -> (p: (u8, u8, u8))
        requires
            self.wf(),
            x < self.width,
            y < self.height,
        ensures
            p == self.pixel_spec(x as int, y as int),
    {
        let n = self.data.len();
        proof {
            assert(3 * ((y as int) * (self.width as int) + (x as int)) + 2 < 3 * (
            self.width as int) * (self.height as int)) by (nonlinear_arith)
                requires
                    0 <= x < self.width,
                    0 <= y < self.height,
            ;
        }
        let base = 3 * ((y as usize) * (self.width as usize) + (x as usize));
        let r = self.data[base];
        let g = self.data[base + 1];
        let b = self.data[base + 2];
        (r, g, b)
    }
}

} // verus!
