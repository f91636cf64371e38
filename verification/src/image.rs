//! Caller-owned raw pictures.
//!
//! A raw image is a row-major, interleaved, 3-channel byte buffer: pixel
//! `(x, y)` occupies bytes `3 * (y * width + x)` through
//! `3 * (y * width + x) + 2`, one byte per channel.  The pipeline only ever
//! reads such buffers.

use vstd::prelude::*;

verus! {

/// Anything the preprocessor can read as a raw 3-channel picture.
pub trait Image {
    /// Pixel columns.
    spec fn spec_width(&self) -> u32;

    /// Pixel rows.
    spec fn spec_height(&self) -> u32;

    /// The raw bytes, row-major, three bytes per pixel.
    spec fn spec_data(&self) -> Seq<u8>;

    fn width(&self) -> (r: u32)
        ensures
            r == self.spec_width(),
    ;

    fn height(&self) -> (r: u32)
        ensures
            r == self.spec_height(),
    ;

    fn size(&self) -> (r: usize)
        ensures
            r == self.spec_data().len(),
    ;

    fn data(&self) -> (r: &[u8])
        ensures
            r@ == self.spec_data(),
    ;
}

/// A raw image is consistent when its buffer holds exactly three bytes for
/// every pixel.
pub open spec fn image_wf<I: Image>(img: &I) -> bool {
    img.spec_data().len() == img.spec_width() * img.spec_height() * 3
}

/// An owned raw image in the layout the pipeline expects.
pub struct RGBImage {
    pub width: u32,
    pub height: u32,
    pub data: Vec<u8>,
}

impl RGBImage {
    /// Wraps a caller-provided buffer; the buffer must hold exactly
    /// `width * height * 3` bytes.
    pub fn new(width: u32, height: u32, data: Vec<u8>) -> (r: Self)
        requires
            data@.len() == width * height * 3,
        ensures
            r.width == width,
            r.height == height,
            r.data@ == data@,
            image_wf(&r),
    {
        RGBImage { width, height, data }
    }
}

impl Image for RGBImage {
    open spec fn spec_width(&self) -> u32 {
        self.width
    }

    open spec fn spec_height(&self) -> u32 {
        self.height
    }

    open spec fn spec_data(&self) -> Seq<u8> {
        self.data@
    }

    fn width(&self) -> (r: u32) {
        self.width
    }

    fn height(&self) -> (r: u32) {
        self.height
    }

    fn size(&self) -> (r: usize) {
        self.data.len()
    }

    fn data(&self) -> (r: &[u8]) {
        self.data.as_slice()
    }
}

} // verus!
