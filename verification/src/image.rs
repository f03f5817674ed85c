//! A decoded image: its dimensions and its RGBA8888 bytes.

use vstd::prelude::*;
use vstd::slice::slice_subrange;

verus! {

/// A decoded image.
///
/// The pixels are a window into a buffer that the image owns. For an encoding
/// that is reordered in place the buffer is the file itself and the window is
/// its pixel region; for one that is expanded the buffer is the expansion and
/// the window is all of it. Either way the window holds exactly
/// `width * height * 4` bytes, and neither dimension is zero.
#[derive(Debug)]
pub struct RgbaImage {
    width: u32,
    height: u32,
    buffer: Vec<u8>,
    start: usize,
    end: usize,
}

impl View for RgbaImage {
    type V = Seq<u8>;

    /// The RGBA8888 bytes, row by row, four to a pixel.
    closed spec fn view(&self) -> Seq<u8> {
        self.buffer@.subrange(self.start as int, self.end as int)
    }
}

impl RgbaImage {
    #[verifier::type_invariant]
    spec fn well_formed(self) -> bool {
        &&& self.start <= self.end <= self.buffer@.len()
        &&& self.width >= 1
        &&& self.height >= 1
        &&& self.end - self.start == self.width * self.height * 4
    }

    /// Width in pixels.
    pub closed spec fn spec_width(&self) -> u32 {
        self.width
    }

    /// Height in pixels.
    pub closed spec fn spec_height(&self) -> u32 {
        self.height
    }

    /// The buffer that the pixels are a window into.
    pub closed spec fn backing(self) -> Seq<u8> {
        self.buffer@
    }

    /// Where in the backing buffer the pixels begin.
    pub closed spec fn offset(self) -> int {
        self.start as int
    }

    /// Makes an image of the window `start..end` of `buffer`.
    pub(crate) fn over(width: u32, height: u32, buffer: Vec<u8>, start: usize, end: usize) -> (image:
        RgbaImage)
        requires
            start <= end <= buffer@.len(),
            width >= 1,
            height >= 1,
            end - start == width * height * 4,
        ensures
            image@ == buffer@.subrange(start as int, end as int),
            image.width() == width,
            image.height() == height,
            image.backing() == buffer@,
            image.offset() == start,
    {
        RgbaImage { width, height, buffer, start, end }
    }

    /// Width in pixels; never zero.
    #[verifier::when_used_as_spec(spec_width)]
    pub fn width(&self) -> (width: u32)
        ensures
            width == self.spec_width(),
            width >= 1,
    {
        proof {
            use_type_invariant(self);
        }
        self.width
    }

    /// Height in pixels; never zero.
    #[verifier::when_used_as_spec(spec_height)]
    pub fn height(&self) -> (height: u32)
        ensures
            height == self.spec_height(),
            height >= 1,
    {
        proof {
            use_type_invariant(self);
        }
        self.height
    }

    /// The RGBA8888 bytes: exactly `width * height * 4` of them.
    pub fn pixels(&self) -> (pixels: &[u8])
        ensures
            pixels@ == self@,
            pixels@.len() == self.width() * self.height() * 4,
    {
        proof {
            use_type_invariant(self);
        }
        slice_subrange(self.buffer.as_slice(), self.start, self.end)
    }
}

} // verus!
