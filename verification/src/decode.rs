//! From a parsed header and the file's bytes to RGBA8888.

use crate::error::TexError;
use crate::format::TexFormat;
use crate::header::TexHeader;
use crate::image::RgbaImage;
use crate::pixel::{
    expand_bgra5551, reorder_bgra8888, rgba_from_bgra5551, rgba_from_bgra8888,
    with_region_reordered,
};
use vstd::prelude::*;
use vstd::slice::slice_subrange;

verus! {

/// The pixel data's place in the file, and the image's size, once both have
/// been checked: `start..end` lies within the file, neither dimension is zero
/// or negative, and the region is exactly as long as the pixels take.
#[derive(Debug, Clone, Copy, PartialEq, Eq, Structural)]
pub struct PixelRegion {
    /// Offset of the first pixel byte.
    pub start: usize,
    /// Offset just past the last pixel byte.
    pub end: usize,
    /// Width in pixels.
    pub width: u32,
    /// Height in pixels.
    pub height: u32,
}

/// What checking a header's geometry against a file of `file_len` bytes comes
/// to, for an encoding of `bytes_per_pixel` bytes per pixel.
///
/// The dimensions are judged first, then whether the region lies within the
/// file, then whether its size is what the dimensions call for.
pub open spec fn located(header: TexHeader, file_len: int, bytes_per_pixel: int) -> Result<
    PixelRegion,
    TexError,
> {
    if header.width <= 0 || header.height <= 0 {
        Err(TexError::InvalidDimensions)
    } else if header.pixels_offset < 0 || header.pixels_size < 0 || header.pixels_offset
        + header.pixels_size > file_len {
        Err(TexError::PixelsOutOfRange)
    } else if header.pixels_size != header.width * header.height * bytes_per_pixel {
        Err(TexError::SizeMismatch)
    } else {
        Ok(
            PixelRegion {
                start: header.pixels_offset as usize,
                end: (header.pixels_offset + header.pixels_size) as usize,
                width: header.width as u32,
                height: header.height as u32,
            },
        )
    }
}

/// What decoding comes to: the RGBA8888 bytes, or the first check that fails.
///
/// The format byte is looked up first. A format without a decoder is turned
/// away before anything else in the header is looked at.
pub open spec fn decoded(header: TexHeader, tex: Seq<u8>) -> Result<Seq<u8>, TexError> {
    match TexFormat::of_byte(header.format) {
        None => Err(TexError::UnsupportedFormat(header.format)),
        Some(format) => match format.pixel_bytes() {
            None => Err(TexError::Unimplemented(format)),
            Some(n) => match located(header, tex.len() as int, n as int) {
                Err(e) => Err(e),
                Ok(region) => {
                    let raw = tex.subrange(region.start as int, region.end as int);
                    match format {
                        TexFormat::Bgra5551 => Ok(rgba_from_bgra5551(raw)),
                        _ => Ok(rgba_from_bgra8888(raw)),
                    }
                },
            },
        },
    }
}

/// Whatever the header and the file, a successful decode is exactly
/// `width * height * 4` bytes long, for both encodings that have a decoder.
pub proof fn lemma_decoded_length(header: TexHeader, tex: Seq<u8>)
    requires
        decoded(header, tex) is Ok,
    ensures
        decoded(header, tex)->Ok_0.len() == header.width * header.height * 4,
        header.width >= 1,
        header.height >= 1,
        header.format == 0x08 || header.format == 0x0A,
{
}

/// A format without a decoder gives `Unimplemented` whatever else the header
/// and the file hold, and a byte that names no format gives `UnsupportedFormat`.
pub proof fn lemma_format_decides_first(header: TexHeader, tex: Seq<u8>)
    ensures
        header.format == 0x84 ==> decoded(header, tex) == Err::<Seq<u8>, _>(
            TexError::Unimplemented(TexFormat::Pvrtc2Rgba),
        ),
        TexFormat::of_byte(header.format) is None ==> decoded(header, tex) == Err::<Seq<u8>, _>(
            TexError::UnsupportedFormat(header.format),
        ),
{
}

/// Checks the header's dimensions and pixel region against the file's length.
pub fn locate_pixels(header: &TexHeader, file_len: usize, bytes_per_pixel: u8) -> (r: Result<
    PixelRegion,
    TexError,
>)
    ensures
        r == located(*header, file_len as int, bytes_per_pixel as int),
        r matches Ok(region) ==> {
            &&& region.start <= region.end <= file_len
            &&& region.width >= 1 && region.height >= 1
            &&& region.end - region.start == region.width * region.height * bytes_per_pixel
        },
{
    if header.width <= 0 || header.height <= 0 {
        return Err(TexError::InvalidDimensions);
    }
    if header.pixels_offset < 0 || header.pixels_size < 0 {
        return Err(TexError::PixelsOutOfRange);
    }
    let start = header.pixels_offset as usize;
    let size = header.pixels_size as usize;
    if size > file_len || start > file_len - size {
        return Err(TexError::PixelsOutOfRange);
    }
    let width = header.width as u32;
    let height = header.height as u32;
    assert(width * height <= 0x7fff * 0x7fff) by (nonlinear_arith)
        requires
            width <= 0x7fff,
            height <= 0x7fff,
    ;
    let area: u64 = (width as u64) * (height as u64);
    assert(area * bytes_per_pixel <= 0x7fff * 0x7fff * 0xff) by (nonlinear_arith)
        requires
            area <= 0x7fff * 0x7fff,
            bytes_per_pixel <= 0xff,
    ;
    let expected: u64 = area * (bytes_per_pixel as u64);
    if size as u64 != expected {
        return Err(TexError::SizeMismatch);
    }
    Ok(PixelRegion { start, end: start + size, width, height })
}

/// Decodes the pixel region of `tex` to RGBA8888, as the header directs.
///
/// BGRA8888 pixels are reordered where they lie, and the image that comes back
/// is the file's own buffer with its pixel region for a window. BGRA5551
/// pixels are expanded into a buffer of their own. On success the image has
/// the header's dimensions and exactly `width * height * 4` bytes.
pub fn decode(header: &TexHeader, tex: Vec<u8>) -> (r: Result<RgbaImage, TexError>)
    ensures
        match r {
            Ok(image) => {
                &&& decoded(*header, tex@) == Ok::<Seq<u8>, TexError>(image@)
                &&& image.width() == header.width
                &&& image.height() == header.height
                &&& image@.len() == header.width * header.height * 4
            },
            Err(e) => decoded(*header, tex@) == Err::<Seq<u8>, TexError>(e),
        },
        header.format == 0x84 ==> r == Err::<RgbaImage, _>(
            TexError::Unimplemented(TexFormat::Pvrtc2Rgba),
        ),
        r matches Ok(image) ==> (header.format == 0x08 ==> {
            &&& image.offset() == header.pixels_offset
            &&& image.backing() == with_region_reordered(
                tex@,
                header.pixels_offset as int,
                header.pixels_offset + header.pixels_size,
            )
        }),
        r matches Ok(image) ==> (header.format == 0x0A ==> {
            &&& image.offset() == 0
            &&& image.backing() == image@
        }),
{
    let format = match TexFormat::from_value(header.format) {
        Some(format) => format,
        None => {
            return Err(TexError::UnsupportedFormat(header.format));
        },
    };
    match format {
        TexFormat::Bgra8888 => {
            let region = match locate_pixels(header, tex.len(), 4) {
                Ok(region) => region,
                Err(e) => {
                    return Err(e);
                },
            };
            let mut buffer = tex;
            reorder_bgra8888(&mut buffer, region.start, region.end);
            Ok(RgbaImage::over(region.width, region.height, buffer, region.start, region.end))
        },
        TexFormat::Bgra5551 => {
            let region = match locate_pixels(header, tex.len(), 2) {
                Ok(region) => region,
                Err(e) => {
                    return Err(e);
                },
            };
            let raw = slice_subrange(tex.as_slice(), region.start, region.end);
            let buffer = expand_bgra5551(raw);
            let len = buffer.len();
            assert(buffer@.subrange(0, len as int) =~= buffer@);
            Ok(RgbaImage::over(region.width, region.height, buffer, 0, len))
        },
        TexFormat::Pvrtc2Rgba => Err(TexError::Unimplemented(format)),
    }
}

/// Parses the header of `tex` and decodes its pixels: the two steps in order.
pub fn tex_to_rgba(tex: Vec<u8>) -> (r: Result<RgbaImage, TexError>)
    ensures
        match TexHeader::parsed(tex@) {
            Err(e) => r == Err::<RgbaImage, _>(e),
            Ok(header) => match r {
                Ok(image) => {
                    &&& decoded(header, tex@) == Ok::<Seq<u8>, TexError>(image@)
                    &&& image.width() == header.width
                    &&& image.height() == header.height
                    &&& image@.len() == header.width * header.height * 4
                },
                Err(e) => decoded(header, tex@) == Err::<Seq<u8>, TexError>(e),
            },
        },
        TexHeader::parsed(tex@) matches Ok(header) ==> (header.format == 0x84 ==> r == Err::<
            RgbaImage,
            _,
        >(TexError::Unimplemented(TexFormat::Pvrtc2Rgba))),
{
    let header = match TexHeader::parse(tex.as_slice()) {
        Ok(header) => header,
        Err(e) => {
            return Err(e);
        },
    };
    decode(&header, tex)
}

} // verus!
