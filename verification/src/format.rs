//! The pixel encodings a TEX container can declare.

use vstd::prelude::*;

verus! {

/// Pixel encoding named by the header's format byte.
#[derive(Debug, Clone, Copy, PartialEq, Eq, Structural)]
pub enum TexFormat {
    /// Four bytes per pixel, stored blue, green, red, alpha.
    Bgra8888,
    /// Two bytes per pixel: one alpha bit, then five bits each of red, green, blue.
    Bgra5551,
    /// Block-compressed; recognised, but there is no decoder for it.
    Pvrtc2Rgba,
}

impl TexFormat {
    /// The format a header byte stands for, if it stands for one.
    pub open spec fn of_byte(value: u8) -> Option<TexFormat> {
        if value == 0x08 {
            Some(TexFormat::Bgra8888)
        } else if value == 0x0A {
            Some(TexFormat::Bgra5551)
        } else if value == 0x84 {
            Some(TexFormat::Pvrtc2Rgba)
        } else {
            None
        }
    }

    /// The byte that names this format in a header.
    pub open spec fn byte(self) -> u8 {
        match self {
            TexFormat::Bgra8888 => 0x08,
            TexFormat::Bgra5551 => 0x0A,
            TexFormat::Pvrtc2Rgba => 0x84,
        }
    }

    /// How many bytes one pixel takes, for the encodings that have a decoder.
    pub open spec fn pixel_bytes(self) -> Option<u8> {
        match self {
            TexFormat::Bgra8888 => Some(4u8),
            TexFormat::Bgra5551 => Some(2u8),
            TexFormat::Pvrtc2Rgba => None,
        }
    }

    /// Looks a header byte up in the closed set of formats.
    pub fn from_value(value: u8) -> (format: Option<TexFormat>)
        ensures
            format == TexFormat::of_byte(value),
            format matches Some(f) ==> f.byte() == value,
            format is None <==> value != 0x08 && value != 0x0A && value != 0x84,
    {
        match value {
            0x08 => Some(TexFormat::Bgra8888),
            0x0A => Some(TexFormat::Bgra5551),
            0x84 => Some(TexFormat::Pvrtc2Rgba),
            _ => None,
        }
    }

    /// Bytes per pixel of this encoding, or `None` where it has no decoder.
    pub fn bytes_per_pixel(self) -> (n: Option<u8>)
        ensures
            n == self.pixel_bytes(),
    {
        match self {
            TexFormat::Bgra8888 => Some(4),
            TexFormat::Bgra5551 => Some(2),
            TexFormat::Pvrtc2Rgba => None,
        }
    }

    /// Whether decoding this encoding rests on a byte order that the container
    /// does not record. BGRA5551 is read as little-endian on that assumption;
    /// a caller may want to tell its user so.
    pub fn byte_order_is_assumed(self) -> (assumed: bool)
        ensures
            assumed <==> self == TexFormat::Bgra5551,
    {
        match self {
            TexFormat::Bgra5551 => true,
            _ => false,
        }
    }

    /// The header byte of this format.
    pub fn value(self) -> (value: u8)
        ensures
            value == self.byte(),
            TexFormat::of_byte(value) == Some(self),
    {
        match self {
            TexFormat::Bgra8888 => 0x08,
            TexFormat::Bgra5551 => 0x0A,
            TexFormat::Pvrtc2Rgba => 0x84,
        }
    }
}

} // verus!
