//! The fixed 32-byte header at the start of every TEX file.

use crate::error::TexError;
use vstd::prelude::*;

verus! {

/// Length of the header in bytes.
pub const HEADER_LEN: usize = 32;

/// The bytes every TEX file begins with: `TEX\n`.
pub const MAGIC: [u8; 4] = [0x54, 0x45, 0x58, 0x0A];

/// The only container version this crate reads.
pub const SUPPORTED_VERSION: u8 = 2;

/// Byte offset of each header field. Multi-byte fields are big-endian.
pub const MAGIC_AT: usize = 0;
pub const VERSION_AT: usize = 4;
pub const FORMAT_AT: usize = 5;
pub const MIPMAPS_AT: usize = 6;
pub const OPAQUE_BITMAP_AT: usize = 7;
pub const WIDTH_AT: usize = 8;
pub const HEIGHT_AT: usize = 10;
pub const SCALE_AT: usize = 12;
pub const PIXELS_OFFSET_AT: usize = 16;
pub const PIXELS_SIZE_AT: usize = 20;
pub const BITMAP_OFFSET_AT: usize = 24;
pub const BITMAP_SIZE_AT: usize = 28;

/// The signed 16-bit number whose big-endian two's-complement bytes are `b0 b1`.
pub open spec fn be_i16(b0: u8, b1: u8) -> int {
    let raw = b0 * 0x100 + b1;
    if raw < 0x8000 {
        raw
    } else {
        raw - 0x1_0000
    }
}

/// The signed 32-bit number whose big-endian two's-complement bytes are `b0 b1 b2 b3`.
pub open spec fn be_i32(b0: u8, b1: u8, b2: u8, b3: u8) -> int {
    let raw = b0 * 0x100_0000 + b1 * 0x1_0000 + b2 * 0x100 + b3;
    if raw < 0x8000_0000 {
        raw
    } else {
        raw - 0x1_0000_0000
    }
}

/// The big-endian `i16` that `bytes` holds at offset `at`.
pub open spec fn be_i16_at(bytes: Seq<u8>, at: int) -> int {
    be_i16(bytes[at], bytes[at + 1])
}

/// The big-endian `i32` that `bytes` holds at offset `at`.
pub open spec fn be_i32_at(bytes: Seq<u8>, at: int) -> int {
    be_i32(bytes[at], bytes[at + 1], bytes[at + 2], bytes[at + 3])
}

/// Reads the big-endian `i16` at offset `at`.
pub fn read_be_i16(bytes: &[u8], at: usize) -> (value: i16)
    requires
        at + 2 <= bytes@.len(),
    ensures
        value == be_i16_at(bytes@, at as int),
{
    let raw: u16 = (bytes[at] as u16) * 0x100 + (bytes[at + 1] as u16);
    if raw < 0x8000 {
        raw as i16
    } else {
        (raw as i32 - 0x1_0000) as i16
    }
}

/// Reads the big-endian `i32` at offset `at`.
pub fn read_be_i32(bytes: &[u8], at: usize) -> (value: i32)
    requires
        at + 4 <= bytes@.len(),
    ensures
        value == be_i32_at(bytes@, at as int),
{
    let raw: u32 = (bytes[at] as u32) * 0x100_0000 + (bytes[at + 1] as u32) * 0x1_0000 + (bytes[at
        + 2] as u32) * 0x100 + (bytes[at + 3] as u32);
    if raw < 0x8000_0000 {
        raw as i32
    } else {
        (raw as i64 - 0x1_0000_0000) as i32
    }
}

/// The header fields, as they stand in the file.
#[derive(Debug, Clone, Copy, PartialEq, Eq)]
pub struct TexHeader {
    /// The four magic bytes.
    pub magic: [u8; 4],
    /// Container format version.
    pub version: u8,
    /// Pixel-encoding identifier; see [`crate::format::TexFormat`].
    pub format: u8,
    /// Mipmap count.
    pub mipmaps: u8,
    /// Opaque-bitmap flag.
    pub opaque_bitmap: u8,
    /// Width in pixels.
    pub width: i16,
    /// Height in pixels.
    pub height: i16,
    /// Scale.
    pub scale: i32,
    /// Where in the file the pixel data begins.
    pub pixels_offset: i32,
    /// How many bytes of pixel data there are.
    pub pixels_size: i32,
    /// Where in the file the opaque bitmap begins.
    pub bitmap_offset: i32,
    /// How many bytes the opaque bitmap takes.
    pub bitmap_size: i32,
}

impl TexHeader {
    /// The header that the first 32 bytes of `bytes` spell out, field by field.
    pub open spec fn laid_out_in(bytes: Seq<u8>) -> TexHeader {
        TexHeader {
            magic: [
                bytes[MAGIC_AT as int],
                bytes[MAGIC_AT + 1],
                bytes[MAGIC_AT + 2],
                bytes[MAGIC_AT + 3],
            ],
            version: bytes[VERSION_AT as int],
            format: bytes[FORMAT_AT as int],
            mipmaps: bytes[MIPMAPS_AT as int],
            opaque_bitmap: bytes[OPAQUE_BITMAP_AT as int],
            width: be_i16_at(bytes, WIDTH_AT as int) as i16,
            height: be_i16_at(bytes, HEIGHT_AT as int) as i16,
            scale: be_i32_at(bytes, SCALE_AT as int) as i32,
            pixels_offset: be_i32_at(bytes, PIXELS_OFFSET_AT as int) as i32,
            pixels_size: be_i32_at(bytes, PIXELS_SIZE_AT as int) as i32,
            bitmap_offset: be_i32_at(bytes, BITMAP_OFFSET_AT as int) as i32,
            bitmap_size: be_i32_at(bytes, BITMAP_SIZE_AT as int) as i32,
        }
    }

    /// Whether `bytes` begins with the magic bytes.
    pub open spec fn has_magic(bytes: Seq<u8>) -> bool {
        bytes.len() >= 4 && bytes.subrange(0, 4) == MAGIC@
    }

    /// What parsing `bytes` comes to: the header, or the first check that fails.
    ///
    /// The length is checked first, then the magic, then the version.
    pub open spec fn parsed(bytes: Seq<u8>) -> Result<TexHeader, TexError> {
        if bytes.len() < HEADER_LEN {
            Err(TexError::Truncated)
        } else if !Self::has_magic(bytes) {
            Err(TexError::BadMagic)
        } else if bytes[VERSION_AT as int] != SUPPORTED_VERSION {
            Err(TexError::UnsupportedVersion(bytes[VERSION_AT as int]))
        } else {
            Ok(Self::laid_out_in(bytes))
        }
    }

    /// Parses and validates the header at the start of `bytes`.
    ///
    /// An input shorter than the header is rejected before any field is read.
    /// Of the fields only the magic and the version are judged here; what the
    /// format byte or the dimensions are worth is for the decoder to say.
    pub fn parse(bytes: &[u8]) -> (r: Result<TexHeader, TexError>)
        ensures
            r == Self::parsed(bytes@),
            bytes@.len() < HEADER_LEN ==> r == Err::<TexHeader, _>(TexError::Truncated),
            bytes@.len() >= HEADER_LEN && !Self::has_magic(bytes@) ==> r == Err::<TexHeader, _>(
                TexError::BadMagic,
            ),
            bytes@.len() >= HEADER_LEN && Self::has_magic(bytes@) && bytes@[VERSION_AT as int]
                != SUPPORTED_VERSION ==> r == Err::<TexHeader, _>(
                TexError::UnsupportedVersion(bytes@[VERSION_AT as int]),
            ),
            bytes@.len() >= HEADER_LEN && Self::has_magic(bytes@) && bytes@[VERSION_AT as int]
                == SUPPORTED_VERSION ==> r == Ok::<_, TexError>(Self::laid_out_in(bytes@)),
    {
        if bytes.len() < HEADER_LEN {
            return Err(TexError::Truncated);
        }
        let header = TexHeader {
            magic: [bytes[0], bytes[1], bytes[2], bytes[3]],
            version: bytes[VERSION_AT],
            format: bytes[FORMAT_AT],
            mipmaps: bytes[MIPMAPS_AT],
            opaque_bitmap: bytes[OPAQUE_BITMAP_AT],
            width: read_be_i16(bytes, WIDTH_AT),
            height: read_be_i16(bytes, HEIGHT_AT),
            scale: read_be_i32(bytes, SCALE_AT),
            pixels_offset: read_be_i32(bytes, PIXELS_OFFSET_AT),
            pixels_size: read_be_i32(bytes, PIXELS_SIZE_AT),
            bitmap_offset: read_be_i32(bytes, BITMAP_OFFSET_AT),
            bitmap_size: read_be_i32(bytes, BITMAP_SIZE_AT),
        };
        assert(header.magic@ =~= bytes@.subrange(0, 4));
        if header.magic[0] != MAGIC[0] || header.magic[1] != MAGIC[1] || header.magic[2] != MAGIC[2]
            || header.magic[3] != MAGIC[3] {
            return Err(TexError::BadMagic);
        }
        assert(header.magic@ =~= MAGIC@);
        if header.version != SUPPORTED_VERSION {
            return Err(TexError::UnsupportedVersion(header.version));
        }
        assert(header.magic =~= Self::laid_out_in(bytes@).magic);
        Ok(header)
    }
}

} // verus!
