//! Why a TEX file could not be decoded.

use crate::format::TexFormat;
use vstd::prelude::*;

verus! {

/// Every way in which parsing or decoding a TEX file can fail.
///
/// All of them are final: nothing is retried and no partial output exists.
#[derive(Debug, Clone, Copy, PartialEq, Eq, Structural)]
pub enum TexError {
    /// The input is shorter than the fixed header.
    Truncated,
    /// The input does not begin with the magic bytes.
    BadMagic,
    /// The header names a container version other than the supported one.
    UnsupportedVersion(u8),
    /// The header's format byte names no known pixel encoding.
    UnsupportedFormat(u8),
    /// The pixel encoding is known, but there is no decoder for it.
    Unimplemented(TexFormat),
    /// Width or height is zero or negative.
    InvalidDimensions,
    /// The pixel region named by the header does not lie within the file.
    PixelsOutOfRange,
    /// The pixel region's size is not what the dimensions and the encoding call for.
    SizeMismatch,
}

} // verus!
