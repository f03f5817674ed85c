//! Decoder for the TEX texture container.
//!
//! A TEX file is a fixed 32-byte header followed by raw pixel data in one of a
//! small, closed set of encodings. This crate parses the header and turns the
//! pixel region into tightly packed RGBA8888 bytes.

pub mod decode;
pub mod error;
pub mod format;
pub mod header;
pub mod image;
pub mod pixel;
