//! The pixel encodings, and how each becomes RGBA8888.

use vstd::prelude::*;

verus! {

/// A 5-bit channel value stretched over the 8-bit range, rounding down.
pub open spec fn expand5(c: int) -> int {
    c * 255 / 31
}

/// The alpha byte that a single alpha bit stands for.
pub open spec fn expand1(bit: int) -> int {
    bit * 255
}

/// The 16-bit value whose little-endian bytes are `lo hi`.
pub open spec fn packed_le(lo: u8, hi: u8) -> int {
    lo + 0x100 * hi
}

/// Bits 10 to 14 of a packed pixel: red.
pub open spec fn red5(v: int) -> int {
    v / 0x400 % 0x20
}

/// Bits 5 to 9 of a packed pixel: green.
pub open spec fn green5(v: int) -> int {
    v / 0x20 % 0x20
}

/// Bits 0 to 4 of a packed pixel: blue.
pub open spec fn blue5(v: int) -> int {
    v % 0x20
}

/// Bit 15 of a packed pixel: alpha.
pub open spec fn alpha1(v: int) -> int {
    v / 0x8000 % 2
}

/// The four bytes R, G, B, A that the packed 5551 pixel `v` expands to.
pub open spec fn rgba_of_packed(v: int) -> Seq<u8> {
    seq![
        expand5(red5(v)) as u8,
        expand5(green5(v)) as u8,
        expand5(blue5(v)) as u8,
        expand1(alpha1(v)) as u8,
    ]
}

/// The RGBA8888 bytes for a run of little-endian BGRA5551 pixels.
///
/// Every complete two-byte pixel gives four bytes; a trailing odd byte gives none.
pub open spec fn rgba_from_bgra5551(src: Seq<u8>) -> Seq<u8> {
    Seq::new(
        (src.len() / 2 * 4) as nat,
        |i: int| rgba_of_packed(packed_le(src[i / 4 * 2], src[i / 4 * 2 + 1]))[i % 4],
    )
}

/// The position in a BGRA8888 byte string of the byte that RGBA8888 has at position `i`.
///
/// Within every complete four-byte pixel the first and third byte trade places;
/// a trailing incomplete pixel stays as it is.
pub open spec fn bgra_position(i: int, len: int) -> int {
    if i - i % 4 + 4 > len {
        i
    } else if i % 4 == 0 {
        i + 2
    } else if i % 4 == 2 {
        i - 2
    } else {
        i
    }
}

/// The RGBA8888 bytes for a run of BGRA8888 pixels.
pub open spec fn rgba_from_bgra8888(src: Seq<u8>) -> Seq<u8> {
    Seq::new(src.len(), |i: int| src[bgra_position(i, src.len() as int)])
}

/// `bytes` with the BGRA8888 pixels in `start..end` reordered to RGBA8888
/// and every other byte as it was.
pub open spec fn with_region_reordered(bytes: Seq<u8>, start: int, end: int) -> Seq<u8> {
    bytes.subrange(0, start) + rgba_from_bgra8888(bytes.subrange(start, end)) + bytes.subrange(
        end,
        bytes.len() as int,
    )
}

/// Expanding five bits to eight stays within a byte, never decreases as the
/// input grows, and sends the ends of the range to the ends of the range.
pub proof fn lemma_expand5_bounded_monotone(c: int, d: int)
    requires
        0 <= c <= d <= 31,
    ensures
        0 <= expand5(c) <= expand5(d) <= 255,
        expand5(0) == 0,
        expand5(31) == 255,
{
}

/// An alpha bit becomes 0x00 or 0xFF and nothing in between, whatever the packed pixel.
pub proof fn lemma_alpha_is_all_or_nothing(v: int)
    ensures
        expand1(0) == 0x00,
        expand1(1) == 0xFF,
        alpha1(v) == 0 || alpha1(v) == 1,
        expand1(alpha1(v)) == 0x00 || expand1(alpha1(v)) == 0xFF,
        0 <= v < 0x8000 ==> expand1(alpha1(v)) == 0x00,
        0x8000 <= v < 0x1_0000 ==> expand1(alpha1(v)) == 0xFF,
{
}

/// Trading red and blue twice gives back the bytes one started with.
pub proof fn lemma_reorder_is_involution(bytes: Seq<u8>)
    ensures
        rgba_from_bgra8888(rgba_from_bgra8888(bytes)) == bytes,
{
    let once = rgba_from_bgra8888(bytes);
    let len = bytes.len() as int;
    assert forall|i: int| 0 <= i < len implies rgba_from_bgra8888(once)[i] == bytes[i] by {
        let j = bgra_position(i, len);
        assert(0 <= j < len);
        assert(bgra_position(j, len) == i);
    }
    assert(rgba_from_bgra8888(once) =~= bytes);
}

/// Reordering keeps the length, and so does every byte that is neither red nor blue.
pub proof fn lemma_reorder_keeps_green_and_alpha(bytes: Seq<u8>, i: int)
    requires
        0 <= i < bytes.len(),
        i % 4 == 1 || i % 4 == 3,
    ensures
        rgba_from_bgra8888(bytes).len() == bytes.len(),
        rgba_from_bgra8888(bytes)[i] == bytes[i],
{
}

/// Stretches a 5-bit channel value over the 8-bit range.
pub fn expand_5_to_8(c: u8) -> (out: u8)
    requires
        c <= 31,
    ensures
        out == expand5(c as int),
{
    ((c as u32) * 0xFF / 0x1F) as u8
}

/// Turns an alpha bit into an alpha byte.
pub fn expand_1_to_8(bit: u8) -> (out: u8)
    requires
        bit <= 1,
    ensures
        out == expand1(bit as int),
        out == 0x00 || out == 0xFF,
{
    bit * 0xFF
}

/// Expands one BGRA5551 pixel, given as its two bytes in file order, to R, G, B, A.
///
/// The two bytes are read as a little-endian 16-bit value: bit 15 is alpha,
/// bits 10 to 14 red, bits 5 to 9 green, bits 0 to 4 blue. The container has
/// no field that says so; little-endian is assumed.
pub fn bgra5551_to_rgba(lo: u8, hi: u8) -> (rgba: [u8; 4])
    ensures
        rgba@ == rgba_of_packed(packed_le(lo, hi)),
{
    let v: u16 = (lo as u16) | ((hi as u16) << 8);
    let r: u8 = ((v >> 10) & 0x1F) as u8;
    let g: u8 = ((v >> 5) & 0x1F) as u8;
    let b: u8 = (v & 0x1F) as u8;
    let a: u8 = (v >> 15) as u8;
    proof {
        assert(v == lo as u16 + 0x100 * hi as u16) by (bit_vector)
            requires
                v == (lo as u16) | ((hi as u16) << 8),
        ;
        assert((v >> 10) & 0x1F == v / 0x400 % 0x20) by (bit_vector);
        assert((v >> 5) & 0x1F == v / 0x20 % 0x20) by (bit_vector);
        assert(v & 0x1F == v % 0x20) by (bit_vector);
        assert(v >> 15 == v / 0x8000 % 2) by (bit_vector);
    }
    let rgba = [expand_5_to_8(r), expand_5_to_8(g), expand_5_to_8(b), expand_1_to_8(a)];
    assert(rgba@ =~= rgba_of_packed(packed_le(lo, hi)));
    rgba
}

/// Expands a run of BGRA5551 pixels into a fresh RGBA8888 buffer.
pub fn expand_bgra5551(src: &[u8]) -> (out: Vec<u8>)
    requires
        src@.len() / 2 * 4 <= usize::MAX,
    ensures
        out@ == rgba_from_bgra5551(src@),
        out@.len() == src@.len() / 2 * 4,
{
    let pixels: usize = src.len() / 2;
    let mut out: Vec<u8> = Vec::with_capacity(pixels * 4);
    let mut i: usize = 0;
    while i < pixels
        invariant
            i <= pixels,
            pixels == src@.len() / 2,
            pixels * 4 <= usize::MAX,
            out@.len() == i * 4,
            forall|k: int| 0 <= k < i * 4 ==> out@[k] == rgba_from_bgra5551(src@)[k],
        decreases pixels - i,
    {
        let rgba = bgra5551_to_rgba(src[2 * i], src[2 * i + 1]);
        out.push(rgba[0]);
        out.push(rgba[1]);
        out.push(rgba[2]);
        out.push(rgba[3]);
        i += 1;
    }
    assert(out@ =~= rgba_from_bgra5551(src@));
    out
}

/// Reorders the BGRA8888 pixels in `buf[start..end]` to RGBA8888, in place.
///
/// Nothing outside that range is touched.
pub fn reorder_bgra8888(buf: &mut Vec<u8>, start: usize, end: usize)
    requires
        start <= end <= old(buf)@.len(),
    ensures
        final(buf)@ == with_region_reordered(old(buf)@, start as int, end as int),
        final(buf)@.len() == old(buf)@.len(),
        final(buf)@.subrange(start as int, end as int) == rgba_from_bgra8888(
            old(buf)@.subrange(start as int, end as int),
        ),
{
    let ghost before = buf@;
    let ghost region = before.subrange(start as int, end as int);
    let mut i: usize = start;
    while end - i >= 4
        invariant
            start <= i <= end <= buf@.len(),
            (i - start) % 4 == 0,
            buf@.len() == before.len(),
            region == before.subrange(start as int, end as int),
            forall|k: int| 0 <= k < start || i <= k < buf@.len() ==> buf@[k] == before[k],
            forall|k: int|
                start <= k < i ==> buf@[k] == rgba_from_bgra8888(region)[k - start],
        decreases end - i,
    {
        let blue = buf[i];
        let red = buf[i + 2];
        buf.set(i, red);
        buf.set(i + 2, blue);
        i += 4;
    }
    assert(buf@.subrange(start as int, end as int) =~= rgba_from_bgra8888(region));
    assert(buf@ =~= with_region_reordered(before, start as int, end as int));
}

} // verus!
