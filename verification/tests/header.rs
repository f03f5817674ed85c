use tex_decoder::error::TexError;
use tex_decoder::header::{read_be_i16, read_be_i32, TexHeader, HEADER_LEN, MAGIC};

fn sample_header() -> Vec<u8> {
    vec![
        0x54, 0x45, 0x58, 0x0A, // magic
        0x02, // version
        0x08, // format
        0x03, // mipmaps
        0x01, // opaque bitmap
        0x01, 0x00, // width 256
        0x00, 0x80, // height 128
        0x00, 0x01, 0x00, 0x00, // scale 65536
        0x00, 0x00, 0x00, 0x20, // pixels offset 32
        0x00, 0x02, 0x00, 0x00, // pixels size 131072
        0x00, 0x02, 0x00, 0x20, // bitmap offset 131104
        0x00, 0x00, 0x10, 0x00, // bitmap size 4096
    ]
}

#[test]
fn magic_is_tex_newline() {
    assert_eq!(MAGIC, *b"TEX\n");
    assert_eq!(MAGIC, [0x54, 0x45, 0x58, 0x0A]);
    assert_eq!(HEADER_LEN, 32);
}

#[test]
fn parse_reads_every_field_at_its_offset() {
    let header = TexHeader::parse(&sample_header()).unwrap();
    assert_eq!(
        header,
        TexHeader {
            magic: *b"TEX\n",
            version: 2,
            format: 0x08,
            mipmaps: 3,
            opaque_bitmap: 1,
            width: 256,
            height: 128,
            scale: 65536,
            pixels_offset: 32,
            pixels_size: 131072,
            bitmap_offset: 131104,
            bitmap_size: 4096,
        }
    );
}

#[test]
fn parse_ignores_what_follows_the_header() {
    let mut bytes = sample_header();
    let alone = TexHeader::parse(&bytes).unwrap();
    bytes.extend_from_slice(&[0xAA; 100]);
    assert_eq!(TexHeader::parse(&bytes).unwrap(), alone);
}

#[test]
fn parse_reads_negative_numbers_as_twos_complement() {
    let mut bytes = sample_header();
    bytes[8] = 0xFF;
    bytes[9] = 0xFE; // width -2
    bytes[10] = 0x80;
    bytes[11] = 0x00; // height -32768
    bytes[12..16].copy_from_slice(&[0xFF, 0xFF, 0xFF, 0xFF]); // scale -1
    bytes[16..20].copy_from_slice(&[0x80, 0x00, 0x00, 0x00]); // offset i32::MIN
    bytes[20..24].copy_from_slice(&[0x7F, 0xFF, 0xFF, 0xFF]); // size i32::MAX
    bytes[24..28].copy_from_slice(&[0x12, 0x34, 0x56, 0x78]);
    bytes[28..32].copy_from_slice(&[0xFE, 0xDC, 0xBA, 0x98]);
    let header = TexHeader::parse(&bytes).unwrap();
    assert_eq!(header.width, -2);
    assert_eq!(header.height, i16::MIN);
    assert_eq!(header.scale, -1);
    assert_eq!(header.pixels_offset, i32::MIN);
    assert_eq!(header.pixels_size, i32::MAX);
    assert_eq!(header.bitmap_offset, 0x12345678);
    assert_eq!(header.bitmap_size, i32::from_be_bytes([0xFE, 0xDC, 0xBA, 0x98]));
}

#[test]
fn parse_does_not_judge_the_format_byte() {
    let mut bytes = sample_header();
    bytes[5] = 0x77;
    assert_eq!(TexHeader::parse(&bytes).unwrap().format, 0x77);
}

#[test]
fn shorter_than_the_header_is_truncated() {
    let full = sample_header();
    for len in 0..32 {
        assert_eq!(TexHeader::parse(&full[..len]), Err(TexError::Truncated), "length {}", len);
    }
    assert!(TexHeader::parse(&full[..32]).is_ok());
}

#[test]
fn truncation_is_found_before_the_magic_is_read() {
    assert_eq!(TexHeader::parse(&[]), Err(TexError::Truncated));
    assert_eq!(TexHeader::parse(&[0x00, 0x00, 0x00, 0x00]), Err(TexError::Truncated));
    assert_eq!(TexHeader::parse(&[0x00; 31]), Err(TexError::Truncated));
    assert_eq!(TexHeader::parse(b"TEX\n\x03"), Err(TexError::Truncated));
}

#[test]
fn any_other_four_bytes_are_bad_magic() {
    for at in 0..4 {
        let mut bytes = sample_header();
        bytes[at] ^= 0x01;
        assert_eq!(TexHeader::parse(&bytes), Err(TexError::BadMagic), "byte {}", at);
    }
    let mut bytes = sample_header();
    bytes[..4].copy_from_slice(b"tex\n");
    assert_eq!(TexHeader::parse(&bytes), Err(TexError::BadMagic));
    assert_eq!(TexHeader::parse(&[0x00; 32]), Err(TexError::BadMagic));
}

#[test]
fn bad_magic_is_found_before_the_version_is_judged() {
    let mut bytes = sample_header();
    bytes[0] = 0x00;
    bytes[4] = 0x07;
    assert_eq!(TexHeader::parse(&bytes), Err(TexError::BadMagic));
}

#[test]
fn any_version_but_two_is_unsupported() {
    for version in 0..=255u8 {
        let mut bytes = sample_header();
        bytes[4] = version;
        let parsed = TexHeader::parse(&bytes);
        if version == 2 {
            assert!(parsed.is_ok());
        } else {
            assert_eq!(parsed, Err(TexError::UnsupportedVersion(version)));
        }
    }
}

#[test]
fn read_be_i16_agrees_with_std() {
    let bytes = [0x00, 0x12, 0x34, 0xFF, 0x80, 0x00, 0x7F, 0xFF];
    for at in 0..7 {
        let expected = i16::from_be_bytes([bytes[at], bytes[at + 1]]);
        assert_eq!(read_be_i16(&bytes, at), expected, "offset {}", at);
    }
    assert_eq!(read_be_i16(&[0x12, 0x34], 0), 0x1234);
    assert_eq!(read_be_i16(&[0xFF, 0xFF], 0), -1);
}

#[test]
fn read_be_i32_agrees_with_std() {
    let bytes = [0x00, 0x12, 0x34, 0xFF, 0x80, 0x00, 0x7F, 0xFF, 0xFF, 0xFF, 0xFF];
    for at in 0..8 {
        let expected =
            i32::from_be_bytes([bytes[at], bytes[at + 1], bytes[at + 2], bytes[at + 3]]);
        assert_eq!(read_be_i32(&bytes, at), expected, "offset {}", at);
    }
    assert_eq!(read_be_i32(&[0x12, 0x34, 0x56, 0x78], 0), 0x12345678);
    assert_eq!(read_be_i32(&[0x80, 0x00, 0x00, 0x00], 0), i32::MIN);
}
