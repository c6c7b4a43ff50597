use webp_header::byte_reader::ByteReader;
use webp_header::error::WebpError;
use webp_header::webp::{ChunkHeader, WebpHeader};

fn webp_prefix() -> Vec<u8> {
    vec![
        0x52, 0x49, 0x46, 0x46, // "RIFF"
        0x3A, 0x00, 0x00, 0x00, // stored size 58 -> declared size 66
        0x57, 0x45, 0x42, 0x50, // "WEBP"
    ]
}

#[test]
fn full_header_parse() {
    let mut bytes = webp_prefix();
    bytes.extend_from_slice(&[
        0x56, 0x50, 0x38, 0x58, // "VP8X"
        0x0A, 0x00, 0x00, 0x00, // chunk size field
        0x14, 0x00, 0x00, 0x00, // flag word: alpha and XMP bits
        0x1F, 0x03, 0x00, // raw width 799 -> width 800
        0x57, 0x02, 0x00, // raw height 599 -> height 600
    ]);
    let mut r = ByteReader::new(bytes);
    let h = WebpHeader::new_from_buf_reader(&mut r).unwrap();
    assert_eq!(h.file_header.container_tag, [0x52, 0x49, 0x46, 0x46]);
    assert_eq!(h.file_header.declared_size, 66);
    assert_eq!(h.file_header.format_tag, [0x57, 0x45, 0x42, 0x50]);
    assert_eq!(h.chunk_header.chunk_type(), "VP8X");
    let ChunkHeader::Extended(e) = h.chunk_header;
    assert!(e.alpha);
    assert!(e.xmp_metadata);
    assert!(!e.icc_profile);
    assert!(!e.exif_metadata);
    assert!(!e.animation);
    assert_eq!(e.width, 800);
    assert_eq!(e.height, 600);
    assert_eq!(r.position(), 30);
}

#[test]
fn full_header_truncated_at_chunk_header() {
    let mut bytes = webp_prefix();
    bytes.extend_from_slice(&[0x56, 0x50, 0x38]);
    let mut r = ByteReader::new(bytes);
    let e = WebpHeader::new_from_buf_reader(&mut r).unwrap_err();
    assert_eq!(
        e,
        WebpError::TruncatedInput {
            offset: 12,
            expected: 8,
            actual: 3
        }
    );
    assert_eq!(r.position(), 12);
}

#[test]
fn full_header_truncated_in_extended_payload() {
    let mut bytes = webp_prefix();
    bytes.extend_from_slice(&[
        0x56, 0x50, 0x38, 0x58, 0x0A, 0x00, 0x00, 0x00, // chunk header
        0x10, 0x00, 0x00, 0x00, 0x1F, // five of the ten payload bytes
    ]);
    let mut r = ByteReader::new(bytes);
    let e = WebpHeader::new_from_buf_reader(&mut r).unwrap_err();
    assert_eq!(
        e,
        WebpError::TruncatedInput {
            offset: 20,
            expected: 10,
            actual: 5
        }
    );
    assert_eq!(r.position(), 20);
}

#[test]
fn full_header_unsupported_first_chunk() {
    let mut bytes = webp_prefix();
    bytes.extend_from_slice(&[
        0x56, 0x50, 0x38, 0x20, // "VP8 ": the simple lossy chunk is not implemented
        0x00, 0x01, 0x00, 0x00,
    ]);
    let mut r = ByteReader::new(bytes);
    let e = WebpHeader::new_from_buf_reader(&mut r).unwrap_err();
    assert_eq!(
        e,
        WebpError::UnsupportedChunkType {
            tag: [0x56, 0x50, 0x38, 0x20]
        }
    );
    assert_eq!(r.position(), 20);
}

#[test]
fn byte_reader_cursor_advances() {
    let mut r = ByteReader::new(vec![1, 2, 3, 4, 5]);
    assert_eq!(r.position(), 0);
    assert_eq!(r.remaining_len(), 5);
    let first = r.read_exact(2);
    assert_eq!(first, vec![1, 2]);
    assert_eq!(r.position(), 2);
    let rest = r.read_exact(3);
    assert_eq!(rest, vec![3, 4, 5]);
    assert_eq!(r.remaining_len(), 0);
}
