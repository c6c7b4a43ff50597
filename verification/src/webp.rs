//! The WebP header structures and their decoders.
//!
//! A parse consumes, in order: the 12-byte RIFF file header, one 8-byte chunk
//! header, and — when the chunk tag is `VP8X` — the 10-byte extended chunk
//! payload. Each decoder consumes its bytes from a [`ByteReader`] and either
//! returns the decoded value or fails fast with a [`WebpError`], leaving no
//! partial result.

use vstd::prelude::*;

use crate::byte_reader::ByteReader;
use crate::encoding::{le24, le24_bytes, le32, lemma_le24_round_trip, read_le24, read_le32};
use crate::error::WebpError;

verus! {

/// Mask of the ICC-profile bit in the first byte of the extended chunk's
/// flag word (bit 2, counting the most significant bit as bit 0).
pub const ICC_PROFILE_FLAG: u8 = 0x20;

/// Mask of the alpha bit (bit 3 from the most significant end).
pub const ALPHA_FLAG: u8 = 0x10;

/// Mask of the EXIF-metadata bit (bit 4 from the most significant end).
pub const EXIF_METADATA_FLAG: u8 = 0x08;

/// Mask of the XMP-metadata bit (bit 5 from the most significant end).
pub const XMP_METADATA_FLAG: u8 = 0x04;

/// Mask of the animation bit (bit 6 from the most significant end).
pub const ANIMATION_FLAG: u8 = 0x02;

/// The chunk tag of the extended header chunk, `"VP8X"` in ASCII.
pub open spec fn vp8x_tag() -> Seq<u8> {
    seq![0x56u8, 0x50u8, 0x38u8, 0x58u8]
}

/// The RIFF envelope of a WebP file: the leading 12 bytes.
///
/// Decoding is mechanical: the two tags are carried through uninterpreted, so
/// a caller that wants strict validation compares them against `"RIFF"` and
/// `"WEBP"` itself.
#[derive(Debug, Clone, Copy, PartialEq, Eq)]
pub struct WebpFileHeader {
    /// Bytes 0–3, expected to read `"RIFF"`.
    pub container_tag: [u8; 4],
    /// The total file size: the little-endian value of bytes 4–7 plus the 8
    /// bytes of tag and size field that the stored value excludes.
    pub declared_size: u32,
    /// Bytes 8–11, expected to read `"WEBP"`.
    pub format_tag: [u8; 4],
}

/// The feature flags and canvas dimensions carried by a `VP8X` chunk.
#[derive(Debug, Clone, Copy, PartialEq, Eq, Structural)]
pub struct ExtendedChunkHeader {
    pub icc_profile: bool,
    pub alpha: bool,
    pub exif_metadata: bool,
    pub xmp_metadata: bool,
    pub animation: bool,
    /// Canvas width: the stored 24-bit value plus one, so in [1, 2^24].
    pub width: u32,
    /// Canvas height: the stored 24-bit value plus one, so in [1, 2^24].
    pub height: u32,
}

impl ExtendedChunkHeader {
    /// Both dimensions lie in the range the 24-bit plus-one encoding allows.
    pub open spec fn wf(&self) -> bool {
        &&& 1 <= self.width <= 0x1000000
        &&& 1 <= self.height <= 0x1000000
    }
}

/// The declared size stored in a file header: the 32-bit little-endian field
/// plus 8, wrapping around on the few stored values within 8 of the 32-bit
/// maximum.
pub open spec fn declared_size_of(b: Seq<u8>) -> u32
    recommends
        b.len() == 4,
{
    if le32(b) + 8 <= u32::MAX {
        (le32(b) + 8) as u32
    } else {
        (le32(b) + 8 - 0x100000000) as u32
    }
}

/// `h` is the file header decoded from the first 12 bytes of `b`.
pub open spec fn file_header_matches(h: WebpFileHeader, b: Seq<u8>) -> bool
    recommends
        b.len() >= 12,
{
    &&& h.container_tag@ == b.subrange(0, 4)
    &&& h.declared_size == declared_size_of(b.subrange(4, 8))
    &&& h.format_tag@ == b.subrange(8, 12)
}

/// The extended chunk header decoded from the first 10 bytes of `b`: five
/// flag bits of the first byte of the flag word, then two 3-byte dimensions,
/// each stored minus one.
pub open spec fn extended_of(b: Seq<u8>) -> ExtendedChunkHeader
    recommends
        b.len() >= 10,
{
    ExtendedChunkHeader {
        icc_profile: b[0] & ICC_PROFILE_FLAG != 0,
        alpha: b[0] & ALPHA_FLAG != 0,
        exif_metadata: b[0] & EXIF_METADATA_FLAG != 0,
        xmp_metadata: b[0] & XMP_METADATA_FLAG != 0,
        animation: b[0] & ANIMATION_FLAG != 0,
        width: (le24(b.subrange(4, 7)) + 1) as u32,
        height: (le24(b.subrange(7, 10)) + 1) as u32,
    }
}

impl WebpFileHeader {
    /// Decodes the 12-byte RIFF envelope: consumes exactly 12 bytes on
    /// success; on a shorter source it fails with `TruncatedInput` and
    /// consumes nothing.
    pub fn new_from_buf_reader(reader: &mut ByteReader) -> (r: Result<WebpFileHeader, WebpError>)
        requires
            old(reader).wf(),
        ensures
            final(reader).wf(),
            final(reader).data@ == old(reader).data@,
            match r {
                Ok(h) => {
                    &&& old(reader).remaining().len() >= 12
                    &&& file_header_matches(h, old(reader).remaining())
                    &&& final(reader).pos == old(reader).pos + 12
                },
                Err(e) => {
                    &&& old(reader).remaining().len() < 12
                    &&& (e matches WebpError::TruncatedInput { offset, expected, actual }
                        && offset == old(reader).pos && expected == 12 && actual == old(
                        reader,
                    ).remaining().len())
                    &&& final(reader).pos == old(reader).pos
                },
            },
    {
        let avail = reader.remaining_len();
        if avail < 12 {
            return Err(
                WebpError::TruncatedInput { offset: reader.position(), expected: 12, actual: avail },
            );
        }
        let b = reader.read_exact(12);
        let container_tag = [b[0], b[1], b[2], b[3]];
        let raw_size = read_le32(&b, 4);
        let declared_size = raw_size.wrapping_add(8);
        let format_tag = [b[8], b[9], b[10], b[11]];
        let h = WebpFileHeader { container_tag, declared_size, format_tag };
        proof {
            let rem = old(reader).remaining();
            assert(h.container_tag@ =~= rem.subrange(0, 4));
            assert(b@.subrange(4, 8) =~= rem.subrange(4, 8));
            assert(h.format_tag@ =~= rem.subrange(8, 12));
        }
        Ok(h)
    }
}

impl ExtendedChunkHeader {
    /// Decodes the 10-byte extended chunk payload: the flag word and the two
    /// stored-minus-one dimensions. Consumes exactly 10 bytes on success; on
    /// a shorter source it fails with `TruncatedInput` and consumes nothing.
    pub fn new_from_buf_reader(reader: &mut ByteReader) -> (r: Result<
        ExtendedChunkHeader,
        WebpError,
    >)
        requires
            old(reader).wf(),
        ensures
            final(reader).wf(),
            final(reader).data@ == old(reader).data@,
            match r {
                Ok(h) => {
                    &&& old(reader).remaining().len() >= 10
                    &&& h == extended_of(old(reader).remaining())
                    &&& h.wf()
                    &&& final(reader).pos == old(reader).pos + 10
                },
                Err(e) => {
                    &&& old(reader).remaining().len() < 10
                    &&& (e matches WebpError::TruncatedInput { offset, expected, actual }
                        && offset == old(reader).pos && expected == 10 && actual == old(
                        reader,
                    ).remaining().len())
                    &&& final(reader).pos == old(reader).pos
                },
            },
    {
        let avail = reader.remaining_len();
        if avail < 10 {
            return Err(
                WebpError::TruncatedInput { offset: reader.position(), expected: 10, actual: avail },
            );
        }
        let b = reader.read_exact(10);
        let flag_byte = b[0];
        let icc_profile = flag_byte & ICC_PROFILE_FLAG != 0;
        let alpha = flag_byte & ALPHA_FLAG != 0;
        let exif_metadata = flag_byte & EXIF_METADATA_FLAG != 0;
        let xmp_metadata = flag_byte & XMP_METADATA_FLAG != 0;
        let animation = flag_byte & ANIMATION_FLAG != 0;
        let width = read_le24(&b, 4) + 1;
        let height = read_le24(&b, 7) + 1;
        let h = ExtendedChunkHeader {
            icc_profile,
            alpha,
            exif_metadata,
            xmp_metadata,
            animation,
            width,
            height,
        };
        proof {
            let rem = old(reader).remaining();
            assert(b@.subrange(4, 7) =~= rem.subrange(4, 7));
            assert(b@.subrange(7, 10) =~= rem.subrange(7, 10));
        }
        Ok(h)
    }
}

/// Tests whether the first four bytes of `b` read `"VP8X"`.
fn tag_is_vp8x(b: &Vec<u8>) -> (r: bool)
    requires
        b@.len() >= 4,
    ensures
        r == (b@.subrange(0, 4) == vp8x_tag()),
{
    let r = b[0] == 0x56 && b[1] == 0x50 && b[2] == 0x38 && b[3] == 0x58;
    proof {
        if r {
            assert(b@.subrange(0, 4) =~= vp8x_tag());
        } else {
            assert(vp8x_tag()[0] == 0x56 && vp8x_tag()[1] == 0x50 && vp8x_tag()[2] == 0x38
                && vp8x_tag()[3] == 0x58);
            assert(b@.subrange(0, 4)[0] == b@[0] && b@.subrange(0, 4)[1] == b@[1] && b@.subrange(
                0,
                4,
            )[2] == b@[2] && b@.subrange(0, 4)[3] == b@[3]);
        }
    }
    r
}

/// A decoded chunk, tagged by chunk kind.
///
/// Only the extended (`VP8X`) chunk has an implemented decoder; every other
/// tag is reported as `UnsupportedChunkType`, carrying the observed tag,
/// never dropped silently. Further chunk kinds become further variants here
/// without touching the dispatch.
#[derive(Debug, Clone, Copy, PartialEq, Eq)]
pub enum ChunkHeader {
    Extended(ExtendedChunkHeader),
}

impl ChunkHeader {
    /// The ASCII chunk tag of the decoder that produced this chunk.
    pub fn chunk_type(&self) -> (r: &'static str)
        ensures
            r@ == "VP8X"@,
    {
        match self {
            ChunkHeader::Extended(_) => "VP8X",
        }
    }

    /// Decodes one chunk. The 8-byte chunk header is consumed first: the
    /// 4-byte tag, then the chunk's own little-endian size field, read to
    /// keep the cursor aligned but not otherwise interpreted. A `VP8X` tag
    /// dispatches to the extended chunk decoder; any other tag yields
    /// `UnsupportedChunkType` with the tag that was observed.
    pub fn new_from_buf_reader(reader: &mut ByteReader) -> (r: Result<ChunkHeader, WebpError>)
        requires
            old(reader).wf(),
        ensures
            final(reader).wf(),
            final(reader).data@ == old(reader).data@,
            ({
                let b = old(reader).remaining();
                let p = old(reader).pos as int;
                match r {
                    Ok(ch) => {
                        &&& b.len() >= 18
                        &&& b.subrange(0, 4) == vp8x_tag()
                        &&& (ch matches ChunkHeader::Extended(e) && e == extended_of(
                            b.subrange(8, 18),
                        ) && e.wf())
                        &&& final(reader).pos == p + 18
                    },
                    Err(WebpError::TruncatedInput { offset, expected, actual }) => {
                        ||| (b.len() < 8 && offset == p && expected == 8 && actual == b.len()
                            && final(reader).pos == p)
                        ||| (8 <= b.len() < 18 && b.subrange(0, 4) == vp8x_tag() && offset == p + 8
                            && expected == 10 && actual == b.len() - 8 && final(reader).pos == p
                            + 8)
                    },
                    Err(WebpError::UnsupportedChunkType { tag }) => {
                        &&& b.len() >= 8
                        &&& b.subrange(0, 4) != vp8x_tag()
                        &&& tag@ == b.subrange(0, 4)
                        &&& final(reader).pos == p + 8
                    },
                }
            }),
    {
        let avail = reader.remaining_len();
        if avail < 8 {
            return Err(
                WebpError::TruncatedInput { offset: reader.position(), expected: 8, actual: avail },
            );
        }
        let b = reader.read_exact(8);
        proof {
            assert(b@.subrange(0, 4) =~= old(reader).remaining().subrange(0, 4));
        }
        if tag_is_vp8x(&b) {
            let ghost rem_after_tag = reader.remaining();
            match ExtendedChunkHeader::new_from_buf_reader(reader) {
                Ok(e) => {
                    proof {
                        let rem = old(reader).remaining();
                        assert(rem_after_tag[0] == rem.subrange(8, 18)[0]);
                        assert(rem_after_tag.subrange(4, 7) =~= rem.subrange(8, 18).subrange(4, 7));
                        assert(rem_after_tag.subrange(7, 10) =~= rem.subrange(8, 18).subrange(
                            7,
                            10,
                        ));
                    }
                    Ok(ChunkHeader::Extended(e))
                },
                Err(e) => Err(e),
            }
        } else {
            let tag = [b[0], b[1], b[2], b[3]];
            proof {
                assert(tag@ =~= b@.subrange(0, 4));
            }
            Err(WebpError::UnsupportedChunkType { tag })
        }
    }
}

/// The complete parse result: the RIFF envelope and the first chunk, the sole
/// externally visible outcome of a parse. Produced at most once per input and
/// immutable afterwards.
#[derive(Debug, Clone, Copy, PartialEq, Eq)]
pub struct WebpHeader {
    pub file_header: WebpFileHeader,
    pub chunk_header: ChunkHeader,
}

impl WebpHeader {
    /// Parses the header region of a WebP file: the 12-byte RIFF envelope,
    /// then one chunk. On success the cursor has consumed exactly 30 bytes
    /// (12 + 8 + 10); on failure it stops at the field that failed.
    pub fn new_from_buf_reader(reader: &mut ByteReader) -> (r: Result<WebpHeader, WebpError>)
        requires
            old(reader).wf(),
        ensures
            final(reader).wf(),
            final(reader).data@ == old(reader).data@,
            ({
                let b = old(reader).remaining();
                let p = old(reader).pos as int;
                match r {
                    Ok(h) => {
                        &&& b.len() >= 30
                        &&& file_header_matches(h.file_header, b)
                        &&& b.subrange(12, 16) == vp8x_tag()
                        &&& (h.chunk_header matches ChunkHeader::Extended(e) && e == extended_of(
                            b.subrange(20, 30),
                        ) && e.wf())
                        &&& final(reader).pos == p + 30
                    },
                    Err(WebpError::TruncatedInput { offset, expected, actual }) => {
                        ||| (b.len() < 12 && offset == p && expected == 12 && actual == b.len()
                            && final(reader).pos == p)
                        ||| (12 <= b.len() < 20 && offset == p + 12 && expected == 8 && actual
                            == b.len() - 12 && final(reader).pos == p + 12)
                        ||| (20 <= b.len() < 30 && b.subrange(12, 16) == vp8x_tag() && offset == p
                            + 20 && expected == 10 && actual == b.len() - 20 && final(reader).pos
                            == p + 20)
                    },
                    Err(WebpError::UnsupportedChunkType { tag }) => {
                        &&& b.len() >= 20
                        &&& b.subrange(12, 16) != vp8x_tag()
                        &&& tag@ == b.subrange(12, 16)
                        &&& final(reader).pos == p + 20
                    },
                }
            }),
    {
        let file_header = match WebpFileHeader::new_from_buf_reader(reader) {
            Ok(h) => h,
            Err(e) => {
                return Err(e);
            },
        };
        let ghost rem_after_file = reader.remaining();
        proof {
            let rem = old(reader).remaining();
            if rem.len() >= 16 {
                assert(rem_after_file.subrange(0, 4) =~= rem.subrange(12, 16));
            }
            if rem.len() >= 30 {
                assert(rem_after_file.subrange(8, 18) =~= rem.subrange(20, 30));
            }
        }
        let chunk_header = match ChunkHeader::new_from_buf_reader(reader) {
            Ok(c) => c,
            Err(e) => {
                return Err(e);
            },
        };
        Ok(WebpHeader { file_header, chunk_header })
    }
}

/// The declared file size is the stored little-endian value plus 8 whenever
/// that sum fits in 32 bits.
pub proof fn lemma_declared_size(b: Seq<u8>)
    requires
        b.len() == 4,
        le32(b) + 8 <= u32::MAX,
    ensures
        declared_size_of(b) == le32(b) + 8,
{
}

/// A flag word whose first byte has only the alpha bit set decodes to the
/// alpha flag alone: every other feature flag is false.
pub proof fn lemma_alpha_flag_alone(b: Seq<u8>)
    requires
        b.len() >= 10,
        b[0] == ALPHA_FLAG,
    ensures
        extended_of(b).alpha,
        !extended_of(b).icc_profile,
        !extended_of(b).exif_metadata,
        !extended_of(b).xmp_metadata,
        !extended_of(b).animation,
{
    assert(0x10u8 & 0x20u8 == 0 && 0x10u8 & 0x10u8 != 0 && 0x10u8 & 0x08u8 == 0 && 0x10u8 & 0x04u8
        == 0 && 0x10u8 & 0x02u8 == 0) by (bit_vector);
}

/// Round trip for the canvas dimensions: each dimension of a well-formed
/// extended chunk header, stored as the 24-bit little-endian encoding of the
/// dimension minus one, decodes back to the dimension.
pub proof fn lemma_dimension_round_trip(h: ExtendedChunkHeader)
    requires
        h.wf(),
    ensures
        le24(le24_bytes(h.width - 1)) + 1 == h.width,
        le24(le24_bytes(h.height - 1)) + 1 == h.height,
{
    lemma_le24_round_trip(h.width - 1);
    lemma_le24_round_trip(h.height - 1);
}

} // verus!
