//! Little-endian integer fields of the WebP header.
//!
//! The RIFF envelope stores its size as a 32-bit little-endian integer and the
//! extended chunk stores each canvas dimension as a 24-bit little-endian
//! integer. These functions give the byte-to-value mapping once, so every
//! contract of the parser speaks the same language.

use vstd::prelude::*;

verus! {

/// The value of four bytes read as a little-endian 32-bit unsigned integer.
pub open spec fn le32(b: Seq<u8>) -> int
    recommends
        b.len() == 4,
{
    b[0] + b[1] * 0x100 + b[2] * 0x10000 + b[3] * 0x1000000
}

/// The value of three bytes read as a little-endian 24-bit unsigned integer.
pub open spec fn le24(b: Seq<u8>) -> int
    recommends
        b.len() == 3,
{
    b[0] + b[1] * 0x100 + b[2] * 0x10000
}

/// The three-byte little-endian encoding of a 24-bit value.
pub open spec fn le24_bytes(v: int) -> Seq<u8>
    recommends
        0 <= v < 0x1000000,
{
    seq![(v % 0x100) as u8, ((v / 0x100) % 0x100) as u8, ((v / 0x10000) % 0x100) as u8]
}

/// Reads the little-endian 32-bit field stored at offset `i` of `b`.
pub fn read_le32(b: &Vec<u8>, i: usize) -> (r: u32)
    requires
        i + 4 <= b@.len(),
    ensures
        r == le32(b@.subrange(i as int, i + 4 as int)),
{
    let len = b.len();
    assert(i + 4 <= len);
    let r = (b[i] as u32) + (b[i + 1] as u32) * 0x100 + (b[i + 2] as u32) * 0x10000 + (b[i + 3]
        as u32) * 0x1000000;
    proof {
        let s = b@.subrange(i as int, i + 4 as int);
        assert(s[0] == b@[i as int] && s[1] == b@[i + 1] && s[2] == b@[i + 2] && s[3] == b@[i + 3]);
    }
    r
}

/// Reads the little-endian 24-bit field stored at offset `i` of `b`.
pub fn read_le24(b: &Vec<u8>, i: usize) -> (r: u32)
    requires
        i + 3 <= b@.len(),
    ensures
        r == le24(b@.subrange(i as int, i + 3 as int)),
        r < 0x1000000,
{
    let len = b.len();
    assert(i + 3 <= len);
    let r = (b[i] as u32) + (b[i + 1] as u32) * 0x100 + (b[i + 2] as u32) * 0x10000;
    proof {
        let s = b@.subrange(i as int, i + 3 as int);
        assert(s[0] == b@[i as int] && s[1] == b@[i + 1] && s[2] == b@[i + 2]);
    }
    r
}

/// Encoding a 24-bit value little-endian and decoding the bytes gives the
/// value back.
pub proof fn lemma_le24_round_trip(v: int)
    requires
        0 <= v < 0x1000000,
    ensures
        le24(le24_bytes(v)) == v,
{
    vstd::arithmetic::div_mod::lemma_fundamental_div_mod(v, 0x100);
    vstd::arithmetic::div_mod::lemma_fundamental_div_mod(v / 0x100, 0x100);
    vstd::arithmetic::div_mod::lemma_div_denominator(v, 0x100, 0x100);
    assert(v / 0x10000 < 0x100) by {
        vstd::arithmetic::div_mod::lemma_div_is_ordered(v, 0xffffff, 0x10000);
    }
    vstd::arithmetic::div_mod::lemma_small_mod((v / 0x10000) as nat, 0x100);
}

} // verus!
