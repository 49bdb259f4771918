//! Big-endian integers on byte strings.

use vstd::prelude::*;

verus! {

/// The first two bytes of `s`, read as a big-endian integer.
pub open spec fn spec_be_u16(s: Seq<u8>) -> u16
    recommends
        s.len() >= 2,
{
    (s[0] as int * 0x100 + s[1] as int) as u16
}

/// The first four bytes of `s`, read as a big-endian integer.
pub open spec fn spec_be_u32(s: Seq<u8>) -> u32
    recommends
        s.len() >= 4,
{
    (((s[0] as int * 0x100 + s[1] as int) * 0x100 + s[2] as int) * 0x100 + s[3] as int) as u32
}

/// The first eight bytes of `s`, read as a big-endian integer.
pub open spec fn spec_be_u64(s: Seq<u8>) -> u64
    recommends
        s.len() >= 8,
{
    (spec_be_u32(s) as int * 0x1_0000_0000 + spec_be_u32(s.skip(4)) as int) as u64
}

/// The two bytes that spell `v`, most significant first.
pub open spec fn spec_u16_to_be(v: u16) -> Seq<u8> {
    seq![(v / 0x100) as u8, (v % 0x100) as u8]
}

/// The four bytes that spell `v`, most significant first.
pub open spec fn spec_u32_to_be(v: u32) -> Seq<u8> {
    seq![
        (v / 0x100_0000) as u8,
        (v / 0x1_0000 % 0x100) as u8,
        (v / 0x100 % 0x100) as u8,
        (v % 0x100) as u8,
    ]
}

/// Reading back the bytes of a 16-bit integer gives the integer, whatever follows them.
pub proof fn lemma_be_u16_round_trip(v: u16, tail: Seq<u8>)
    ensures
        spec_be_u16(spec_u16_to_be(v) + tail) == v,
{
}

/// Reading back the bytes of a 32-bit integer gives the integer, whatever follows them.
pub proof fn lemma_be_u32_round_trip(v: u32, tail: Seq<u8>)
    ensures
        spec_be_u32(spec_u32_to_be(v) + tail) == v,
{
}

/// Reads the first two bytes of `s` as a big-endian integer.
pub fn be_buf_to_u16(s: &[u8]) -> (r: u16)
    requires
        s@.len() >= 2,
    ensures
        r == spec_be_u16(s@),
{
    let hi: u16 = s[0] as u16;
    let lo: u16 = s[1] as u16;
    hi * 0x100 + lo
}

/// Reads the first four bytes of `s` as a big-endian integer.
pub fn be_buf_to_u32(s: &[u8]) -> (r: u32)
    requires
        s@.len() >= 4,
    ensures
        r == spec_be_u32(s@),
{
    let b0: u32 = s[0] as u32;
    let b1: u32 = s[1] as u32;
    let b2: u32 = s[2] as u32;
    let b3: u32 = s[3] as u32;
    ((b0 * 0x100 + b1) * 0x100 + b2) * 0x100 + b3
}

/// Reads the first eight bytes of `s` as a big-endian integer.
pub fn be_buf_to_u64(s: &[u8]) -> (r: u64)
    requires
        s@.len() >= 8,
    ensures
        r == spec_be_u64(s@),
{
    let hi: u64 = be_buf_to_u32(s) as u64;
    let lo: u64 = be_buf_to_u32(vstd::slice::slice_subrange(s, 4, 8)) as u64;
    assert(spec_be_u32(s@.subrange(4, 8)) == spec_be_u32(s@.skip(4)));
    hi * 0x1_0000_0000 + lo
}

} // verus!
