//! Little-endian byte encoding of the unsigned integers that appear in the
//! fee records, with proofs that encoding and decoding are exact inverses.

use vstd::prelude::*;

verus! {

/// The two little-endian bytes of a 16-bit integer.
pub open spec fn u16_le_bytes(x: u16) -> Seq<u8> {
    seq![(x & 0xff) as u8, ((x >> 8) & 0xff) as u8]
}

/// The 16-bit integer read from two little-endian bytes.
pub open spec fn u16_of_le_bytes(s: Seq<u8>) -> u16
    recommends
        s.len() == 2,
{
    (s[0] as u16) | (s[1] as u16) << 8
}

pub proof fn lemma_u16_le_round_trip(x: u16)
    ensures
        u16_le_bytes(x).len() == 2,
        u16_of_le_bytes(u16_le_bytes(x)) == x,
{
    assert(x & 0xff < 256 && (x >> 8) & 0xff < 256) by (bit_vector);
    assert(x == ((x & 0xff) | ((x >> 8) & 0xff) << 8)) by (bit_vector);
}

pub proof fn lemma_u16_le_bytes_of(s: Seq<u8>)
    requires
        s.len() == 2,
    ensures
        u16_le_bytes(u16_of_le_bytes(s)) == s,
{
    let x = u16_of_le_bytes(s);
    let s0 = s[0] as u16;
    let s1 = s[1] as u16;
    assert((x == (s0 | s1 << 8) && s0 < 256 && s1 < 256) ==> s0 == (x & 0xff) && s1 == ((x
        >> 8) & 0xff)) by (bit_vector);
    assert(u16_le_bytes(x) =~= s);
}

/// Appends the two little-endian bytes of `x`.
pub fn push_u16_le(out: &mut Vec<u8>, x: u16)
    ensures
        final(out)@ == old(out)@ + u16_le_bytes(x),
{
    proof {
        assert(x & 0xff < 256 && (x >> 8) & 0xff < 256) by (bit_vector);
    }
    out.push((x & 0xff) as u8);
    out.push(((x >> 8) & 0xff) as u8);
    proof {
        assert(out@ =~= old(out)@ + u16_le_bytes(x));
    }
}

/// Reads the 16-bit integer stored little-endian at `off`.
pub fn read_u16_le(input: &[u8], off: usize) -> (x: u16)
    requires
        off + 2 <= input@.len(),
    ensures
        x == u16_of_le_bytes(input@.subrange(off as int, off as int + 2)),
{
    let b0 = input[off];
    let b1 = input[off + 1];
    (b0 as u16) | (b1 as u16) << 8
}

/// The four little-endian bytes of a 32-bit integer.
pub open spec fn u32_le_bytes(x: u32) -> Seq<u8> {
    seq![
        (x & 0xff) as u8,
        ((x >> 8) & 0xff) as u8,
        ((x >> 16) & 0xff) as u8,
        ((x >> 24) & 0xff) as u8,
    ]
}

/// The 32-bit integer read from four little-endian bytes.
pub open spec fn u32_of_le_bytes(s: Seq<u8>) -> u32
    recommends
        s.len() == 4,
{
    (s[0] as u32) | (s[1] as u32) << 8 | (s[2] as u32) << 16 | (s[3] as u32) << 24
}

pub proof fn lemma_u32_le_round_trip(x: u32)
    ensures
        u32_le_bytes(x).len() == 4,
        u32_of_le_bytes(u32_le_bytes(x)) == x,
{
    assert(x & 0xff < 256 && (x >> 8) & 0xff < 256 && (x >> 16) & 0xff < 256 && (x >> 24) & 0xff
        < 256) by (bit_vector);
    assert(x == ((x & 0xff) | ((x >> 8) & 0xff) << 8 | ((x >> 16) & 0xff) << 16 | ((x >> 24)
        & 0xff) << 24)) by (bit_vector);
}

pub proof fn lemma_u32_le_bytes_of(s: Seq<u8>)
    requires
        s.len() == 4,
    ensures
        u32_le_bytes(u32_of_le_bytes(s)) == s,
{
    let x = u32_of_le_bytes(s);
    let s0 = s[0] as u32;
    let s1 = s[1] as u32;
    let s2 = s[2] as u32;
    let s3 = s[3] as u32;
    assert((x == (s0 | s1 << 8 | s2 << 16 | s3 << 24) && s0 < 256 && s1 < 256 && s2 < 256 && s3
        < 256) ==> s0 == (x & 0xff) && s1 == ((x >> 8) & 0xff) && s2 == ((x >> 16) & 0xff) && s3
        == ((x >> 24) & 0xff)) by (bit_vector);
    assert(u32_le_bytes(x) =~= s);
}

/// Appends the four little-endian bytes of `x`.
pub fn push_u32_le(out: &mut Vec<u8>, x: u32)
    ensures
        final(out)@ == old(out)@ + u32_le_bytes(x),
{
    proof {
        assert(x & 0xff < 256 && (x >> 8) & 0xff < 256 && (x >> 16) & 0xff < 256 && (x >> 24)
            & 0xff < 256) by (bit_vector);
    }
    out.push((x & 0xff) as u8);
    out.push(((x >> 8) & 0xff) as u8);
    out.push(((x >> 16) & 0xff) as u8);
    out.push(((x >> 24) & 0xff) as u8);
    proof {
        assert(out@ =~= old(out)@ + u32_le_bytes(x));
    }
}

/// Reads the 32-bit integer stored little-endian at `off`.
pub fn read_u32_le(input: &[u8], off: usize) -> (x: u32)
    requires
        off + 4 <= input@.len(),
    ensures
        x == u32_of_le_bytes(input@.subrange(off as int, off as int + 4)),
{
    let b0 = input[off];
    let b1 = input[off + 1];
    let b2 = input[off + 2];
    let b3 = input[off + 3];
    (b0 as u32) | (b1 as u32) << 8 | (b2 as u32) << 16 | (b3 as u32) << 24
}

/// The eight little-endian bytes of a 64-bit integer.
pub open spec fn u64_le_bytes(x: u64) -> Seq<u8> {
    seq![
        (x & 0xff) as u8,
        ((x >> 8) & 0xff) as u8,
        ((x >> 16) & 0xff) as u8,
        ((x >> 24) & 0xff) as u8,
        ((x >> 32) & 0xff) as u8,
        ((x >> 40) & 0xff) as u8,
        ((x >> 48) & 0xff) as u8,
        ((x >> 56) & 0xff) as u8,
    ]
}

/// The 64-bit integer read from eight little-endian bytes.
pub open spec fn u64_of_le_bytes(s: Seq<u8>) -> u64
    recommends
        s.len() == 8,
{
    (s[0] as u64) | (s[1] as u64) << 8 | (s[2] as u64) << 16 | (s[3] as u64) << 24 | (s[4] as u64)
        << 32 | (s[5] as u64) << 40 | (s[6] as u64) << 48 | (s[7] as u64) << 56
}

pub proof fn lemma_u64_le_round_trip(x: u64)
    ensures
        u64_le_bytes(x).len() == 8,
        u64_of_le_bytes(u64_le_bytes(x)) == x,
{
    assert(x & 0xff < 256 && (x >> 8) & 0xff < 256 && (x >> 16) & 0xff < 256 && (x >> 24) & 0xff
        < 256 && (x >> 32) & 0xff < 256 && (x >> 40) & 0xff < 256 && (x >> 48) & 0xff < 256 && (x
        >> 56) & 0xff < 256) by (bit_vector);
    assert(x == ((x & 0xff) | ((x >> 8) & 0xff) << 8 | ((x >> 16) & 0xff) << 16 | ((x >> 24)
        & 0xff) << 24 | ((x >> 32) & 0xff) << 32 | ((x >> 40) & 0xff) << 40 | ((x >> 48) & 0xff)
        << 48 | ((x >> 56) & 0xff) << 56)) by (bit_vector);
}

pub proof fn lemma_u64_le_bytes_of(s: Seq<u8>)
    requires
        s.len() == 8,
    ensures
        u64_le_bytes(u64_of_le_bytes(s)) == s,
{
    let x = u64_of_le_bytes(s);
    let s0 = s[0] as u64;
    let s1 = s[1] as u64;
    let s2 = s[2] as u64;
    let s3 = s[3] as u64;
    let s4 = s[4] as u64;
    let s5 = s[5] as u64;
    let s6 = s[6] as u64;
    let s7 = s[7] as u64;
    assert((x == (s0 | s1 << 8 | s2 << 16 | s3 << 24 | s4 << 32 | s5 << 40 | s6 << 48 | s7 << 56)
        && s0 < 256 && s1 < 256 && s2 < 256 && s3 < 256 && s4 < 256 && s5 < 256 && s6 < 256 && s7
        < 256) ==> s0 == (x & 0xff) && s1 == ((x >> 8) & 0xff) && s2 == ((x >> 16) & 0xff) && s3
        == ((x >> 24) & 0xff) && s4 == ((x >> 32) & 0xff) && s5 == ((x >> 40) & 0xff) && s6 == ((x
        >> 48) & 0xff) && s7 == ((x >> 56) & 0xff)) by (bit_vector);
    assert(u64_le_bytes(x) =~= s);
}

/// Appends the eight little-endian bytes of `x`.
pub fn push_u64_le(out: &mut Vec<u8>, x: u64)
    ensures
        final(out)@ == old(out)@ + u64_le_bytes(x),
{
    proof {
        assert(x & 0xff < 256 && (x >> 8) & 0xff < 256 && (x >> 16) & 0xff < 256 && (x >> 24)
            & 0xff < 256 && (x >> 32) & 0xff < 256 && (x >> 40) & 0xff < 256 && (x >> 48) & 0xff
            < 256 && (x >> 56) & 0xff < 256) by (bit_vector);
    }
    out.push((x & 0xff) as u8);
    out.push(((x >> 8) & 0xff) as u8);
    out.push(((x >> 16) & 0xff) as u8);
    out.push(((x >> 24) & 0xff) as u8);
    out.push(((x >> 32) & 0xff) as u8);
    out.push(((x >> 40) & 0xff) as u8);
    out.push(((x >> 48) & 0xff) as u8);
    out.push(((x >> 56) & 0xff) as u8);
    proof {
        assert(out@ =~= old(out)@ + u64_le_bytes(x));
    }
}

/// Reads the 64-bit integer stored little-endian at `off`.
pub fn read_u64_le(input: &[u8], off: usize) -> (x: u64)
    requires
        off + 8 <= input@.len(),
    ensures
        x == u64_of_le_bytes(input@.subrange(off as int, off as int + 8)),
{
    let b0 = input[off];
    let b1 = input[off + 1];
    let b2 = input[off + 2];
    let b3 = input[off + 3];
    let b4 = input[off + 4];
    let b5 = input[off + 5];
    let b6 = input[off + 6];
    let b7 = input[off + 7];
    (b0 as u64) | (b1 as u64) << 8 | (b2 as u64) << 16 | (b3 as u64) << 24 | (b4 as u64) << 32 | (
    b5 as u64) << 40 | (b6 as u64) << 48 | (b7 as u64) << 56
}

} // verus!
