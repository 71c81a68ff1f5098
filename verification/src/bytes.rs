//! Byte-level helpers: big-endian frame header fields and little-endian
//! scalars as they appear inside schema-encoded payloads.

use vstd::prelude::*;
use vstd::bytes::{spec_u16_from_le_bytes, spec_u16_to_le_bytes, spec_u32_from_le_bytes,
    spec_u32_to_le_bytes, u16_from_le_bytes, u16_to_le_bytes, u32_from_le_bytes, u32_to_le_bytes};
use vstd::slice::slice_subrange;

verus! {

/// The two bytes of `x` in big-endian order, as used by the frame header.
pub open spec fn spec_u16_be(x: u16) -> Seq<u8> {
    seq![(x >> 8) as u8, (x & 0xff) as u8]
}

/// The 16-bit value read big-endian from two bytes.
pub open spec fn spec_u16_of_be(b0: u8, b1: u8) -> u16 {
    (((b0 as u16) << 8) | (b1 as u16)) as u16
}

pub proof fn lemma_u16_be_round_trip(x: u16)
    ensures
        spec_u16_of_be(spec_u16_be(x)[0], spec_u16_be(x)[1]) == x,
{
    assert((((((x >> 8) as u8) as u16) << 8) | (((x & 0xff) as u8) as u16)) == x) by (bit_vector);
}

/// Appends the big-endian encoding of `x` to `out`.
pub fn push_u16_be(out: &mut Vec<u8>, x: u16)
    ensures
        final(out)@ == old(out)@ + spec_u16_be(x),
{
    out.push((x >> 8) as u8);
    out.push((x & 0xff) as u8);
    assert(out@ =~= old(out)@ + spec_u16_be(x));
}

/// Reads the 16-bit big-endian value made of two bytes.
pub fn u16_from_be(b0: u8, b1: u8) -> (x: u16)
    ensures
        x == spec_u16_of_be(b0, b1),
{
    ((b0 as u16) << 8) | (b1 as u16)
}

/// The little-endian 16-bit value at position `p` of `b`.
pub open spec fn le16(b: Seq<u8>, p: int) -> u16
    recommends
        0 <= p,
        p + 2 <= b.len(),
{
    spec_u16_from_le_bytes(b.subrange(p, p + 2))
}

/// The little-endian 32-bit value at position `p` of `b`.
pub open spec fn le32(b: Seq<u8>, p: int) -> u32
    recommends
        0 <= p,
        p + 4 <= b.len(),
{
    spec_u32_from_le_bytes(b.subrange(p, p + 4))
}

/// The little-endian signed 32-bit value at position `p` of `b`.
pub open spec fn sle32(b: Seq<u8>, p: int) -> i32
    recommends
        0 <= p,
        p + 4 <= b.len(),
{
    le32(b, p) as i32
}

/// Little-endian bytes of a 16-bit value.
pub open spec fn u16le(x: u16) -> Seq<u8> {
    spec_u16_to_le_bytes(x)
}

/// Little-endian bytes of a 32-bit value.
pub open spec fn u32le(x: u32) -> Seq<u8> {
    spec_u32_to_le_bytes(x)
}

/// Little-endian bytes of a signed 32-bit value, stored as its two's
/// complement 32-bit pattern.
pub open spec fn i32le(x: i32) -> Seq<u8> {
    spec_u32_to_le_bytes(x as u32)
}

pub proof fn lemma_le32_of_u32le(x: u32)
    ensures
        u32le(x).len() == 4,
        spec_u32_from_le_bytes(u32le(x)) == x,
{
    vstd::bytes::lemma_auto_spec_u32_to_from_le_bytes();
    assert(spec_u32_to_le_bytes(x).len() == 4);
}

pub proof fn lemma_le32_of_i32le(x: i32)
    ensures
        i32le(x).len() == 4,
        spec_u32_from_le_bytes(i32le(x)) as i32 == x,
{
    lemma_le32_of_u32le(x as u32);
    assert(((x as u32) as i32) == x) by (bit_vector);
}

/// Appends the little-endian encoding of a 16-bit value to `out`.
pub fn push_u16_le(out: &mut Vec<u8>, x: u16)
    ensures
        final(out)@ == old(out)@ + u16le(x),
{
    let mut t = u16_to_le_bytes(x);
    out.append(&mut t);
}

/// Appends the little-endian encoding of a 32-bit value to `out`.
pub fn push_u32_le(out: &mut Vec<u8>, x: u32)
    ensures
        final(out)@ == old(out)@ + u32le(x),
{
    let mut t = u32_to_le_bytes(x);
    out.append(&mut t);
}

/// Appends the little-endian two's complement encoding of a signed 32-bit
/// value to `out`.
pub fn push_i32_le(out: &mut Vec<u8>, x: i32)
    ensures
        final(out)@ == old(out)@ + i32le(x),
{
    push_u32_le(out, x as u32);
}

/// Reads one byte of a slice.
pub fn byte_at(b: &[u8], i: usize) -> (r: u8)
    requires
        i < b@.len(),
    ensures
        r == b@[i as int],
{
    *vstd::slice::slice_index_get(b, i)
}

/// Reads the little-endian 16-bit value at position `p` of `b`.
pub fn read_u16_le(b: &[u8], p: usize) -> (x: u16)
    requires
        p + 2 <= b@.len(),
    ensures
        x == le16(b@, p as int),
{
    let n = b.len();
    assert(p + 2 <= n);
    let s = slice_subrange(b, p, p + 2);
    u16_from_le_bytes(s)
}

/// Reads the little-endian 32-bit value at position `p` of `b`.
pub fn read_u32_le(b: &[u8], p: usize) -> (x: u32)
    requires
        p + 4 <= b@.len(),
    ensures
        x == le32(b@, p as int),
{
    let n = b.len();
    assert(p + 4 <= n);
    let s = slice_subrange(b, p, p + 4);
    u32_from_le_bytes(s)
}

/// Reads the little-endian signed 32-bit value at position `p` of `b`.
pub fn read_i32_le(b: &[u8], p: usize) -> (x: i32)
    requires
        p + 4 <= b@.len(),
    ensures
        x == sle32(b@, p as int),
{
    let u = read_u32_le(b, p);
    u as i32
}


/// Copies a byte vector.
pub fn clone_bytes(v: &Vec<u8>) -> (r: Vec<u8>)
    ensures
        r@ == v@,
{
    let mut r: Vec<u8> = Vec::new();
    let mut i: usize = 0;
    while i < v.len()
        invariant
            i <= v@.len(),
            r@ == v@.take(i as int),
        decreases v@.len() - i as int,
    {
        r.push(v[i]);
        proof {
            assert(r@ =~= v@.take(i as int + 1));
        }
        i = i + 1;
    }
    proof {
        assert(r@ =~= v@);
    }
    r
}

} // verus!
