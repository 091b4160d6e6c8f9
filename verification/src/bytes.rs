//! Little-endian encoding of 32-bit values, shared by the ring's frame
//! length prefix and the hot-patch byte templates.

use vstd::prelude::*;

verus! {

/// The four little-endian bytes of `v`, least significant first.
pub open spec fn spec_u32_le(v: u32) -> Seq<u8> {
    seq![
        (v & 0xFF) as u8,
        ((v >> 8) & 0xFF) as u8,
        ((v >> 16) & 0xFF) as u8,
        ((v >> 24) & 0xFF) as u8,
    ]
}

/// The value read from four little-endian bytes.
pub open spec fn spec_le_u32(b: Seq<u8>) -> u32
    recommends
        b.len() == 4,
{
    (b[0] as u32) | ((b[1] as u32) << 8) | ((b[2] as u32) << 16) | ((b[3] as u32) << 24)
}

/// Decoding the four little-endian bytes of a value gives the value back.
pub proof fn lemma_u32_le_roundtrip(v: u32)
    ensures
        spec_le_u32(spec_u32_le(v)) == v,
{
    assert(((v & 0xFF) as u8 as u32) | ((((v >> 8) & 0xFF) as u8 as u32) << 8) | ((((v >> 16)
        & 0xFF) as u8 as u32) << 16) | ((((v >> 24) & 0xFF) as u8 as u32) << 24) == v)
        by (bit_vector);
}

/// Encode `v` as its four little-endian bytes.
pub fn u32_to_le_vec(v: u32) -> (r: Vec<u8>)
    ensures
        r@ == spec_u32_le(v),
{
    let mut r: Vec<u8> = Vec::new();
    r.push((v & 0xFF) as u8);
    r.push(((v >> 8) & 0xFF) as u8);
    r.push(((v >> 16) & 0xFF) as u8);
    r.push(((v >> 24) & 0xFF) as u8);
    proof {
        assert(r@ =~= spec_u32_le(v));
    }
    r
}

/// Read a value from four little-endian bytes.
pub fn u32_from_le_bytes(b0: u8, b1: u8, b2: u8, b3: u8) -> (r: u32)
    ensures
        r == spec_le_u32(seq![b0, b1, b2, b3]),
{
    (b0 as u32) | ((b1 as u32) << 8) | ((b2 as u32) << 16) | ((b3 as u32) << 24)
}

/// The eight little-endian bytes of `v`, least significant first.
pub open spec fn spec_u64_le(v: u64) -> Seq<u8> {
    seq![
        (v & 0xFF) as u8,
        ((v >> 8) & 0xFF) as u8,
        ((v >> 16) & 0xFF) as u8,
        ((v >> 24) & 0xFF) as u8,
        ((v >> 32) & 0xFF) as u8,
        ((v >> 40) & 0xFF) as u8,
        ((v >> 48) & 0xFF) as u8,
        ((v >> 56) & 0xFF) as u8,
    ]
}

/// Encode `v` as its eight little-endian bytes.
pub fn u64_to_le_vec(v: u64) -> (r: Vec<u8>)
    ensures
        r@ == spec_u64_le(v),
{
    let mut r: Vec<u8> = Vec::new();
    r.push((v & 0xFF) as u8);
    r.push(((v >> 8) & 0xFF) as u8);
    r.push(((v >> 16) & 0xFF) as u8);
    r.push(((v >> 24) & 0xFF) as u8);
    r.push(((v >> 32) & 0xFF) as u8);
    r.push(((v >> 40) & 0xFF) as u8);
    r.push(((v >> 48) & 0xFF) as u8);
    r.push(((v >> 56) & 0xFF) as u8);
    proof {
        assert(r@ =~= spec_u64_le(v));
    }
    r
}

} // verus!
