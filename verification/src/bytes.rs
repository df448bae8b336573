//! Byte-order helpers shared by the field decoders, the locator encoding and the amount format.
//!
//! The host writes fixed-width integers little-endian; the serialized amount format of the ledger
//! stores its 64-bit value big-endian. Each encoding is given here as a spec function together
//! with the round-trip lemmas the rest of the crate relies on.

use vstd::prelude::*;

verus! {

/// `n` zero bytes.
pub open spec fn zero_bytes(n: nat) -> Seq<u8> {
    Seq::new(n, |i: int| 0u8)
}

/// An array of `M` zero bytes.
pub fn zeroed_array<const M: usize>() -> (r: [u8; M])
    ensures
        r@ == zero_bytes(M as nat),
{
    let r: [u8; M] = [0u8; M];
    proof {
        broadcast use vstd::array::axiom_spec_array_fill_for_copy_type;

        assert(r == vstd::array::spec_array_fill_for_copy_type::<u8, M>(0u8));
    }
    assert(r@ =~= zero_bytes(M as nat));
    r
}

/// The 16-bit value whose little-endian bytes start `s`.
pub open spec fn u16_from_le(s: Seq<u8>) -> u16 {
    ((s[0] as u16) | ((s[1] as u16) << 8u16)) as u16
}

/// The little-endian bytes of a 32-bit value.
pub open spec fn u32_le(x: u32) -> Seq<u8> {
    seq![
        (x & 0xff) as u8,
        ((x >> 8u32) & 0xff) as u8,
        ((x >> 16u32) & 0xff) as u8,
        ((x >> 24u32) & 0xff) as u8,
    ]
}

/// The 32-bit value whose little-endian bytes start `s`.
pub open spec fn u32_from_le(s: Seq<u8>) -> u32 {
    ((s[0] as u32) | ((s[1] as u32) << 8u32) | ((s[2] as u32) << 16u32) | ((s[3] as u32)
        << 24u32)) as u32
}

/// The 64-bit value whose little-endian bytes start `s`.
pub open spec fn u64_from_le(s: Seq<u8>) -> u64 {
    ((s[0] as u64) | ((s[1] as u64) << 8u64) | ((s[2] as u64) << 16u64) | ((s[3] as u64)
        << 24u64) | ((s[4] as u64) << 32u64) | ((s[5] as u64) << 40u64) | ((s[6] as u64)
        << 48u64) | ((s[7] as u64) << 56u64)) as u64
}

/// The little-endian bytes of a 64-bit value.
pub open spec fn u64_le(x: u64) -> Seq<u8> {
    seq![
        (x & 0xff) as u8,
        ((x >> 8u64) & 0xff) as u8,
        ((x >> 16u64) & 0xff) as u8,
        ((x >> 24u64) & 0xff) as u8,
        ((x >> 32u64) & 0xff) as u8,
        ((x >> 40u64) & 0xff) as u8,
        ((x >> 48u64) & 0xff) as u8,
        ((x >> 56u64) & 0xff) as u8,
    ]
}

/// The big-endian bytes of a 64-bit value.
pub open spec fn u64_be(x: u64) -> Seq<u8> {
    seq![
        ((x >> 56u64) & 0xff) as u8,
        ((x >> 48u64) & 0xff) as u8,
        ((x >> 40u64) & 0xff) as u8,
        ((x >> 32u64) & 0xff) as u8,
        ((x >> 24u64) & 0xff) as u8,
        ((x >> 16u64) & 0xff) as u8,
        ((x >> 8u64) & 0xff) as u8,
        (x & 0xff) as u8,
    ]
}

/// The 64-bit value whose big-endian bytes start `s`.
pub open spec fn u64_from_be(s: Seq<u8>) -> u64 {
    (((s[0] as u64) << 56u64) | ((s[1] as u64) << 48u64) | ((s[2] as u64) << 40u64) | ((
    s[3] as u64) << 32u64) | ((s[4] as u64) << 24u64) | ((s[5] as u64) << 16u64) | ((s[6] as u64)
        << 8u64) | (s[7] as u64)) as u64
}

/// The big-endian bytes of a 32-bit value.
pub open spec fn u32_be(x: u32) -> Seq<u8> {
    seq![
        ((x >> 24u32) & 0xff) as u8,
        ((x >> 16u32) & 0xff) as u8,
        ((x >> 8u32) & 0xff) as u8,
        (x & 0xff) as u8,
    ]
}

/// Reading back the little-endian bytes of a 32-bit value gives the value.
pub proof fn lemma_u32_le_roundtrip(x: u32)
    ensures
        u32_le(x).len() == 4,
        u32_from_le(u32_le(x)) == x,
{
    let b0 = (x & 0xff) as u8;
    let b1 = ((x >> 8u32) & 0xff) as u8;
    let b2 = ((x >> 16u32) & 0xff) as u8;
    let b3 = ((x >> 24u32) & 0xff) as u8;
    assert(((b0 as u32) | ((b1 as u32) << 8u32) | ((b2 as u32) << 16u32) | ((b3 as u32)
        << 24u32)) == x) by (bit_vector)
        requires
            b0 == (x & 0xff) as u8,
            b1 == ((x >> 8u32) & 0xff) as u8,
            b2 == ((x >> 16u32) & 0xff) as u8,
            b3 == ((x >> 24u32) & 0xff) as u8,
    ;
}

/// Four bytes are the little-endian bytes of the value they encode.
pub proof fn lemma_u32_from_le_roundtrip(s: Seq<u8>)
    requires
        s.len() == 4,
    ensures
        u32_le(u32_from_le(s)) == s,
{
    let s0 = s[0];
    let s1 = s[1];
    let s2 = s[2];
    let s3 = s[3];
    let x = u32_from_le(s);
    assert(x == ((s0 as u32) | ((s1 as u32) << 8u32) | ((s2 as u32) << 16u32) | ((s3 as u32)
        << 24u32)));
    assert((x & 0xff) as u8 == s0 && ((x >> 8u32) & 0xff) as u8 == s1 && ((x >> 16u32)
        & 0xff) as u8 == s2 && ((x >> 24u32) & 0xff) as u8 == s3) by (bit_vector)
        requires
            x == ((s0 as u32) | ((s1 as u32) << 8u32) | ((s2 as u32) << 16u32) | ((s3 as u32)
                << 24u32)),
    ;
    assert(u32_le(x) =~= s);
}

/// Two bytes read little-endian stand for the first plus 256 times the second.
pub proof fn lemma_u16_from_le_value(s: Seq<u8>)
    requires
        s.len() >= 2,
    ensures
        u16_from_le(s) as int == s[0] + 256 * s[1],
{
    let s0 = s[0];
    let s1 = s[1];
    assert(((s0 as u16) | ((s1 as u16) << 8u16)) as u16 as int == s0 as int + 256 * (s1 as int))
        by (bit_vector);
}

/// Four bytes read little-endian stand for the sum of each byte times 256 to the power of its
/// position.
pub proof fn lemma_u32_from_le_value(s: Seq<u8>)
    requires
        s.len() >= 4,
    ensures
        u32_from_le(s) as int == s[0] + 256 * s[1] + 65536 * s[2] + 16777216 * s[3],
{
    let s0 = s[0];
    let s1 = s[1];
    let s2 = s[2];
    let s3 = s[3];
    assert(((s0 as u32) | ((s1 as u32) << 8u32) | ((s2 as u32) << 16u32) | ((s3 as u32) << 24u32))
        as u32 as int == s0 as int + 256 * (s1 as int) + 65536 * (s2 as int) + 16777216 * (
    s3 as int)) by (bit_vector);
}

/// Eight bytes read little-endian stand for the sum of each byte times 256 to the power of its
/// position.
pub proof fn lemma_u64_from_le_value(s: Seq<u8>)
    requires
        s.len() >= 8,
    ensures
        u64_from_le(s) as int == s[0] + 0x100 * s[1] + 0x1_0000 * s[2] + 0x100_0000 * s[3]
            + 0x1_0000_0000 * s[4] + 0x100_0000_0000 * s[5] + 0x1_0000_0000_0000 * s[6]
            + 0x100_0000_0000_0000 * s[7],
{
    let s0 = s[0];
    let s1 = s[1];
    let s2 = s[2];
    let s3 = s[3];
    let s4 = s[4];
    let s5 = s[5];
    let s6 = s[6];
    let s7 = s[7];
    assert(((s0 as u64) | ((s1 as u64) << 8u64) | ((s2 as u64) << 16u64) | ((s3 as u64) << 24u64)
        | ((s4 as u64) << 32u64) | ((s5 as u64) << 40u64) | ((s6 as u64) << 48u64) | ((s7 as u64)
        << 56u64)) as u64 as int == s0 as int + 0x100 * (s1 as int) + 0x1_0000 * (s2 as int)
        + 0x100_0000 * (s3 as int) + 0x1_0000_0000 * (s4 as int) + 0x100_0000_0000 * (s5 as int)
        + 0x1_0000_0000_0000 * (s6 as int) + 0x100_0000_0000_0000 * (s7 as int)) by (bit_vector);
}

/// Eight bytes are the big-endian bytes of the value they encode.
pub proof fn lemma_u64_from_be_roundtrip(s: Seq<u8>)
    requires
        s.len() == 8,
    ensures
        u64_be(u64_from_be(s)) == s,
{
    let s0 = s[0];
    let s1 = s[1];
    let s2 = s[2];
    let s3 = s[3];
    let s4 = s[4];
    let s5 = s[5];
    let s6 = s[6];
    let s7 = s[7];
    let x = u64_from_be(s);
    assert(x == (((s0 as u64) << 56u64) | ((s1 as u64) << 48u64) | ((s2 as u64) << 40u64) | ((
    s3 as u64) << 32u64) | ((s4 as u64) << 24u64) | ((s5 as u64) << 16u64) | ((s6 as u64)
        << 8u64) | (s7 as u64)));
    assert(((x >> 56u64) & 0xff) as u8 == s0 && ((x >> 48u64) & 0xff) as u8 == s1 && ((x
        >> 40u64) & 0xff) as u8 == s2 && ((x >> 32u64) & 0xff) as u8 == s3 && ((x >> 24u64)
        & 0xff) as u8 == s4 && ((x >> 16u64) & 0xff) as u8 == s5 && ((x >> 8u64) & 0xff) as u8
        == s6 && (x & 0xff) as u8 == s7) by (bit_vector)
        requires
            x == (((s0 as u64) << 56u64) | ((s1 as u64) << 48u64) | ((s2 as u64) << 40u64) | ((
            s3 as u64) << 32u64) | ((s4 as u64) << 24u64) | ((s5 as u64) << 16u64) | ((
            s6 as u64) << 8u64) | (s7 as u64)),
    ;
    assert(u64_be(x) =~= s);
}

/// Reading back the big-endian bytes of a 64-bit value gives the value.
pub proof fn lemma_u64_be_roundtrip(x: u64)
    ensures
        u64_be(x).len() == 8,
        u64_from_be(u64_be(x)) == x,
{
    let b0 = ((x >> 56u64) & 0xff) as u8;
    let b1 = ((x >> 48u64) & 0xff) as u8;
    let b2 = ((x >> 40u64) & 0xff) as u8;
    let b3 = ((x >> 32u64) & 0xff) as u8;
    let b4 = ((x >> 24u64) & 0xff) as u8;
    let b5 = ((x >> 16u64) & 0xff) as u8;
    let b6 = ((x >> 8u64) & 0xff) as u8;
    let b7 = (x & 0xff) as u8;
    assert((((b0 as u64) << 56u64) | ((b1 as u64) << 48u64) | ((b2 as u64) << 40u64) | ((
    b3 as u64) << 32u64) | ((b4 as u64) << 24u64) | ((b5 as u64) << 16u64) | ((b6 as u64)
        << 8u64) | (b7 as u64)) == x) by (bit_vector)
        requires
            b0 == ((x >> 56u64) & 0xff) as u8,
            b1 == ((x >> 48u64) & 0xff) as u8,
            b2 == ((x >> 40u64) & 0xff) as u8,
            b3 == ((x >> 32u64) & 0xff) as u8,
            b4 == ((x >> 24u64) & 0xff) as u8,
            b5 == ((x >> 16u64) & 0xff) as u8,
            b6 == ((x >> 8u64) & 0xff) as u8,
            b7 == (x & 0xff) as u8,
    ;
}

/// Writes the little-endian bytes of `x`.
pub fn u32_to_le_bytes(x: u32) -> (r: [u8; 4])
    ensures
        r@ == u32_le(x),
{
    let r = [(x & 0xff) as u8, ((x >> 8u32) & 0xff) as u8, ((x >> 16u32) & 0xff) as u8, ((x
        >> 24u32) & 0xff) as u8];
    assert(r@ =~= u32_le(x));
    r
}

/// Writes the little-endian bytes of `x`.
pub fn u64_to_le_bytes(x: u64) -> (r: [u8; 8])
    ensures
        r@ == u64_le(x),
{
    let r = [
        (x & 0xff) as u8,
        ((x >> 8u64) & 0xff) as u8,
        ((x >> 16u64) & 0xff) as u8,
        ((x >> 24u64) & 0xff) as u8,
        ((x >> 32u64) & 0xff) as u8,
        ((x >> 40u64) & 0xff) as u8,
        ((x >> 48u64) & 0xff) as u8,
        ((x >> 56u64) & 0xff) as u8,
    ];
    assert(r@ =~= u64_le(x));
    r
}

} // verus!
