//! Big-endian (network order) encodings of the fixed-width integers.

use vstd::prelude::*;

verus! {

/// The two bytes of `v`, most significant first.
pub open spec fn be16(v: u16) -> Seq<u8> {
    seq![(v >> 8u16) as u8, v as u8]
}

/// The four bytes of `v`, most significant first.
pub open spec fn be32(v: u32) -> Seq<u8> {
    seq![(v >> 24u32) as u8, (v >> 16u32) as u8, (v >> 8u32) as u8, v as u8]
}

/// The eight bytes of `v`, most significant first.
pub open spec fn be64(v: u64) -> Seq<u8> {
    seq![
        (v >> 56u64) as u8,
        (v >> 48u64) as u8,
        (v >> 40u64) as u8,
        (v >> 32u64) as u8,
        (v >> 24u64) as u8,
        (v >> 16u64) as u8,
        (v >> 8u64) as u8,
        v as u8,
    ]
}

/// The value of the first two bytes of `s`, read most significant first.
pub open spec fn u16_at(s: Seq<u8>) -> u16 {
    ((s[0] as u16) << 8u16) | (s[1] as u16)
}

/// The value of the first four bytes of `s`, read most significant first.
pub open spec fn u32_at(s: Seq<u8>) -> u32 {
    ((s[0] as u32) << 24u32) | ((s[1] as u32) << 16u32) | ((s[2] as u32) << 8u32) | (s[3] as u32)
}

/// The value of the first eight bytes of `s`, read most significant first.
pub open spec fn u64_at(s: Seq<u8>) -> u64 {
    ((s[0] as u64) << 56u64) | ((s[1] as u64) << 48u64) | ((s[2] as u64) << 40u64) | ((
    s[3] as u64) << 32u64) | ((s[4] as u64) << 24u64) | ((s[5] as u64) << 16u64) | ((s[6] as u64)
        << 8u64) | (s[7] as u64)
}

/// Decoding the encoding of a 16-bit value gives the value back.
pub proof fn lemma_u16_round_trip(v: u16)
    ensures
        u16_at(be16(v)) == v,
{
    let hi = (v >> 8u16) as u8;
    let lo = v as u8;
    assert((((hi as u16) << 8u16) | (lo as u16)) == v) by (bit_vector)
        requires
            hi == (v >> 8u16) as u8,
            lo == v as u8,
    ;
}

/// Decoding the encoding of a 32-bit value gives the value back.
pub proof fn lemma_u32_round_trip(v: u32)
    ensures
        u32_at(be32(v)) == v,
{
    let b0 = (v >> 24u32) as u8;
    let b1 = (v >> 16u32) as u8;
    let b2 = (v >> 8u32) as u8;
    let b3 = v as u8;
    assert((((b0 as u32) << 24u32) | ((b1 as u32) << 16u32) | ((b2 as u32) << 8u32) | (b3 as u32))
        == v) by (bit_vector)
        requires
            b0 == (v >> 24u32) as u8,
            b1 == (v >> 16u32) as u8,
            b2 == (v >> 8u32) as u8,
            b3 == v as u8,
    ;
}

/// Decoding the encoding of a 64-bit value gives the value back.
pub proof fn lemma_u64_round_trip(v: u64)
    ensures
        u64_at(be64(v)) == v,
{
    let b0 = (v >> 56u64) as u8;
    let b1 = (v >> 48u64) as u8;
    let b2 = (v >> 40u64) as u8;
    let b3 = (v >> 32u64) as u8;
    let b4 = (v >> 24u64) as u8;
    let b5 = (v >> 16u64) as u8;
    let b6 = (v >> 8u64) as u8;
    let b7 = v as u8;
    assert((((b0 as u64) << 56u64) | ((b1 as u64) << 48u64) | ((b2 as u64) << 40u64) | ((
    b3 as u64) << 32u64) | ((b4 as u64) << 24u64) | ((b5 as u64) << 16u64) | ((b6 as u64)
        << 8u64) | (b7 as u64)) == v) by (bit_vector)
        requires
            b0 == (v >> 56u64) as u8,
            b1 == (v >> 48u64) as u8,
            b2 == (v >> 40u64) as u8,
            b3 == (v >> 32u64) as u8,
            b4 == (v >> 24u64) as u8,
            b5 == (v >> 16u64) as u8,
            b6 == (v >> 8u64) as u8,
            b7 == v as u8,
    ;
}

/// A signed 8-bit value survives its two's-complement reinterpretation.
pub proof fn lemma_i8_bits(v: i8)
    ensures
        (v as u8) as i8 == v,
{
    assert((v as u8) as i8 == v) by (bit_vector);
}

/// A signed 16-bit value survives its two's-complement reinterpretation.
pub proof fn lemma_i16_bits(v: i16)
    ensures
        (v as u16) as i16 == v,
{
    assert((v as u16) as i16 == v) by (bit_vector);
}

/// A signed 32-bit value survives its two's-complement reinterpretation.
pub proof fn lemma_i32_bits(v: i32)
    ensures
        (v as u32) as i32 == v,
{
    assert((v as u32) as i32 == v) by (bit_vector);
}

/// What a read of a `u8` yields on the readable bytes `s`.
pub open spec fn peek_u8(s: Seq<u8>) -> Option<u8> {
    if s.len() >= 1 { Some(s[0]) } else { None }
}

/// What a read of an `i8` yields on the readable bytes `s`.
pub open spec fn peek_i8(s: Seq<u8>) -> Option<i8> {
    if s.len() >= 1 { Some(s[0] as i8) } else { None }
}

/// What a read of a `u16` yields on the readable bytes `s`.
pub open spec fn peek_u16(s: Seq<u8>) -> Option<u16> {
    if s.len() >= 2 { Some(u16_at(s)) } else { None }
}

/// What a read of an `i16` yields on the readable bytes `s`.
pub open spec fn peek_i16(s: Seq<u8>) -> Option<i16> {
    if s.len() >= 2 { Some(u16_at(s) as i16) } else { None }
}

/// What a read of a `u32` yields on the readable bytes `s`.
pub open spec fn peek_u32(s: Seq<u8>) -> Option<u32> {
    if s.len() >= 4 { Some(u32_at(s)) } else { None }
}

/// What a read of an `i32` yields on the readable bytes `s`.
pub open spec fn peek_i32(s: Seq<u8>) -> Option<i32> {
    if s.len() >= 4 { Some(u32_at(s) as i32) } else { None }
}

/// What a read of a `u64` yields on the readable bytes `s`.
pub open spec fn peek_u64(s: Seq<u8>) -> Option<u64> {
    if s.len() >= 8 { Some(u64_at(s)) } else { None }
}

/// A `u8` appended to an empty buffer reads back as itself; and reading
/// it with consumption leaves as many bytes readable as before the append.
pub proof fn law_u8_round_trip(s: Seq<u8>, v: u8)
    ensures
        s.len() == 0 ==> peek_u8(s + seq![v]) == Some(v),
        (s + seq![v]).skip(1).len() == s.len(),
{
    if s.len() == 0 {
        assert(s + seq![v] =~= seq![v]);
    }
}

/// A `i8` appended to an empty buffer reads back as itself; and reading
/// it with consumption leaves as many bytes readable as before the append.
pub proof fn law_i8_round_trip(s: Seq<u8>, v: i8)
    ensures
        s.len() == 0 ==> peek_i8(s + seq![v as u8]) == Some(v),
        (s + seq![v as u8]).skip(1).len() == s.len(),
{
        lemma_i8_bits(v);
    if s.len() == 0 {
        assert(s + seq![v as u8] =~= seq![v as u8]);
    }
}

/// A `u16` appended to an empty buffer reads back as itself; and reading
/// it with consumption leaves as many bytes readable as before the append.
pub proof fn law_u16_round_trip(s: Seq<u8>, v: u16)
    ensures
        s.len() == 0 ==> peek_u16(s + be16(v)) == Some(v),
        (s + be16(v)).skip(2).len() == s.len(),
{
    lemma_u16_round_trip(v);
    if s.len() == 0 {
        assert(s + be16(v) =~= be16(v));
    }
}

/// A `i16` appended to an empty buffer reads back as itself; and reading
/// it with consumption leaves as many bytes readable as before the append.
pub proof fn law_i16_round_trip(s: Seq<u8>, v: i16)
    ensures
        s.len() == 0 ==> peek_i16(s + be16(v as u16)) == Some(v),
        (s + be16(v as u16)).skip(2).len() == s.len(),
{
        lemma_i16_bits(v);
    lemma_u16_round_trip(v as u16);
    if s.len() == 0 {
        assert(s + be16(v as u16) =~= be16(v as u16));
    }
}

/// A `u32` appended to an empty buffer reads back as itself; and reading
/// it with consumption leaves as many bytes readable as before the append.
pub proof fn law_u32_round_trip(s: Seq<u8>, v: u32)
    ensures
        s.len() == 0 ==> peek_u32(s + be32(v)) == Some(v),
        (s + be32(v)).skip(4).len() == s.len(),
{
    lemma_u32_round_trip(v);
    if s.len() == 0 {
        assert(s + be32(v) =~= be32(v));
    }
}

/// A `i32` appended to an empty buffer reads back as itself; and reading
/// it with consumption leaves as many bytes readable as before the append.
pub proof fn law_i32_round_trip(s: Seq<u8>, v: i32)
    ensures
        s.len() == 0 ==> peek_i32(s + be32(v as u32)) == Some(v),
        (s + be32(v as u32)).skip(4).len() == s.len(),
{
        lemma_i32_bits(v);
    lemma_u32_round_trip(v as u32);
    if s.len() == 0 {
        assert(s + be32(v as u32) =~= be32(v as u32));
    }
}

/// A `u64` appended to an empty buffer reads back as itself; and reading
/// it with consumption leaves as many bytes readable as before the append.
pub proof fn law_u64_round_trip(s: Seq<u8>, v: u64)
    ensures
        s.len() == 0 ==> peek_u64(s + be64(v)) == Some(v),
        (s + be64(v)).skip(8).len() == s.len(),
{
    lemma_u64_round_trip(v);
    if s.len() == 0 {
        assert(s + be64(v) =~= be64(v));
    }
}

} // verus!
