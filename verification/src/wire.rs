//! Multi-byte integer fields as they appear on the wire: little-endian and
//! big-endian 16-bit values and little-endian 32-bit values, with the lemmas
//! that make the two directions inverse to each other.

use vstd::prelude::*;

verus! {

/// The 16-bit value stored little-endian as the bytes `lo`, `hi`.
pub open spec fn le16(lo: u8, hi: u8) -> u16 {
    (lo + hi * 0x100) as u16
}

/// The 16-bit value stored big-endian as the bytes `hi`, `lo`.
pub open spec fn be16(hi: u8, lo: u8) -> u16 {
    (lo + hi * 0x100) as u16
}

/// The 32-bit value stored little-endian as the bytes `b0` .. `b3`.
pub open spec fn le32(b0: u8, b1: u8, b2: u8, b3: u8) -> u32 {
    (b0 + b1 * 0x100 + b2 * 0x1_0000 + b3 * 0x100_0000) as u32
}

/// Low byte of a 16-bit value.
pub open spec fn lo16(v: u16) -> u8 {
    (v % 0x100) as u8
}

/// High byte of a 16-bit value.
pub open spec fn hi16(v: u16) -> u8 {
    (v / 0x100) as u8
}

/// Byte `i` (0 = least significant) of a 32-bit value.
pub open spec fn byte32(v: u32, i: int) -> u8 {
    if i == 0 {
        (v % 0x100) as u8
    } else if i == 1 {
        ((v / 0x100) % 0x100) as u8
    } else if i == 2 {
        ((v / 0x1_0000) % 0x100) as u8
    } else {
        ((v / 0x100_0000) % 0x100) as u8
    }
}

pub broadcast proof fn lemma_le16_of_bytes(lo: u8, hi: u8)
    ensures
        lo16(#[trigger] le16(lo, hi)) == lo,
        hi16(le16(lo, hi)) == hi,
{
    assert(lo16(le16(lo, hi)) == lo && hi16(le16(lo, hi)) == hi) by (nonlinear_arith);
}

pub broadcast proof fn lemma_le16_of_value(v: u16)
    ensures
        #[trigger] le16(lo16(v), hi16(v)) == v,
{
    assert(le16(lo16(v), hi16(v)) == v) by (nonlinear_arith);
}

pub broadcast proof fn lemma_be16_of_bytes(hi: u8, lo: u8)
    ensures
        hi16(#[trigger] be16(hi, lo)) == hi,
        lo16(be16(hi, lo)) == lo,
{
    assert(be16(hi, lo) == le16(lo, hi));
    lemma_le16_of_bytes(lo, hi);
}

pub broadcast proof fn lemma_be16_of_value(v: u16)
    ensures
        #[trigger] be16(hi16(v), lo16(v)) == v,
{
    assert(be16(hi16(v), lo16(v)) == le16(lo16(v), hi16(v)));
    lemma_le16_of_value(v);
}

pub broadcast proof fn lemma_le32_of_bytes(b0: u8, b1: u8, b2: u8, b3: u8)
    ensures
        byte32(#[trigger] le32(b0, b1, b2, b3), 0) == b0,
        byte32(le32(b0, b1, b2, b3), 1) == b1,
        byte32(le32(b0, b1, b2, b3), 2) == b2,
        byte32(le32(b0, b1, b2, b3), 3) == b3,
{
    let n = le32(b0, b1, b2, b3) as int;
    let s1 = b1 + b2 * 0x100 + b3 * 0x1_0000;
    let s2 = b2 + b3 * 0x100;
    assert(n == b0 + s1 * 0x100);
    assert(n % 0x100 == b0 && n / 0x100 == s1) by (nonlinear_arith)
        requires
            n == b0 + s1 * 0x100,
            0 <= b0 < 0x100,
            0 <= s1,
    ;
    assert(s1 % 0x100 == b1) by (nonlinear_arith)
        requires
            s1 == b1 + s2 * 0x100,
            0 <= b1 < 0x100,
            0 <= s2,
    ;
    assert(n / 0x1_0000 == s2) by (nonlinear_arith)
        requires
            n == (b0 + b1 * 0x100) + s2 * 0x1_0000,
            0 <= b0 + b1 * 0x100 < 0x1_0000,
            0 <= s2,
    ;
    assert(s2 % 0x100 == b2) by (nonlinear_arith)
        requires
            s2 == b2 + b3 * 0x100,
            0 <= b2 < 0x100,
            0 <= b3,
    ;
    assert(n / 0x100_0000 == b3) by (nonlinear_arith)
        requires
            n == (b0 + b1 * 0x100 + b2 * 0x1_0000) + b3 * 0x100_0000,
            0 <= b0 + b1 * 0x100 + b2 * 0x1_0000 < 0x100_0000,
            0 <= b3,
    ;
    assert((b3 as int) % 0x100 == b3) by (nonlinear_arith)
        requires
            0 <= (b3 as int) < 0x100,
    ;
}

pub broadcast proof fn lemma_le32_of_value(v: u32)
    ensures
        #[trigger] le32(byte32(v, 0), byte32(v, 1), byte32(v, 2), byte32(v, 3)) == v,
{
    assert(le32(byte32(v, 0), byte32(v, 1), byte32(v, 2), byte32(v, 3)) == v) by (nonlinear_arith);
}

/// Assembles a 16-bit value from its little-endian wire bytes.
pub fn u16_from_le(lo: u8, hi: u8) -> (v: u16)
    ensures
        v == le16(lo, hi),
{
    lo as u16 + hi as u16 * 0x100
}

/// Assembles a 16-bit value from its big-endian wire bytes.
pub fn u16_from_be(hi: u8, lo: u8) -> (v: u16)
    ensures
        v == be16(hi, lo),
{
    lo as u16 + hi as u16 * 0x100
}

/// Assembles a 32-bit value from its little-endian wire bytes.
pub fn u32_from_le(b0: u8, b1: u8, b2: u8, b3: u8) -> (v: u32)
    ensures
        v == le32(b0, b1, b2, b3),
{
    b0 as u32 + b1 as u32 * 0x100 + b2 as u32 * 0x1_0000 + b3 as u32 * 0x100_0000
}

/// Splits a 16-bit value into its low and high bytes.
pub fn u16_to_bytes(v: u16) -> (r: (u8, u8))
    ensures
        r.0 == lo16(v),
        r.1 == hi16(v),
{
    ((v % 0x100) as u8, (v / 0x100) as u8)
}

/// Splits a 32-bit value into its four bytes, least significant first.
pub fn u32_to_bytes(v: u32) -> (r: (u8, u8, u8, u8))
    ensures
        r.0 == byte32(v, 0),
        r.1 == byte32(v, 1),
        r.2 == byte32(v, 2),
        r.3 == byte32(v, 3),
{
    (
        (v % 0x100) as u8,
        ((v / 0x100) % 0x100) as u8,
        ((v / 0x1_0000) % 0x100) as u8,
        ((v / 0x100_0000) % 0x100) as u8,
    )
}

} // verus!
