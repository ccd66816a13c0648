//! Byte orders used on the wire: little- and big-endian encodings of
//! unsigned words, as sequences of bytes.
use vstd::prelude::*;

verus! {

/// The 4 little-endian bytes of `x`.
pub open spec fn le_u32(x: u32) -> Seq<u8> {
    seq![
        (x % 0x100) as u8,
        (x / 0x100 % 0x100) as u8,
        (x / 0x1_0000 % 0x100) as u8,
        (x / 0x100_0000) as u8,
    ]
}

/// The number that 4 little-endian bytes stand for.
pub open spec fn le_u32_value(b: Seq<u8>) -> u32 {
    (b[0] + b[1] * 0x100 + b[2] * 0x1_0000 + b[3] * 0x100_0000) as u32
}

/// The 2 little-endian bytes of `x`.
pub open spec fn le_u16(x: u16) -> Seq<u8> {
    seq![(x % 0x100) as u8, (x / 0x100) as u8]
}

/// The number that 2 little-endian bytes stand for.
pub open spec fn le_u16_value(b: Seq<u8>) -> u16 {
    (b[0] + b[1] * 0x100) as u16
}

/// The 2 big-endian bytes of `x`.
pub open spec fn be_u16(x: u16) -> Seq<u8> {
    seq![(x / 0x100) as u8, (x % 0x100) as u8]
}

/// The number that 2 big-endian bytes stand for.
pub open spec fn be_u16_value(b: Seq<u8>) -> u16 {
    (b[0] * 0x100 + b[1]) as u16
}

/// Little-endian bytes of a `u32` (as `u32::to_le_bytes`).
pub fn u32_to_le(x: u32) -> (r: [u8; 4])
    ensures
        r@ == le_u32(x),
{
    let r = [
        (x % 0x100) as u8,
        (x / 0x100 % 0x100) as u8,
        (x / 0x1_0000 % 0x100) as u8,
        (x / 0x100_0000) as u8,
    ];
    assert(r@ =~= le_u32(x));
    r
}

/// `u32` from little-endian bytes (as `u32::from_le_bytes`).
pub fn u32_from_le(b: [u8; 4]) -> (r: u32)
    ensures
        r == le_u32_value(b@),
{
    b[0] as u32 + b[1] as u32 * 0x100 + b[2] as u32 * 0x1_0000 + b[3] as u32 * 0x100_0000
}

/// Little-endian bytes of a `u16` (as `u16::to_le_bytes`).
pub fn u16_to_le(x: u16) -> (r: [u8; 2])
    ensures
        r@ == le_u16(x),
{
    let r = [(x % 0x100) as u8, (x / 0x100) as u8];
    assert(r@ =~= le_u16(x));
    r
}

/// `u16` from little-endian bytes (as `u16::from_le_bytes`).
pub fn u16_from_le(b: [u8; 2]) -> (r: u16)
    ensures
        r == le_u16_value(b@),
{
    b[0] as u16 + b[1] as u16 * 0x100
}

/// Big-endian bytes of a `u16` (as `u16::to_be_bytes`).
pub fn u16_to_be(x: u16) -> (r: [u8; 2])
    ensures
        r@ == be_u16(x),
{
    let r = [(x / 0x100) as u8, (x % 0x100) as u8];
    assert(r@ =~= be_u16(x));
    r
}

/// `u16` from big-endian bytes (as `u16::from_be_bytes`).
pub fn u16_from_be(b: [u8; 2]) -> (r: u16)
    ensures
        r == be_u16_value(b@),
{
    b[0] as u16 * 0x100 + b[1] as u16
}

/// Reading back the little-endian bytes of a `u32` gives the `u32`.
pub proof fn lemma_le_u32_roundtrip(x: u32)
    ensures
        le_u32_value(le_u32(x)) == x,
        le_u32(x).len() == 4,
        le_u32(x)[0] + le_u32(x)[1] * 0x100 + le_u32(x)[2] * 0x1_0000 + le_u32(x)[3] * 0x100_0000 == x,
        le_u32(x)[0] == x % 0x100,
{
}

/// Writing the number that 4 bytes stand for gives the bytes back.
pub proof fn lemma_le_u32_value_roundtrip(b: Seq<u8>)
    requires
        b.len() == 4,
    ensures
        le_u32(le_u32_value(b)) == b,
{
    let v: int = b[0] + b[1] * 0x100 + b[2] * 0x1_0000 + b[3] * 0x100_0000;
    let h1: int = b[1] + b[2] * 0x100 + b[3] * 0x1_0000;
    let h2: int = b[2] + b[3] * 0x100;
    lemma_split_byte(b[0] as int, h1);
    lemma_split_byte(b[1] as int, h2);
    lemma_split_byte(b[2] as int, b[3] as int);
    assert(v == b[0] + h1 * 0x100);
    assert(h1 == b[1] + h2 * 0x100);
    assert(v / 0x1_0000 == h2) by {
        lemma_div_twice(v, h1, h2);
    }
    assert(v / 0x100_0000 == b[3] as int) by {
        lemma_div_twice(v, h1, h2);
        lemma_div_thrice(v);
    }
    assert(le_u32(le_u32_value(b)) =~= b);
}

/// Splitting off the low byte of `lo + 256 * hi`.
proof fn lemma_split_byte(lo: int, hi: int) by (nonlinear_arith)
    requires
        0 <= lo < 0x100,
        0 <= hi,
    ensures
        (lo + hi * 0x100) % 0x100 == lo,
        (lo + hi * 0x100) / 0x100 == hi,
{
}

proof fn lemma_div_twice(v: int, h1: int, h2: int) by (nonlinear_arith)
    requires
        0 <= v,
        v / 0x100 == h1,
        h1 / 0x100 == h2,
    ensures
        v / 0x1_0000 == h2,
{
}

proof fn lemma_div_thrice(v: int) by (nonlinear_arith)
    requires
        0 <= v,
    ensures
        v / 0x100_0000 == v / 0x1_0000 / 0x100,
{
}

/// Reading back the little-endian bytes of a `u16` gives the `u16`.
pub proof fn lemma_le_u16_roundtrip(x: u16)
    ensures
        le_u16_value(le_u16(x)) == x,
        le_u16(x).len() == 2,
        le_u16(x)[0] + le_u16(x)[1] * 0x100 == x,
        le_u16(x)[0] == x % 0x100,
{
}

/// Writing the number that 2 little-endian bytes stand for gives them back.
pub proof fn lemma_le_u16_value_roundtrip(b: Seq<u8>)
    requires
        b.len() == 2,
    ensures
        le_u16(le_u16_value(b)) == b,
{
    assert(le_u16(le_u16_value(b)) =~= b);
}

/// Reading back the big-endian bytes of a `u16` gives the `u16`.
pub proof fn lemma_be_u16_roundtrip(x: u16)
    ensures
        be_u16_value(be_u16(x)) == x,
        be_u16(x).len() == 2,
        be_u16(x)[0] * 0x100 + be_u16(x)[1] == x,
        be_u16(x)[1] == x % 0x100,
{
}

/// Writing the number that 2 big-endian bytes stand for gives them back.
pub proof fn lemma_be_u16_value_roundtrip(b: Seq<u8>)
    requires
        b.len() == 2,
    ensures
        be_u16(be_u16_value(b)) == b,
{
    assert(be_u16(be_u16_value(b)) =~= b);
}

} // verus!
