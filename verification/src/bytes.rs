use vstd::prelude::*;

verus! {

/// Low byte of a 16-bit value.
pub open spec fn lo8(x: u16) -> u8 {
    (x % 256) as u8
}

/// High byte of a 16-bit value.
pub open spec fn hi8(x: u16) -> u8 {
    (x / 256) as u8
}

/// `x + y` modulo 2^8.
pub open spec fn wadd8(x: u8, y: int) -> u8 {
    ((x + y) % 256) as u8
}

/// `x + y` modulo 2^16.
pub open spec fn wadd16(x: u16, y: int) -> u16 {
    ((x + y) % 65536) as u16
}

/// `x + y` modulo 2^32.
pub open spec fn wadd32(x: u32, y: int) -> u32 {
    ((x + y) % 0x1_0000_0000) as u32
}

/// Little-endian 16-bit value of two bytes.
pub open spec fn le16(lo: u8, hi: u8) -> u16 {
    (lo + 256 * hi) as u16
}

/// Low byte of a 16-bit value.
pub fn lo_byte(x: u16) -> (r: u8)
    ensures
        r == lo8(x),
{
    (x % 256) as u8
}

/// High byte of a 16-bit value.
pub fn hi_byte(x: u16) -> (r: u8)
    ensures
        r == hi8(x),
{
    (x / 256) as u8
}

/// Little-endian pair of bytes into a 16-bit value.
pub fn from_le(lo: u8, hi: u8) -> (r: u16)
    ensures
        r == le16(lo, hi),
        lo8(r) == lo,
        hi8(r) == hi,
{
    (lo as u16) + 256 * (hi as u16)
}

/// `x + y` modulo 2^8.
pub fn add8(x: u8, y: u8) -> (r: u8)
    ensures
        r == wadd8(x, y as int),
{
    x.wrapping_add(y)
}

/// `x + y` modulo 2^16.
pub fn add16(x: u16, y: u16) -> (r: u16)
    ensures
        r == wadd16(x, y as int),
{
    x.wrapping_add(y)
}

/// Two wrapping additions on 16 bits are one addition of the sum.
pub proof fn lemma_wadd16_twice(x: u16, a: int, b: int)
    requires
        a >= 0,
        b >= 0,
    ensures
        wadd16(wadd16(x, a), b) == wadd16(x, a + b),
{
    assert(((x + a) % 65536 + b) % 65536 == (x + a + b) % 65536) by (nonlinear_arith)
        requires
            a >= 0,
            b >= 0,
            x >= 0,
    ;
}

/// Two wrapping additions on 8 bits are one addition of the sum.
pub proof fn lemma_wadd8_twice(x: u8, a: int, b: int)
    requires
        a >= 0,
        b >= 0,
    ensures
        wadd8(wadd8(x, a), b) == wadd8(x, a + b),
{
    assert(((x + a) % 256 + b) % 256 == (x + a + b) % 256) by (nonlinear_arith)
        requires
            a >= 0,
            b >= 0,
            x >= 0,
    ;
}

/// A byte and its successor modulo 2^8 never coincide, and the successor of `0xff` is `0`.
pub proof fn lemma_wadd8_one(x: u8)
    ensures
        wadd8(x, 1) != x,
        x == 0xff ==> wadd8(x, 1) == 0,
        x < 0xff ==> wadd8(x, 1) == x + 1,
{
}

/// Appends the bytes of `other` to `v`.
pub fn append_bytes(v: &mut Vec<u8>, other: &[u8])
    ensures
        final(v)@ == old(v)@ + other@,
{
    let mut i: usize = 0;
    while i < other.len()
        invariant
            0 <= i <= other.len(),
            v@ == old(v)@ + other@.subrange(0, i as int),
        decreases other.len() - i,
    {
        v.push(other[i]);
        i = i + 1;
        assert(other@.subrange(0, i as int) == other@.subrange(0, i - 1) + seq![other@[i - 1]]);
    }
    assert(other@.subrange(0, other@.len() as int) == other@);
}

/// A copy of `v`.
pub fn copy_bytes(v: &Vec<u8>) -> (r: Vec<u8>)
    ensures
        r@ == v@,
{
    let mut r: Vec<u8> = Vec::new();
    append_bytes(&mut r, v.as_slice());
    r
}

} // verus!
