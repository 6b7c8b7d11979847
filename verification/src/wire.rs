//! Big-endian integers on the wire.
//!
//! Every multi-byte field of a TLP header is sent most significant byte
//! first, whatever the byte order of the host.

use vstd::prelude::*;

verus! {

/// The two bytes of `x`, most significant first.
pub open spec fn be16(x: u16) -> Seq<u8> {
    seq![(x / 0x100) as u8, (x % 0x100) as u8]
}

/// The four bytes of `x`, most significant first.
pub open spec fn be32(x: u32) -> Seq<u8> {
    seq![
        (x / 0x100_0000) as u8,
        ((x / 0x1_0000) % 0x100) as u8,
        ((x / 0x100) % 0x100) as u8,
        (x % 0x100) as u8,
    ]
}

/// The eight bytes of `x`, most significant first.
pub open spec fn be64(x: u64) -> Seq<u8> {
    be32((x / 0x1_0000_0000) as u32) + be32((x % 0x1_0000_0000) as u32)
}

/// The number whose big-endian bytes are `b[at]` and `b[at + 1]`.
pub open spec fn from_be16(b: Seq<u8>, at: int) -> u16 {
    (b[at] * 0x100 + b[at + 1]) as u16
}

/// The number whose big-endian bytes are `b[at] .. b[at + 3]`.
pub open spec fn from_be32(b: Seq<u8>, at: int) -> u32 {
    (b[at] * 0x100_0000 + b[at + 1] * 0x1_0000 + b[at + 2] * 0x100 + b[at + 3]) as u32
}

/// The number whose big-endian bytes are `b[at] .. b[at + 7]`.
pub open spec fn from_be64(b: Seq<u8>, at: int) -> u64 {
    (from_be32(b, at) * 0x1_0000_0000 + from_be32(b, at + 4)) as u64
}

/// Reading back what `be16` wrote gives the number again.
pub proof fn lemma_be16_round_trip(x: u16)
    ensures
        from_be16(be16(x), 0) == x,
        be16(x).len() == 2,
{
}

/// Reading back what `be32` wrote gives the number again.
pub proof fn lemma_be32_round_trip(x: u32)
    ensures
        from_be32(be32(x), 0) == x,
        be32(x).len() == 4,
{
}

/// Reading back what `be64` wrote gives the number again.
pub proof fn lemma_be64_round_trip(x: u64)
    ensures
        from_be64(be64(x), 0) == x,
        be64(x).len() == 8,
{
    let hi = (x / 0x1_0000_0000) as u32;
    let lo = (x % 0x1_0000_0000) as u32;
    lemma_be32_round_trip(hi);
    lemma_be32_round_trip(lo);
    let b = be64(x);
    assert(from_be32(b, 0) == from_be32(be32(hi), 0));
    assert(from_be32(b, 4) == from_be32(be32(lo), 0));
}

/// Appends the big-endian bytes of `x` to `out`.
pub fn put_be16(out: &mut Vec<u8>, x: u16)
    ensures
        final(out)@ == old(out)@ + be16(x),
{
    let hi: u16 = x >> 8;
    let lo: u16 = x & 0xff;
    assert(hi == x / 0x100 && lo == x % 0x100 && hi < 0x100) by (bit_vector)
        requires
            hi == x >> 8,
            lo == x & 0xff,
    ;
    out.push(hi as u8);
    out.push(lo as u8);
    assert(out@ =~= old(out)@ + be16(x));
}

/// Appends the big-endian bytes of `x` to `out`.
pub fn put_be32(out: &mut Vec<u8>, x: u32)
    ensures
        final(out)@ == old(out)@ + be32(x),
{
    let b0: u32 = x >> 24;
    let b1: u32 = (x >> 16) & 0xff;
    let b2: u32 = (x >> 8) & 0xff;
    let b3: u32 = x & 0xff;
    assert(b0 == x / 0x100_0000 && b1 == (x / 0x1_0000) % 0x100 && b2 == (x / 0x100) % 0x100 && b3
        == x % 0x100 && b0 < 0x100) by (bit_vector)
        requires
            b0 == x >> 24,
            b1 == (x >> 16) & 0xff,
            b2 == (x >> 8) & 0xff,
            b3 == x & 0xff,
    ;
    out.push(b0 as u8);
    out.push(b1 as u8);
    out.push(b2 as u8);
    out.push(b3 as u8);
    assert(out@ =~= old(out)@ + be32(x));
}

/// Appends the big-endian bytes of `x` to `out`.
pub fn put_be64(out: &mut Vec<u8>, x: u64)
    ensures
        final(out)@ == old(out)@ + be64(x),
{
    let hi: u64 = x >> 32;
    let lo: u64 = x & 0xffff_ffff;
    assert(hi == x / 0x1_0000_0000 && lo == x % 0x1_0000_0000 && hi <= 0xffff_ffff) by (bit_vector)
        requires
            hi == x >> 32,
            lo == x & 0xffff_ffff,
    ;
    put_be32(out, hi as u32);
    put_be32(out, lo as u32);
    assert(out@ =~= old(out)@ + be64(x));
}

/// Reads the big-endian number at `b[at]` and `b[at + 1]`.
pub fn get_be16(b: &[u8], at: usize) -> (x: u16)
    requires
        at + 2 <= b.len(),
    ensures
        x == from_be16(b@, at as int),
{
    let hi: u16 = b[at] as u16;
    let lo: u16 = b[at + 1] as u16;
    hi * 0x100 + lo
}

/// Reads the big-endian number at `b[at] .. b[at + 3]`.
pub fn get_be32(b: &[u8], at: usize) -> (x: u32)
    requires
        at + 4 <= b.len(),
    ensures
        x == from_be32(b@, at as int),
{
    let b0: u32 = b[at] as u32;
    let b1: u32 = b[at + 1] as u32;
    let b2: u32 = b[at + 2] as u32;
    let b3: u32 = b[at + 3] as u32;
    b0 * 0x100_0000 + b1 * 0x1_0000 + b2 * 0x100 + b3
}

/// Reads the big-endian number at `b[at] .. b[at + 7]`.
pub fn get_be64(b: &[u8], at: usize) -> (x: u64)
    requires
        at + 8 <= b.len(),
    ensures
        x == from_be64(b@, at as int),
{
    let hi: u64 = get_be32(b, at) as u64;
    let lo: u64 = get_be32(b, at + 4) as u64;
    hi * 0x1_0000_0000 + lo
}

} // verus!
