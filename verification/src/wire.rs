//! Fixed-width integers in network byte order.

use vstd::prelude::*;

verus! {

/// The number that two bytes denote, most significant byte first.
pub open spec fn spec_u16_be(s: Seq<u8>) -> u16
    recommends
        s.len() == 2,
{
    (s[0] as int * 0x100 + s[1] as int) as u16
}

/// The number that four bytes denote, most significant byte first.
pub open spec fn spec_u32_be(s: Seq<u8>) -> u32
    recommends
        s.len() == 4,
{
    (s[0] as int * 0x100_0000 + s[1] as int * 0x1_0000 + s[2] as int * 0x100 + s[3] as int) as u32
}

/// The number that eight bytes denote, most significant byte first.
pub open spec fn spec_u64_be(s: Seq<u8>) -> u64
    recommends
        s.len() == 8,
{
    (spec_u32_be(s.subrange(0, 4)) as int * 0x1_0000_0000 + spec_u32_be(s.subrange(4, 8)) as int) as u64
}

/// The two bytes of `x`, most significant first.
pub open spec fn spec_u16_bytes(x: u16) -> Seq<u8> {
    seq![(x / 0x100) as u8, (x % 0x100) as u8]
}

/// The four bytes of `x`, most significant first.
pub open spec fn spec_u32_bytes(x: u32) -> Seq<u8> {
    seq![
        (x / 0x100_0000) as u8,
        (x / 0x1_0000 % 0x100) as u8,
        (x / 0x100 % 0x100) as u8,
        (x % 0x100) as u8,
    ]
}

/// The eight bytes of `x`, most significant first.
pub open spec fn spec_u64_bytes(x: u64) -> Seq<u8> {
    spec_u32_bytes((x / 0x1_0000_0000) as u32) + spec_u32_bytes((x % 0x1_0000_0000) as u32)
}

/// The unsigned number whose 32 bits are those of `x` in two's complement.
pub open spec fn spec_i32_bits(x: i32) -> u32 {
    if x >= 0 {
        x as u32
    } else {
        (x + 0x1_0000_0000) as u32
    }
}

/// Decoding undoes encoding for a 16-bit number.
pub proof fn lemma_decode_encode_u16(x: u16)
    ensures
        spec_u16_be(spec_u16_bytes(x)) == x,
{
}

/// Decoding undoes encoding for a 32-bit number.
pub proof fn lemma_decode_encode_u32(x: u32)
    ensures
        spec_u32_be(spec_u32_bytes(x)) == x,
{
}

/// Decoding undoes encoding for a 64-bit number.
pub proof fn lemma_decode_encode_u64(x: u64)
    ensures
        spec_u64_be(spec_u64_bytes(x)) == x,
{
    let hi = (x / 0x1_0000_0000) as u32;
    let lo = (x % 0x1_0000_0000) as u32;
    lemma_decode_encode_u32(hi);
    lemma_decode_encode_u32(lo);
}

/// Reads the two bytes of `buf` at `at` as a big-endian number.
pub fn read_u16(buf: &[u8], at: usize) -> (x: u16)
    requires
        at + 2 <= buf.len(),
    ensures
        x == spec_u16_be(buf@.subrange(at as int, at + 2)),
{
    let b0 = buf[at] as u16;
    let b1 = buf[at + 1] as u16;
    b0 * 0x100 + b1
}

/// Reads the four bytes of `buf` at `at` as a big-endian number.
pub fn read_u32(buf: &[u8], at: usize) -> (x: u32)
    requires
        at + 4 <= buf.len(),
    ensures
        x == spec_u32_be(buf@.subrange(at as int, at + 4)),
{
    let b0 = buf[at] as u32;
    let b1 = buf[at + 1] as u32;
    let b2 = buf[at + 2] as u32;
    let b3 = buf[at + 3] as u32;
    b0 * 0x100_0000 + b1 * 0x1_0000 + b2 * 0x100 + b3
}

/// Reads the eight bytes of `buf` at `at` as a big-endian number.
pub fn read_u64(buf: &[u8], at: usize) -> (x: u64)
    requires
        at + 8 <= buf.len(),
    ensures
        x == spec_u64_be(buf@.subrange(at as int, at + 8)),
{
    let hi = read_u32(buf, at) as u64;
    let lo = read_u32(buf, at + 4) as u64;
    hi * 0x1_0000_0000 + lo
}

/// Appends the two bytes of `x`, most significant first.
pub fn put_u16(out: &mut Vec<u8>, x: u16)
    ensures
        final(out)@ == old(out)@ + spec_u16_bytes(x),
{
    out.push((x / 0x100) as u8);
    out.push((x % 0x100) as u8);
}

/// Appends the four bytes of `x`, most significant first.
pub fn put_u32(out: &mut Vec<u8>, x: u32)
    ensures
        final(out)@ == old(out)@ + spec_u32_bytes(x),
{
    out.push((x / 0x100_0000) as u8);
    out.push((x / 0x1_0000 % 0x100) as u8);
    out.push((x / 0x100 % 0x100) as u8);
    out.push((x % 0x100) as u8);
}

/// Appends the eight bytes of `x`, most significant first.
pub fn put_u64(out: &mut Vec<u8>, x: u64)
    ensures
        final(out)@ == old(out)@ + spec_u64_bytes(x),
{
    put_u32(out, (x / 0x1_0000_0000) as u32);
    put_u32(out, (x % 0x1_0000_0000) as u32);
}

/// The 32 bits of `x` in two's complement, as an unsigned number.
pub fn i32_bits(x: i32) -> (bits: u32)
    ensures
        bits == spec_i32_bits(x),
{
    if x >= 0 {
        x as u32
    } else {
        (x as i64 + 0x1_0000_0000) as u32
    }
}

/// Appends every byte of `bytes`, in order.
pub fn put_bytes(out: &mut Vec<u8>, bytes: &[u8])
    ensures
        final(out)@ == old(out)@ + bytes@,
{
    let mut i: usize = 0;
    while i < bytes.len()
        invariant
            i <= bytes@.len(),
            out@ == old(out)@ + bytes@.subrange(0, i as int),
        decreases bytes@.len() - i,
    {
        out.push(bytes[i]);
        i += 1;
    }
}

} // verus!
