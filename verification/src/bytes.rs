//! Byte strings: big-endian integers, copies and concatenation.

use vstd::prelude::*;

verus! {

/// The value of `x` read as an unsigned 64-bit number in two's complement.
pub open spec fn twos_complement(x: int) -> int {
    if x >= 0 {
        x
    } else {
        x + 0x1_0000_0000_0000_0000
    }
}

/// The byte of weight `256^(7 - k)` of an unsigned 64-bit number.
pub open spec fn be_byte(u: int, k: int) -> u8 {
    if k == 0 {
        ((u / 0x100_0000_0000_0000) % 256) as u8
    } else if k == 1 {
        ((u / 0x1_0000_0000_0000) % 256) as u8
    } else if k == 2 {
        ((u / 0x100_0000_0000) % 256) as u8
    } else if k == 3 {
        ((u / 0x1_0000_0000) % 256) as u8
    } else if k == 4 {
        ((u / 0x100_0000) % 256) as u8
    } else if k == 5 {
        ((u / 0x1_0000) % 256) as u8
    } else if k == 6 {
        ((u / 0x100) % 256) as u8
    } else {
        (u % 256) as u8
    }
}

/// The eight bytes of a signed 64-bit number, most significant first, in
/// two's complement.
pub open spec fn be_bytes(x: int) -> Seq<u8> {
    Seq::new(8, |k: int| be_byte(twos_complement(x), k))
}

/// Appends to `out` the eight big-endian bytes of `x`.
pub fn push_be_bytes(out: &mut Vec<u8>, x: i64)
    ensures
        final(out)@ == old(out)@ + be_bytes(x as int),
{
    let u: u64 = if x >= 0 {
        x as u64
    } else {
        let low: i64 = x - i64::MIN;
        low as u64 + 0x8000_0000_0000_0000u64
    };
    assert(u == twos_complement(x as int));
    out.push(((u / 0x100_0000_0000_0000) % 256) as u8);
    out.push(((u / 0x1_0000_0000_0000) % 256) as u8);
    out.push(((u / 0x100_0000_0000) % 256) as u8);
    out.push(((u / 0x1_0000_0000) % 256) as u8);
    out.push(((u / 0x100_0000) % 256) as u8);
    out.push(((u / 0x1_0000) % 256) as u8);
    out.push(((u / 0x100) % 256) as u8);
    out.push((u % 256) as u8);
    assert(out@ =~= old(out)@ + be_bytes(x as int));
}

/// Appends to `out` every byte of `src`.
pub fn push_all(out: &mut Vec<u8>, src: &[u8])
    ensures
        final(out)@ == old(out)@ + src@,
{
    let n: usize = src.len();
    let mut i: usize = 0;
    while i < n
        invariant
            i <= n,
            n == src@.len(),
            out@ == old(out)@ + src@.subrange(0, i as int),
        decreases n - i,
    {
        out.push(src[i]);
        assert(out@ =~= old(out)@ + src@.subrange(0, i + 1));
        i += 1;
    }
    assert(src@.subrange(0, n as int) =~= src@);
}

/// A copy of the bytes of `src`.
pub fn copy_bytes(src: &[u8]) -> (r: Vec<u8>)
    ensures
        r@ == src@,
{
    let mut v: Vec<u8> = Vec::new();
    push_all(&mut v, src);
    assert(v@ =~= src@);
    v
}

} // verus!
