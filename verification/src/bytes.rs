//! Little-endian integers and additive checksums over byte strings.

use vstd::prelude::*;

verus! {

/// The 32-bit value stored little-endian in the four bytes starting at `at`.
pub open spec fn le_u32_at(bytes: Seq<u8>, at: int) -> int {
    bytes[at] as int + 0x100 * (bytes[at + 1] as int) + 0x1_0000 * (bytes[at + 2] as int)
        + 0x100_0000 * (bytes[at + 3] as int)
}

/// The 64-bit value stored little-endian in the eight bytes starting at `at`.
pub open spec fn le_u64_at(bytes: Seq<u8>, at: int) -> int {
    le_u32_at(bytes, at) + 0x1_0000_0000 * le_u32_at(bytes, at + 4)
}

/// The four bytes that store `value` little-endian.
pub open spec fn le_bytes_u32(value: u32) -> Seq<u8> {
    seq![
        (value % 0x100) as u8,
        (value / 0x100 % 0x100) as u8,
        (value / 0x1_0000 % 0x100) as u8,
        (value / 0x100_0000) as u8,
    ]
}

/// The eight bytes that store `value` little-endian.
pub open spec fn le_bytes_u64(value: u64) -> Seq<u8> {
    le_bytes_u32((value % 0x1_0000_0000) as u32) + le_bytes_u32((value / 0x1_0000_0000) as u32)
}

/// The sum of all bytes of `bytes`, as a mathematical integer.
pub open spec fn byte_sum(bytes: Seq<u8>) -> int
    decreases bytes.len(),
{
    if bytes.len() == 0 {
        0
    } else {
        byte_sum(bytes.drop_last()) + bytes.last() as int
    }
}

/// Reads a little-endian `u32` at byte offset `at`.
pub fn read_u32_le(bytes: &[u8], at: usize) -> (value: u32)
    requires
        at + 4 <= bytes.len(),
    ensures
        value as int == le_u32_at(bytes@, at as int),
{
    let b0: u32 = bytes[at] as u32;
    let b1: u32 = bytes[at + 1] as u32;
    let b2: u32 = bytes[at + 2] as u32;
    let b3: u32 = bytes[at + 3] as u32;
    b0 + 0x100 * b1 + 0x1_0000 * b2 + 0x100_0000 * b3
}

/// Reads a little-endian `u64` at byte offset `at`.
pub fn read_u64_le(bytes: &[u8], at: usize) -> (value: u64)
    requires
        at + 8 <= bytes.len(),
    ensures
        value as int == le_u64_at(bytes@, at as int),
{
    let low: u64 = read_u32_le(bytes, at) as u64;
    let high: u64 = read_u32_le(bytes, at + 4) as u64;
    low + 0x1_0000_0000 * high
}

/// Appends `value` to `out` as four little-endian bytes.
pub fn push_u32_le(out: &mut Vec<u8>, value: u32)
    ensures
        final(out)@ == old(out)@ + le_bytes_u32(value),
{
    out.push((value % 0x100) as u8);
    out.push((value / 0x100 % 0x100) as u8);
    out.push((value / 0x1_0000 % 0x100) as u8);
    out.push((value / 0x100_0000) as u8);
}

/// Appends `value` to `out` as eight little-endian bytes.
pub fn push_u64_le(out: &mut Vec<u8>, value: u64)
    ensures
        final(out)@ == old(out)@ + le_bytes_u64(value),
{
    push_u32_le(out, (value % 0x1_0000_0000) as u32);
    push_u32_le(out, (value / 0x1_0000_0000) as u32);
}

/// Appends the first `len` bytes of `source` to `out`.
pub fn push_bytes(out: &mut Vec<u8>, source: &[u8], len: usize)
    requires
        len <= source.len(),
    ensures
        final(out)@ == old(out)@ + source@.take(len as int),
{
    let mut i: usize = 0;
    while i < len
        invariant
            i <= len,
            len <= source.len(),
            out@ == old(out)@ + source@.take(i as int),
        decreases len - i,
    {
        out.push(source[i]);
        i += 1;
    }
}

/// A run of `count` zero bytes.
pub open spec fn zeros(count: nat) -> Seq<u8> {
    Seq::new(count, |i: int| 0u8)
}

/// Appends `count` zero bytes to `out`.
pub fn push_zeros(out: &mut Vec<u8>, count: usize)
    ensures
        final(out)@ == old(out)@ + zeros(count as nat),
{
    let mut i: usize = 0;
    while i < count
        invariant
            i <= count,
            out@ == old(out)@ + zeros(i as nat),
        decreases count - i,
    {
        out.push(0u8);
        i += 1;
    }
}

/// Decoding undoes encoding of a 32-bit value.
pub proof fn lemma_le_round_trip_u32(value: u32)
    ensures
        le_bytes_u32(value).len() == 4,
        le_u32_at(le_bytes_u32(value), 0) == value,
{
    assert(value % 0x100 + 0x100 * (value / 0x100 % 0x100) + 0x1_0000 * (value / 0x1_0000 % 0x100)
        + 0x100_0000 * (value / 0x100_0000) == value) by (bit_vector);
    assert(value / 0x100_0000 < 0x100) by (bit_vector);
}

/// Decoding undoes encoding of a 64-bit value.
pub proof fn lemma_le_round_trip_u64(value: u64)
    ensures
        le_bytes_u64(value).len() == 8,
        le_u64_at(le_bytes_u64(value), 0) == value,
{
    let low: u32 = (value % 0x1_0000_0000) as u32;
    let high: u32 = (value / 0x1_0000_0000) as u32;
    let bytes: Seq<u8> = le_bytes_u64(value);
    lemma_le_round_trip_u32(low);
    lemma_le_round_trip_u32(high);
    assert(le_u32_at(bytes, 0) == le_u32_at(le_bytes_u32(low), 0));
    assert(le_u32_at(bytes, 4) == le_u32_at(le_bytes_u32(high), 0));
}

/// Sums the first `len` bytes of `bytes`, wrapping at 256.
pub fn checksum(bytes: &[u8], len: usize) -> (sum: u8)
    requires
        len <= bytes.len(),
    ensures
        sum as int == byte_sum(bytes@.take(len as int)) % 256,
{
    let mut sum: u8 = 0;
    let mut i: usize = 0;
    while i < len
        invariant
            i <= len,
            len <= bytes.len(),
            sum as int == byte_sum(bytes@.take(i as int)) % 256,
        decreases len - i,
    {
        proof {
            assert(bytes@.take(i + 1).drop_last() == bytes@.take(i as int));
            assert(bytes@.take(i + 1).last() == bytes@[i as int]);
        }
        sum = sum.wrapping_add(bytes[i]);
        i += 1;
    }
    sum
}

/// Replacing one byte changes the sum by the difference of the two values.
pub proof fn lemma_byte_sum_update(bytes: Seq<u8>, at: int, value: u8)
    requires
        0 <= at < bytes.len(),
    ensures
        byte_sum(bytes.update(at, value)) == byte_sum(bytes) - bytes[at] + value,
    decreases bytes.len(),
{
    let changed: Seq<u8> = bytes.update(at, value);
    if at == bytes.len() - 1 {
        assert(changed.drop_last() == bytes.drop_last());
    } else {
        assert(changed.drop_last() == bytes.drop_last().update(at, value));
        lemma_byte_sum_update(bytes.drop_last(), at, value);
    }
}

} // verus!
