//! Little-endian 32-bit values in byte buffers: what reading and writing one
//! means, the two routines, and the facts about byte sequences that the record
//! codec's proofs rest on.

use vstd::prelude::*;

verus! {

/// The 32-bit value whose little-endian bytes stand at `bytes[at..at + 4]`.
pub open spec fn le_u32(bytes: Seq<u8>, at: int) -> u32 {
    (bytes[at] + 0x100 * bytes[at + 1] + 0x1_0000 * bytes[at + 2] + 0x100_0000 * bytes[at + 3]) as u32
}

/// The four bytes of `value`, least significant first.
pub open spec fn le_bytes(value: u32) -> Seq<u8> {
    seq![
        (value % 0x100) as u8,
        (value / 0x100 % 0x100) as u8,
        (value / 0x1_0000 % 0x100) as u8,
        (value / 0x100_0000) as u8,
    ]
}

/// Reads the little-endian 32-bit value at `bytes[at..at + 4]`.
pub(crate) fn read_u32_le(bytes: &[u8], at: usize) -> (value: u32)
    requires
        at + 4 <= bytes@.len(),
    ensures
        value == le_u32(bytes@, at as int),
{
    let b0: u32 = bytes[at] as u32;
    let b1: u32 = bytes[at + 1] as u32;
    let b2: u32 = bytes[at + 2] as u32;
    let b3: u32 = bytes[at + 3] as u32;
    assert((b0 | b1 << 8 | b2 << 16 | b3 << 24) == b0 + 0x100 * b1 + 0x1_0000 * b2 + 0x100_0000 * b3)
        by (bit_vector)
        requires
            b0 < 0x100,
            b1 < 0x100,
            b2 < 0x100,
            b3 < 0x100,
    ;
    b0 | b1 << 8 | b2 << 16 | b3 << 24
}

/// Appends the four bytes of `value` to `out`, least significant first.
pub(crate) fn write_u32_le(out: &mut Vec<u8>, value: u32)
    ensures
        final(out)@ == old(out)@ + le_bytes(value),
{
    assert(value & 0xff == value % 0x100 && (value >> 8) & 0xff == value / 0x100 % 0x100 && (value
        >> 16) & 0xff == value / 0x1_0000 % 0x100 && value >> 24 == value / 0x100_0000 && value
        >> 24 < 0x100) by (bit_vector);
    out.push((value & 0xff) as u8);
    out.push(((value >> 8) & 0xff) as u8);
    out.push(((value >> 16) & 0xff) as u8);
    out.push((value >> 24) as u8);
    assert(out@ =~= old(out)@ + le_bytes(value));
}

/// The digits of a four-digit number in base 256 are its bytes.
proof fn lemma_base_256_digits(b0: u8, b1: u8, b2: u8, b3: u8)
    by (bit_vector)
    ensures
        ({
            let value = b0 + 0x100 * b1 + 0x1_0000 * b2 + 0x100_0000 * b3;
            &&& 0 <= value <= u32::MAX
            &&& value % 0x100 == b0
            &&& value / 0x100 % 0x100 == b1
            &&& value / 0x1_0000 % 0x100 == b2
            &&& value / 0x100_0000 == b3
        }),
{
}

/// A 32-bit value is the four-digit number in base 256 that its bytes spell.
proof fn lemma_value_of_digits(value: u32)
    by (bit_vector)
    ensures
        value % 0x100 + 0x100 * (value / 0x100 % 0x100) + 0x1_0000 * (value / 0x1_0000 % 0x100)
            + 0x100_0000 * (value / 0x100_0000) == value,
        value / 0x100_0000 < 0x100,
{
}

/// Reading back the bytes of a value gives the value.
pub proof fn lemma_le_u32_of_le_bytes(value: u32)
    ensures
        le_bytes(value).len() == 4,
        le_u32(le_bytes(value), 0) == value,
{
    lemma_value_of_digits(value);
}

/// Writing out the value read from four bytes gives those bytes.
pub proof fn lemma_le_bytes_of_le_u32(bytes: Seq<u8>, at: int)
    requires
        0 <= at,
        at + 4 <= bytes.len(),
    ensures
        le_bytes(le_u32(bytes, at)) == bytes.subrange(at, at + 4),
{
    lemma_base_256_digits(bytes[at], bytes[at + 1], bytes[at + 2], bytes[at + 3]);
    assert(le_bytes(le_u32(bytes, at)) =~= bytes.subrange(at, at + 4));
}

/// A value is read wherever its bytes stand.
pub proof fn lemma_le_u32_where_bytes_stand(bytes: Seq<u8>, at: int, value: u32)
    requires
        0 <= at,
        at + 4 <= bytes.len(),
        bytes.subrange(at, at + 4) == le_bytes(value),
    ensures
        le_u32(bytes, at) == value,
{
    let part = bytes.subrange(at, at + 4);
    assert(part[0] == bytes[at] && part[1] == bytes[at + 1] && part[2] == bytes[at + 2] && part[3]
        == bytes[at + 3]);
    lemma_le_u32_of_le_bytes(value);
}

/// Where a stretch of a buffer is two sequences one after the other, each of
/// them stands in the buffer at its place.
pub proof fn lemma_stretch_splits(bytes: Seq<u8>, at: int, first: Seq<u8>, second: Seq<u8>)
    requires
        0 <= at,
        at + first.len() + second.len() <= bytes.len(),
        bytes.subrange(at, at + first.len() + second.len()) == first + second,
    ensures
        bytes.subrange(at, at + first.len()) == first,
        bytes.subrange(at + first.len(), at + first.len() + second.len()) == second,
{
    let n = first.len() as int;
    let m = second.len() as int;
    let whole = bytes.subrange(at, at + n + m);
    assert(bytes.subrange(at, at + n) =~= whole.subrange(0, n));
    assert(whole.subrange(0, n) =~= first);
    assert(bytes.subrange(at + n, at + n + m) =~= whole.subrange(n, n + m));
    assert(whole.subrange(n, n + m) =~= second);
}

/// Two stretches of a buffer that touch make one stretch.
pub proof fn lemma_stretches_join(bytes: Seq<u8>, from: int, mid: int, to: int)
    requires
        0 <= from <= mid <= to <= bytes.len(),
    ensures
        bytes.subrange(from, mid) + bytes.subrange(mid, to) == bytes.subrange(from, to),
{
    assert(bytes.subrange(from, mid) + bytes.subrange(mid, to) =~= bytes.subrange(from, to));
}

} // verus!
