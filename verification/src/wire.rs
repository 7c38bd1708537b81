//! Byte-level building blocks of the wire format: alignment padding,
//! null-terminated strings and big-endian words.

use vstd::prelude::*;

verus! {

/// Every region of a message is aligned to this many bytes.
pub const ALIGNMENT: usize = 4;

/// Number of zero bytes that bring a region of `len` bytes up to the next
/// multiple of four (none if it is already aligned).
pub open spec fn padding(len: nat) -> nat {
    ((4 - len % 4) % 4) as nat
}

/// A run of `n` zero bytes.
pub open spec fn zeros(n: nat) -> Seq<u8> {
    Seq::new(n, |i: int| 0u8)
}

/// `bytes` followed by the fewest zero bytes that make its length a multiple
/// of four.
pub open spec fn padded(bytes: Seq<u8>) -> Seq<u8> {
    bytes + zeros(padding(bytes.len()))
}

/// The wire form of a string: its bytes, one terminating zero byte, then
/// alignment padding.
pub open spec fn osc_string(text: Seq<u8>) -> Seq<u8> {
    padded(text.push(0u8))
}

/// The four bytes of `word`, most significant first.
pub open spec fn be_bytes(word: u32) -> Seq<u8> {
    seq![
        (word / 0x100_0000) as u8,
        (word / 0x1_0000 % 0x100) as u8,
        (word / 0x100 % 0x100) as u8,
        (word % 0x100) as u8,
    ]
}

/// The unsigned word with the same two's-complement bit pattern as `value`.
pub open spec fn twos_complement(value: i32) -> u32 {
    if value >= 0 {
        value as u32
    } else {
        (value + 0x1_0000_0000) as u32
    }
}

/// A padded region is aligned, and padding adds at most three bytes.
pub proof fn lemma_padded_len(bytes: Seq<u8>)
    ensures
        padded(bytes).len() % 4 == 0,
        bytes.len() <= padded(bytes).len() < bytes.len() + 4,
        bytes.len() % 4 == 0 ==> padded(bytes) == bytes,
{
}

/// Appends zero bytes to `bytes` until its length is a multiple of four.
pub fn pad(bytes: &mut Vec<u8>)
    ensures
        final(bytes)@ == padded(old(bytes)@),
{
    let ghost start = bytes@;
    while bytes.len() % ALIGNMENT != 0
        invariant
            start.len() <= bytes@.len() <= start.len() + padding(start.len()),
            bytes@ == start + zeros((bytes@.len() - start.len()) as nat),
        decreases start.len() + padding(start.len()) - bytes@.len(),
    {
        bytes.push(0);
    }
}

/// Appends a copy of `src` to `dst`.
pub fn extend(dst: &mut Vec<u8>, src: &[u8])
    ensures
        final(dst)@ == old(dst)@ + src@,
{
    let ghost start = dst@;
    let mut i: usize = 0;
    while i < src.len()
        invariant
            i <= src@.len(),
            dst@ == start + src@.subrange(0, i as int),
        decreases src@.len() - i,
    {
        dst.push(src[i]);
        i += 1;
    }
}

/// Inserts `count` zero bytes at index `at`, moving every byte at or after
/// `at` towards the end by `count`.
pub fn insert_zeros(bytes: &mut Vec<u8>, at: usize, count: usize)
    requires
        at <= old(bytes)@.len(),
    ensures
        final(bytes)@ == old(bytes)@.subrange(0, at as int) + zeros(count as nat) + old(
            bytes,
        )@.subrange(at as int, old(bytes)@.len() as int),
{
    let ghost start = bytes@;
    let mut done: usize = 0;
    while done < count
        invariant
            at <= start.len(),
            done <= count,
            bytes@ == start.subrange(0, at as int) + zeros(done as nat) + start.subrange(
                at as int,
                start.len() as int,
            ),
        decreases count - done,
    {
        bytes.insert(at, 0);
        done += 1;
    }
}

/// Appends the four bytes of `word` to `dst`, most significant first.
pub fn push_be_word(dst: &mut Vec<u8>, word: u32)
    ensures
        final(dst)@ == old(dst)@ + be_bytes(word),
{
    let b0: u8 = (word >> 24) as u8;
    let b1: u8 = ((word >> 16) & 0xff) as u8;
    let b2: u8 = ((word >> 8) & 0xff) as u8;
    let b3: u8 = (word & 0xff) as u8;
    assert(word >> 24 == word / 0x100_0000 && (word >> 24) < 0x100) by (bit_vector);
    assert((word >> 16) & 0xff == word / 0x1_0000 % 0x100) by (bit_vector);
    assert((word >> 8) & 0xff == word / 0x100 % 0x100) by (bit_vector);
    assert(word & 0xff == word % 0x100) by (bit_vector);
    dst.push(b0);
    dst.push(b1);
    dst.push(b2);
    dst.push(b3);
}

/// Reinterprets a signed word as the unsigned word with the same bits.
pub fn to_unsigned(value: i32) -> (word: u32)
    ensures
        word == twos_complement(value),
{
    assert(value >= 0 ==> value as u32 == value) by (bit_vector);
    assert(value < 0 ==> value as u32 == value + 0x1_0000_0000) by (bit_vector);
    value as u32
}

} // verus!
