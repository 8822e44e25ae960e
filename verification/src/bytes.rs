//! Numbers as bytes, least significant byte first: reading them from a
//! buffer and appending them to one.

use vstd::prelude::*;

verus! {

/// The 16-bit little-endian number at `at`.
pub open spec fn le_u16(bytes: Seq<u8>, at: int) -> int {
    bytes[at] as int + 0x100 * bytes[at + 1] as int
}

/// The 32-bit little-endian number at `at`.
pub open spec fn le_u32(bytes: Seq<u8>, at: int) -> int {
    le_u16(bytes, at) + 0x1_0000 * le_u16(bytes, at + 2)
}

/// The 64-bit little-endian number at `at`.
pub open spec fn le_u64(bytes: Seq<u8>, at: int) -> int {
    le_u32(bytes, at) + 0x1_0000_0000 * le_u32(bytes, at + 4)
}

/// Byte `i` of the little-endian form of `value`.
pub open spec fn le_byte(value: u64, i: int) -> u8 {
    if i == 0 {
        (value as int % 0x100) as u8
    } else if i == 1 {
        (value as int / 0x100 % 0x100) as u8
    } else if i == 2 {
        (value as int / 0x1_0000 % 0x100) as u8
    } else if i == 3 {
        (value as int / 0x100_0000 % 0x100) as u8
    } else if i == 4 {
        (value as int / 0x1_0000_0000 % 0x100) as u8
    } else if i == 5 {
        (value as int / 0x100_0000_0000 % 0x100) as u8
    } else if i == 6 {
        (value as int / 0x1_0000_0000_0000 % 0x100) as u8
    } else {
        (value as int / 0x100_0000_0000_0000 % 0x100) as u8
    }
}

/// The eight bytes of `value`, least significant first.
pub open spec fn le_bytes(value: u64) -> Seq<u8> {
    Seq::new(8, |i: int| le_byte(value, i))
}

/// Reading back the little-endian form of a number gives the number.
pub proof fn lemma_le_round_trip(value: u64)
    ensures
        le_u64(le_bytes(value), 0) == value,
{
    let b = le_bytes(value);
    assert(b[0] == le_byte(value, 0));
    assert(b[1] == le_byte(value, 1));
    assert(b[2] == le_byte(value, 2));
    assert(b[3] == le_byte(value, 3));
    assert(b[4] == le_byte(value, 4));
    assert(b[5] == le_byte(value, 5));
    assert(b[6] == le_byte(value, 6));
    assert(b[7] == le_byte(value, 7));
    assert(value == value % 0x100 + 0x100 * (value / 0x100 % 0x100) + 0x1_0000 * (value / 0x1_0000
        % 0x100 + 0x100 * (value / 0x100_0000 % 0x100)) + 0x1_0000_0000 * (value / 0x1_0000_0000
        % 0x100 + 0x100 * (value / 0x100_0000_0000 % 0x100) + 0x1_0000 * (value
        / 0x1_0000_0000_0000 % 0x100 + 0x100 * (value / 0x100_0000_0000_0000 % 0x100))))
        by (bit_vector);
}

/// Reads the 16-bit little-endian number at `at`.
pub fn read_u16(bytes: &[u8], at: usize) -> (r: u16)
    requires
        at + 2 <= bytes@.len(),
    ensures
        r == le_u16(bytes@, at as int),
{
    let _len: usize = bytes.len();
    (bytes[at] as u16) + 0x100 * (bytes[at + 1] as u16)
}

/// Reads the 32-bit little-endian number at `at`.
pub fn read_u32(bytes: &[u8], at: usize) -> (r: u32)
    requires
        at + 4 <= bytes@.len(),
    ensures
        r == le_u32(bytes@, at as int),
{
    let _len: usize = bytes.len();
    (read_u16(bytes, at) as u32) + 0x1_0000 * (read_u16(bytes, at + 2) as u32)
}

/// Reads the 64-bit little-endian number at `at`.
pub fn read_u64(bytes: &[u8], at: usize) -> (r: u64)
    requires
        at + 8 <= bytes@.len(),
    ensures
        r == le_u64(bytes@, at as int),
{
    let _len: usize = bytes.len();
    (read_u32(bytes, at) as u64) + 0x1_0000_0000 * (read_u32(bytes, at + 4) as u64)
}

/// The four bytes of `v`, least significant first.
pub open spec fn le32(v: u32) -> Seq<u8> {
    seq![
        (v as int % 0x100) as u8,
        (v as int / 0x100 % 0x100) as u8,
        (v as int / 0x1_0000 % 0x100) as u8,
        (v as int / 0x100_0000 % 0x100) as u8,
    ]
}

/// The eight bytes of `v`, least significant first.
pub open spec fn le64(v: u64) -> Seq<u8> {
    le32((v as int % 0x1_0000_0000) as u32) + le32((v as int / 0x1_0000_0000) as u32)
}

/// The bytes of the words of `words`, one word after the other.
pub open spec fn words_wire(words: Seq<u32>) -> Seq<u8>
    decreases words.len(),
{
    if words.len() == 0 {
        Seq::empty()
    } else {
        words_wire(words.drop_last()) + le32(words.last())
    }
}

/// Appends the four bytes of `v`.
pub fn push_u32(buf: &mut Vec<u8>, v: u32)
    ensures
        final(buf)@ == old(buf)@ + le32(v),
{
    buf.push((v % 0x100) as u8);
    buf.push((v / 0x100 % 0x100) as u8);
    buf.push((v / 0x1_0000 % 0x100) as u8);
    buf.push((v / 0x100_0000 % 0x100) as u8);
    assert(buf@ =~= old(buf)@ + le32(v));
}

/// Appends the eight bytes of `v`.
pub fn push_u64(buf: &mut Vec<u8>, v: u64)
    ensures
        final(buf)@ == old(buf)@ + le64(v),
{
    push_u32(buf, (v % 0x1_0000_0000) as u32);
    push_u32(buf, (v / 0x1_0000_0000) as u32);
    assert(buf@ =~= old(buf)@ + le64(v));
}

/// Each word takes four bytes.
pub proof fn lemma_words_wire_len(words: Seq<u32>)
    ensures
        words_wire(words).len() == 4 * words.len(),
    decreases words.len(),
{
    if words.len() > 0 {
        lemma_words_wire_len(words.drop_last());
    }
}

/// Appends the bytes of every word of `words`.
pub fn push_words(buf: &mut Vec<u8>, words: &[u32])
    ensures
        final(buf)@ == old(buf)@ + words_wire(words@),
        final(buf)@.len() == old(buf)@.len() + 4 * words@.len(),
{
    proof {
        lemma_words_wire_len(words@);
    }
    let mut i: usize = 0;
    assert(words@.take(0) =~= Seq::empty());
    assert(buf@ =~= old(buf)@ + words_wire(words@.take(0)));
    while i < words.len()
        invariant
            i <= words@.len(),
            buf@ == old(buf)@ + words_wire(words@.take(i as int)),
        decreases words@.len() - i,
    {
        assert(words@.take(i + 1).drop_last() =~= words@.take(i as int));
        let ghost before = buf@;
        push_u32(buf, words[i]);
        assert(buf@ =~= old(buf)@ + words_wire(words@.take(i + 1))) by {
            assert(words_wire(words@.take(i + 1)) == words_wire(words@.take(i as int)) + le32(
                words@[i as int],
            ));
        }
        i += 1;
    }
    assert(words@.take(i as int) =~= words@);
}

} // verus!
