//! The block descriptor record.
//!
//! A call across the boundary can hand back a single 32-bit word, so a block's
//! `(address, length)` pair is packed into one fixed record of eight bytes:
//! four bytes of address followed by four bytes of length, both little-endian.
//! Only the address of that record crosses the boundary.
use vstd::prelude::*;

verus! {

/// Length of a packed block descriptor, in bytes.
pub const RECORD_LEN: usize = 8;

/// The four little-endian bytes of a 32-bit word, lowest byte first.
pub open spec fn le_bytes(word: u32) -> Seq<u8> {
    seq![
        (word % 256) as u8,
        ((word / 256) % 256) as u8,
        ((word / 65536) % 256) as u8,
        (word / 16777216) as u8,
    ]
}

/// The number that four little-endian bytes starting at `at` stand for.
pub open spec fn le_word(bytes: Seq<u8>, at: int) -> int
    recommends
        0 <= at,
        at + 4 <= bytes.len(),
{
    bytes[at] + 256 * bytes[at + 1] + 65536 * bytes[at + 2] + 16777216 * bytes[at + 3]
}

/// The record for a block at `offset` that is `size` bytes long.
pub open spec fn packed(offset: u32, size: u32) -> Seq<u8> {
    le_bytes(offset) + le_bytes(size)
}

/// The `(address, length)` pair that a record stands for.
pub open spec fn unpacked(record: Seq<u8>) -> (u32, u32)
    recommends
        record.len() == RECORD_LEN,
{
    (le_word(record, 0) as u32, le_word(record, 4) as u32)
}

/// Writes the four little-endian bytes of `word` at the end of `out`.
fn push_le(out: &mut Vec<u8>, word: u32)
    ensures
        final(out)@ == old(out)@ + le_bytes(word),
{
    out.push((word % 256) as u8);
    out.push(((word / 256) % 256) as u8);
    out.push(((word / 65536) % 256) as u8);
    out.push((word / 16777216) as u8);
    assert(out@ =~= old(out)@ + le_bytes(word));
}

/// Reads the little-endian word whose four bytes start at `at`.
fn read_le(bytes: &[u8], at: usize) -> (word: u32)
    requires
        at + 4 <= bytes@.len(),
    ensures
        word == le_word(bytes@, at as int),
{
    let b0: u32 = bytes[at] as u32;
    let b1: u32 = bytes[at + 1] as u32;
    let b2: u32 = bytes[at + 2] as u32;
    let b3: u32 = bytes[at + 3] as u32;
    b0 + 256 * b1 + 65536 * b2 + 16777216 * b3
}

/// Packs a block's address and length into its eight-byte record.
pub fn pack_parts(offset: u32, size: u32) -> (record: Vec<u8>)
    ensures
        record@ == packed(offset, size),
        record@.len() == RECORD_LEN,
{
    let mut record: Vec<u8> = Vec::with_capacity(RECORD_LEN);
    push_le(&mut record, offset);
    push_le(&mut record, size);
    assert(record@ =~= packed(offset, size));
    record
}

/// Reads a block's address and length back out of a record. A byte string of
/// any other length than eight is no record.
pub fn unpack_parts(record: &[u8]) -> (parts: Option<(u32, u32)>)
    ensures
        parts is Some <==> record@.len() == RECORD_LEN,
        parts matches Some(pair) ==> pair == unpacked(record@),
{
    if record.len() != RECORD_LEN {
        return None;
    }
    let offset = read_le(record, 0);
    let size = read_le(record, 4);
    Some((offset, size))
}

/// Four little-endian bytes stand for the word they were made from.
pub proof fn lemma_le_word_of_le_bytes(word: u32)
    ensures
        le_bytes(word).len() == 4,
        le_word(le_bytes(word), 0) == word,
{
}

/// Unpacking a packed record gives back the address and the length:
/// `unpacked(packed(offset, size)) == (offset, size)`.
pub proof fn lemma_unpack_pack(offset: u32, size: u32)
    ensures
        packed(offset, size).len() == RECORD_LEN,
        unpacked(packed(offset, size)) == (offset, size),
{
    lemma_le_word_of_le_bytes(offset);
    lemma_le_word_of_le_bytes(size);
    let record = packed(offset, size);
    assert(record[0] == le_bytes(offset)[0]);
    assert(record[1] == le_bytes(offset)[1]);
    assert(record[2] == le_bytes(offset)[2]);
    assert(record[3] == le_bytes(offset)[3]);
    assert(record[4] == le_bytes(size)[0]);
    assert(record[5] == le_bytes(size)[1]);
    assert(record[6] == le_bytes(size)[2]);
    assert(record[7] == le_bytes(size)[3]);
}

/// The digits of a number written in base 256 are found again by dividing.
proof fn lemma_base_256_digits(b0: int, b1: int, b2: int, b3: int)
    requires
        0 <= b0 < 256,
        0 <= b1 < 256,
        0 <= b2 < 256,
        0 <= b3 < 256,
    ensures
        ({
            let word = b0 + 256 * b1 + 65536 * b2 + 16777216 * b3;
            &&& 0 <= word < 0x1_0000_0000
            &&& word % 256 == b0
            &&& (word / 256) % 256 == b1
            &&& (word / 65536) % 256 == b2
            &&& word / 16777216 == b3
        }),
{
}

/// The little-endian bytes of the word that four bytes stand for are those
/// four bytes.
proof fn lemma_le_bytes_of_le_word(bytes: Seq<u8>, at: int)
    requires
        0 <= at,
        at + 4 <= bytes.len(),
    ensures
        0 <= le_word(bytes, at) < 0x1_0000_0000,
        le_bytes(le_word(bytes, at) as u32) == bytes.subrange(at, at + 4),
{
    lemma_base_256_digits(
        bytes[at] as int,
        bytes[at + 1] as int,
        bytes[at + 2] as int,
        bytes[at + 3] as int,
    );
    assert(le_bytes(le_word(bytes, at) as u32) =~= bytes.subrange(at, at + 4));
}

/// Packing what a record unpacks to gives back the record: no two records
/// stand for the same pair.
pub proof fn lemma_pack_unpack(record: Seq<u8>)
    requires
        record.len() == RECORD_LEN,
    ensures
        packed(unpacked(record).0, unpacked(record).1) == record,
{
    lemma_le_bytes_of_le_word(record, 0);
    lemma_le_bytes_of_le_word(record, 4);
    assert(record.subrange(0, 4) + record.subrange(4, 8) =~= record);
}

} // verus!
