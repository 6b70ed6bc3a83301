//! The raw instance record and its byte image.

use vstd::prelude::*;

verus! {

/// One instance as the vertex stage reads it: five rows of four 32-bit words. Rows 0 to 3 are
/// the columns of the homogeneous transform, row 4 is the RGBA colour. Each word is the bit
/// pattern of an IEEE 754 single-precision number.
pub type RawInstance = [[u32; 4]; 5];

/// Rows of the transform part of a record.
pub const TRANSFORM_ROWS: usize = 4;

/// Words in one row of a record.
pub const ROW_WORDS: usize = 4;

/// Words in one record.
pub const RECORD_WORDS: usize = 20;

/// Bytes in one record.
pub const RECORD_BYTES: usize = 80;

/// The record all of whose words are zero.
pub open spec fn zero_record() -> RawInstance {
    vstd::array::spec_array_fill_for_copy_type::<[u32; 4], 5>(
        vstd::array::spec_array_fill_for_copy_type::<u32, 4>(0u32),
    )
}

/// Every word of the zero record is zero.
pub proof fn lemma_zero_record_words()
    ensures
        forall|row: int, col: int| 0 <= row < 5 && 0 <= col < 4 ==> zero_record()[row][col] == 0u32,
{
}

/// The record a slot holds before anything was written to it.
pub fn default_record() -> (record: RawInstance)
    ensures
        record == zero_record(),
{
    [[0u32; 4]; 5]
}

/// The record of an instance: the four columns of its transform first, its colour last.
pub open spec fn record_of(transform: [[u32; 4]; 4], color: [u32; 4]) -> RawInstance {
    [transform[0], transform[1], transform[2], transform[3], color]
}

/// Lays a transform and a colour out as one record.
pub fn raw_instance(transform: [[u32; 4]; 4], color: [u32; 4]) -> (record: RawInstance)
    ensures
        record == record_of(transform, color),
        forall|row: int| 0 <= row < 4 ==> record[row] == transform[row],
        record[4] == color,
{
    [transform[0], transform[1], transform[2], transform[3], color]
}

/// The `word`-th 32-bit word of a sequence of records, counted row by row.
pub open spec fn word_at(records: Seq<RawInstance>, word: int) -> u32 {
    records[word / 20][(word % 20) / 4][word % 4]
}

/// Byte `k` of a word, counted from the least significant one.
pub open spec fn word_byte(word: u32, k: int) -> u8 {
    if k == 0 {
        (word % 256) as u8
    } else if k == 1 {
        ((word / 256) % 256) as u8
    } else if k == 2 {
        ((word / 65536) % 256) as u8
    } else {
        ((word / 16777216) % 256) as u8
    }
}

/// The records as bytes, each word with its least significant byte first.
pub open spec fn little_endian_image(records: Seq<RawInstance>) -> Seq<u8> {
    Seq::new(80 * records.len(), |i: int| word_byte(word_at(records, i / 4), i % 4))
}

/// The records as bytes, each word with its most significant byte first.
pub open spec fn big_endian_image(records: Seq<RawInstance>) -> Seq<u8> {
    Seq::new(80 * records.len(), |i: int| word_byte(word_at(records, i / 4), 3 - i % 4))
}

/// `bytes` is the memory image of `records` in one of the two byte orders a machine can have.
pub open spec fn is_byte_image(bytes: Seq<u8>, records: Seq<RawInstance>) -> bool {
    bytes == little_endian_image(records) || bytes == big_endian_image(records)
}

/// Calls `bytemuck::cast_slice`, which views the memory of the records as bytes without copying.
/// Trusted: the bytes are the words of the records in storage order, each word in the byte
/// order of the machine. The cast cannot fail, since a byte has alignment 1 and size 1.
#[verifier::external_body]
fn cast_records(records: &[RawInstance]) -> (bytes: &[u8])
    ensures
        is_byte_image(bytes@, records@),
{
    bytemuck::cast_slice(records)
}

/// The bytes that go to the vertex buffer for `records`: 80 for each record.
pub fn record_bytes(records: &Vec<RawInstance>) -> (bytes: &[u8])
    ensures
        is_byte_image(bytes@, records@),
        bytes@.len() == RECORD_BYTES * records@.len(),
{
    cast_records(records.as_slice())
}

} // verus!
