//! Signed 16-bit words in little-endian byte order, as the device stores
//! every multi-byte register.

use vstd::prelude::*;

verus! {

/// The word that two bytes stand for, low byte first. Only the first two
/// bytes of `bytes` are read.
pub open spec fn spec_i16_from_le(bytes: Seq<u8>) -> i16 {
    let unsigned = bytes[0] as int + 256 * (bytes[1] as int);
    if unsigned < 32768 {
        unsigned as i16
    } else {
        (unsigned - 65536) as i16
    }
}

/// The two bytes that stand for a word, low byte first.
pub open spec fn spec_i16_to_le(value: i16) -> Seq<u8> {
    let unsigned = if value < 0 { value + 65536 } else { value as int };
    seq![(unsigned % 256) as u8, (unsigned / 256) as u8]
}

/// Decodes a word from its two bytes, low byte first.
pub fn i16_from_le(bytes: [u8; 2]) -> (value: i16)
    ensures
        value == spec_i16_from_le(bytes@),
{
    let unsigned: i32 = bytes[0] as i32 + 256 * (bytes[1] as i32);
    if unsigned < 32768 {
        unsigned as i16
    } else {
        (unsigned - 65536) as i16
    }
}

/// Encodes a word as its two bytes, low byte first.
pub fn i16_to_le(value: i16) -> (bytes: [u8; 2])
    ensures
        bytes@ == spec_i16_to_le(value),
{
    let unsigned: i32 = if value < 0 { value as i32 + 65536 } else { value as i32 };
    let bytes: [u8; 2] = [(unsigned % 256) as u8, (unsigned / 256) as u8];
    assert(bytes@ =~= spec_i16_to_le(value));
    bytes
}

/// Decoding what was encoded gives the word back, for every word.
pub proof fn lemma_i16_from_to_le(value: i16)
    ensures
        spec_i16_to_le(value).len() == 2,
        spec_i16_from_le(spec_i16_to_le(value)) == value,
{
}

/// Encoding what was decoded gives the two bytes back, for every pair of
/// bytes.
pub proof fn lemma_i16_to_from_le(bytes: Seq<u8>)
    requires
        bytes.len() == 2,
    ensures
        spec_i16_to_le(spec_i16_from_le(bytes)) == bytes,
{
    assert(spec_i16_to_le(spec_i16_from_le(bytes)) =~= bytes);
}

} // verus!
