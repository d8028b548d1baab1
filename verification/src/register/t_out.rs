//! Temperature output register.

use vstd::prelude::*;
use crate::address::I2cAddress;
use crate::bus::Transaction;
use crate::word::{i16_from_le, i16_to_le, spec_i16_from_le, spec_i16_to_le};

verus! {

/// Register index of the temperature output, with the flag that makes the
/// device step to the next register after each byte.
pub const T_OUT: u8 = 0xAA;

/// The temperature output register: one raw code of two bytes, low byte
/// first.
pub struct Tout;

impl Tout {
    /// The raw code that the register's bytes stand for.
    pub open spec fn spec_decode(bytes: Seq<u8>) -> i16 {
        spec_i16_from_le(bytes)
    }

    /// The bytes that stand for a raw code.
    pub open spec fn spec_encode(code: i16) -> Seq<u8> {
        spec_i16_to_le(code)
    }

    /// Decodes the bytes read from the register.
    pub fn decode(bytes: [u8; 2]) -> (code: i16)
        ensures
            code == Self::spec_decode(bytes@),
    {
        i16_from_le(bytes)
    }

    /// Encodes a raw code as the bytes that the register would read as.
    pub fn encode(code: i16) -> (bytes: [u8; 2])
        ensures
            bytes@ == Self::spec_encode(code),
    {
        i16_to_le(code)
    }

    /// The transaction that reads the register.
    pub fn read(address: I2cAddress) -> (tx: Transaction)
        ensures
            tx == (Transaction::Read { address, register: T_OUT, len: 2 }),
    {
        Transaction::Read { address, register: T_OUT, len: 2 }
    }

    /// Decoding and encoding undo each other, for every raw code and every
    /// two bytes: the register has no reserved bits.
    pub proof fn lemma_round_trip(code: i16, bytes: Seq<u8>)
        requires
            bytes.len() == 2,
        ensures
            Self::spec_decode(Self::spec_encode(code)) == code,
            Self::spec_encode(Self::spec_decode(bytes)) == bytes,
    {
        crate::word::lemma_i16_from_to_le(code);
        crate::word::lemma_i16_to_from_le(bytes);
    }
}

} // verus!
