//! Identity register.

use vstd::prelude::*;
use crate::address::I2cAddress;
use crate::bus::Transaction;

verus! {

/// Register index of the identity register.
pub const WHO_AM_I: u8 = 0x0F;

/// The identity register. It holds one byte, which the driver reads as
/// an address and holds against the address that it talks to.
pub struct WhoAmI;

impl WhoAmI {
    /// The identity that a byte stands for.
    pub open spec fn spec_decode(byte: u8) -> I2cAddress {
        I2cAddress(byte)
    }

    /// The byte that stands for an identity.
    pub open spec fn spec_encode(identity: I2cAddress) -> u8 {
        identity.0
    }

    /// The transaction that reads the register.
    pub open spec fn spec_read(address: I2cAddress) -> Transaction {
        Transaction::Read { address, register: WHO_AM_I, len: 1 }
    }

    /// Decodes the byte read from the register.
    pub fn decode(byte: u8) -> (identity: I2cAddress)
        ensures
            identity == Self::spec_decode(byte),
    {
        I2cAddress::new(byte)
    }

    /// The transaction that reads the register.
    pub fn read(address: I2cAddress) -> (tx: Transaction)
        ensures
            tx == Self::spec_read(address),
    {
        Transaction::Read { address, register: WHO_AM_I, len: 1 }
    }

    /// Decoding and encoding undo each other, for every identity and every
    /// byte: the register has no reserved bits.
    pub proof fn lemma_round_trip(identity: I2cAddress, byte: u8)
        ensures
            Self::spec_decode(Self::spec_encode(identity)) == identity,
            Self::spec_encode(Self::spec_decode(byte)) == byte,
    {
    }
}

} // verus!
