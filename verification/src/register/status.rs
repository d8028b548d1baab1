//! Status register: which samples are waiting to be read.

use vstd::prelude::*;
use crate::address::I2cAddress;
use crate::bus::Transaction;

verus! {

/// Register index of the status register.
pub const STATUS: u8 = 0x27;

/// The bits of the status register that carry a meaning.
pub const STATUS_DEFINED_BITS: u8 = 0b0000_0011;

/// Decoded contents of the status register.
#[derive(Clone, Copy, Debug, PartialEq, Eq, Structural)]
pub struct Status {
    /// Bit 0: a temperature sample is waiting.
    pub temperature_available: bool,
    /// Bit 1: a humidity sample is waiting.
    pub humidity_available: bool,
}

impl Status {
    /// The register value that a byte stands for.
    pub open spec fn spec_decode(byte: u8) -> Status {
        Status {
            temperature_available: byte & 0b01 != 0,
            humidity_available: byte & 0b10 != 0,
        }
    }

    /// The byte that stands for a register value.
    pub open spec fn spec_encode(self) -> u8 {
        (if self.temperature_available { 0b01u8 } else { 0u8 })
        | (if self.humidity_available { 0b10u8 } else { 0u8 })
    }

    /// Whether any sample is waiting.
    pub open spec fn spec_any_available(self) -> bool {
        self.temperature_available || self.humidity_available
    }

    /// Decodes the byte read from the register.
    pub fn decode(byte: u8) -> (status: Status)
        ensures
            status == Self::spec_decode(byte),
    {
        Status {
            temperature_available: (byte & 0b01) != 0,
            humidity_available: (byte & 0b10) != 0,
        }
    }

    /// Encodes the value as the byte that the register would read as.
    pub fn encode(self) -> (byte: u8)
        ensures
            byte == self.spec_encode(),
    {
        let temperature: u8 = if self.temperature_available { 0b01 } else { 0 };
        let humidity: u8 = if self.humidity_available { 0b10 } else { 0 };
        temperature | humidity
    }

    /// The transaction that reads the register.
    pub fn read(address: I2cAddress) -> (tx: Transaction)
        ensures
            tx == (Transaction::Read { address, register: STATUS, len: 1 }),
    {
        Transaction::Read { address, register: STATUS, len: 1 }
    }

    /// Whether a temperature sample is waiting.
    pub fn temperature_available(&self) -> (available: bool)
        ensures
            available == self.temperature_available,
    {
        self.temperature_available
    }

    /// Whether a humidity sample is waiting.
    pub fn humidity_available(&self) -> (available: bool)
        ensures
            available == self.humidity_available,
    {
        self.humidity_available
    }

    /// Whether any sample is waiting.
    pub fn any_available(&self) -> (available: bool)
        ensures
            available == self.spec_any_available(),
    {
        self.temperature_available || self.humidity_available
    }

    /// Decoding what was encoded gives the value back, for every value.
    pub proof fn lemma_decode_encode(status: Status)
        ensures
            Self::spec_decode(status.spec_encode()) == status,
            status.spec_encode() & !STATUS_DEFINED_BITS == 0,
    {
        let t: u8 = if status.temperature_available { 0b01u8 } else { 0u8 };
        let h: u8 = if status.humidity_available { 0b10u8 } else { 0u8 };
        assert({
            &&& ((t | h) & 0b01 != 0) == (t != 0)
            &&& ((t | h) & 0b10 != 0) == (h != 0)
            &&& (t | h) & !0b0000_0011u8 == 0
        }) by (bit_vector)
            requires
                t == 0 || t == 0b01u8,
                h == 0 || h == 0b10u8,
        ;
    }

    /// Encoding what was decoded gives the byte back, for every byte whose
    /// reserved bits are zero.
    pub proof fn lemma_encode_decode(byte: u8)
        requires
            byte & !STATUS_DEFINED_BITS == 0,
        ensures
            Self::spec_decode(byte).spec_encode() == byte,
    {
        assert({
            &&& (byte & 0b01 == 0 || byte & 0b01 == 0b01)
            &&& (byte & 0b10 == 0 || byte & 0b10 == 0b10)
            &&& (byte & 0b01) | (byte & 0b10) == byte
        }) by (bit_vector)
            requires
                byte & !0b0000_0011u8 == 0,
        ;
    }

    /// No sample is waiting exactly when both flag bits of the byte are
    /// zero.
    pub proof fn lemma_none_available(byte: u8)
        ensures
            !Self::spec_decode(byte).spec_any_available() <==> byte & STATUS_DEFINED_BITS == 0,
    {
        assert((byte & 0b01 == 0 && byte & 0b10 == 0) <==> byte & 0b0000_0011u8 == 0) by (bit_vector);
    }
}

impl From<u8> for Status {
    fn from(byte: u8) -> (status: Status) {
        Status::decode(byte)
    }
}

impl vstd::std_specs::convert::FromSpecImpl<u8> for Status {
    open spec fn obeys_from_spec() -> bool {
        true
    }

    open spec fn from_spec(byte: u8) -> Status {
        Status::spec_decode(byte)
    }
}

} // verus!
