//! Control register 2: memory reboot, heater and one-shot trigger.

use vstd::prelude::*;
use crate::address::I2cAddress;
use crate::bus::Transaction;

verus! {

/// Register index of control register 2.
pub const CTRL_REG2: u8 = 0x21;

/// The bits of control register 2 that carry a meaning. All others are
/// reserved and written as zero.
pub const CTRL2_DEFINED_BITS: u8 = 0b1000_0011;

/// Decoded contents of control register 2.
#[derive(Clone, Copy, Debug, PartialEq, Eq, Structural)]
pub struct Ctrl2 {
    /// Bit 7: reboot the memory content.
    pub boot: bool,
    /// Bit 1: the heating element is on.
    pub heater: bool,
    /// Bit 0: start a single conversion.
    pub enable_one_shot: bool,
}

impl Ctrl2 {
    /// The register value that a byte stands for.
    pub open spec fn spec_decode(byte: u8) -> Ctrl2 {
        Ctrl2 {
            boot: byte & 0b1000_0000 != 0,
            heater: byte & 0b0000_0010 != 0,
            enable_one_shot: byte & 0b0000_0001 != 0,
        }
    }

    /// The byte that stands for a register value.
    pub open spec fn spec_encode(self) -> u8 {
        (if self.boot { 0b1000_0000u8 } else { 0u8 })
        | (if self.heater { 0b0000_0010u8 } else { 0u8 })
        | (if self.enable_one_shot { 0b0000_0001u8 } else { 0u8 })
    }

    /// Decodes the byte read from the register.
    pub fn decode(byte: u8) -> (reg: Ctrl2)
        ensures
            reg == Self::spec_decode(byte),
    {
        Ctrl2 {
            boot: (byte & 0b1000_0000) != 0,
            heater: (byte & 0b0000_0010) != 0,
            enable_one_shot: (byte & 0b0000_0001) != 0,
        }
    }

    /// Encodes the value as the byte to write to the register.
    pub fn encode(self) -> (byte: u8)
        ensures
            byte == self.spec_encode(),
    {
        let boot: u8 = if self.boot { 0b1000_0000 } else { 0 };
        let heater: u8 = if self.heater { 0b0000_0010 } else { 0 };
        let one_shot: u8 = if self.enable_one_shot { 0b0000_0001 } else { 0 };
        boot | heater | one_shot
    }

    /// The transaction that reads the register.
    pub fn read(address: I2cAddress) -> (tx: Transaction)
        ensures
            tx == (Transaction::Read { address, register: CTRL_REG2, len: 1 }),
    {
        Transaction::Read { address, register: CTRL_REG2, len: 1 }
    }

    /// The transaction that writes `reg` to the register.
    pub fn write(address: I2cAddress, reg: Ctrl2) -> (tx: Transaction)
        ensures
            tx == (Transaction::Write { address, register: CTRL_REG2, value: reg.spec_encode() }),
    {
        Transaction::Write { address, register: CTRL_REG2, value: reg.encode() }
    }

    /// The second half of a read-modify-write: given the byte that the
    /// register was read as, applies `f` to the decoded value and returns
    /// the transaction that writes the outcome back.
    pub fn modify<F: FnOnce(Ctrl2) -> Ctrl2>(address: I2cAddress, current: u8, f: F) -> (tx: Transaction)
        requires
            f.requires((Self::spec_decode(current),)),
        ensures
            exists|reg: Ctrl2|
                f.ensures((Self::spec_decode(current),), reg) && tx == (Transaction::Write {
                    address,
                    register: CTRL_REG2,
                    value: reg.spec_encode(),
                }),
    {
        let reg = f(Self::decode(current));
        Self::write(address, reg)
    }

    /// Requests a reboot of the memory content.
    pub fn boot(&mut self) -> (ret: &mut Self)
        ensures
            *ret == (Ctrl2 { boot: true, ..*old(self) }),
            *final(self) == *final(ret),
    {
        self.boot = true;
        self
    }

    /// Switches the heating element on or off.
    pub fn heater(&mut self, on: bool) -> (ret: &mut Self)
        ensures
            *ret == (Ctrl2 { heater: on, ..*old(self) }),
            *final(self) == *final(ret),
    {
        self.heater = on;
        self
    }

    /// Requests a single conversion.
    pub fn enable_one_shot(&mut self) -> (ret: &mut Self)
        ensures
            *ret == (Ctrl2 { enable_one_shot: true, ..*old(self) }),
            *final(self) == *final(ret),
    {
        self.enable_one_shot = true;
        self
    }

    /// Decoding what was encoded gives the value back, for every value.
    pub proof fn lemma_decode_encode(reg: Ctrl2)
        ensures
            Self::spec_decode(reg.spec_encode()) == reg,
            reg.spec_encode() & !CTRL2_DEFINED_BITS == 0,
    {
        let b: u8 = if reg.boot { 0b1000_0000u8 } else { 0u8 };
        let h: u8 = if reg.heater { 0b0000_0010u8 } else { 0u8 };
        let o: u8 = if reg.enable_one_shot { 0b0000_0001u8 } else { 0u8 };
        assert({
            &&& ((b | h | o) & 0b1000_0000 != 0) == (b != 0)
            &&& ((b | h | o) & 0b0000_0010 != 0) == (h != 0)
            &&& ((b | h | o) & 0b0000_0001 != 0) == (o != 0)
            &&& (b | h | o) & !0b1000_0011u8 == 0
        }) by (bit_vector)
            requires
                b == 0 || b == 0b1000_0000u8,
                h == 0 || h == 0b0000_0010u8,
                o == 0 || o == 0b0000_0001u8,
        ;
    }

    /// Encoding what was decoded gives the byte back, for every byte whose
    /// reserved bits are zero.
    pub proof fn lemma_encode_decode(byte: u8)
        requires
            byte & !CTRL2_DEFINED_BITS == 0,
        ensures
            Self::spec_decode(byte).spec_encode() == byte,
    {
        assert({
            &&& (byte & 0b1000_0000 == 0 || byte & 0b1000_0000 == 0b1000_0000)
            &&& (byte & 0b0000_0010 == 0 || byte & 0b0000_0010 == 0b0000_0010)
            &&& (byte & 0b0000_0001 == 0 || byte & 0b0000_0001 == 0b0000_0001)
            &&& (byte & 0b1000_0000) | (byte & 0b0000_0010) | (byte & 0b0000_0001) == byte
        }) by (bit_vector)
            requires
                byte & !0b1000_0011u8 == 0,
        ;
    }
}

impl From<u8> for Ctrl2 {
    fn from(byte: u8) -> (reg: Ctrl2) {
        Ctrl2::decode(byte)
    }
}

impl vstd::std_specs::convert::FromSpecImpl<u8> for Ctrl2 {
    open spec fn obeys_from_spec() -> bool {
        true
    }

    open spec fn from_spec(byte: u8) -> Ctrl2 {
        Ctrl2::spec_decode(byte)
    }
}

impl From<Ctrl2> for u8 {
    fn from(reg: Ctrl2) -> (byte: u8) {
        reg.encode()
    }
}

impl vstd::std_specs::convert::FromSpecImpl<Ctrl2> for u8 {
    open spec fn obeys_from_spec() -> bool {
        true
    }

    open spec fn from_spec(reg: Ctrl2) -> u8 {
        reg.spec_encode()
    }
}

} // verus!
