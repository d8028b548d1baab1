//! Control register 3: the data-ready output.

use vstd::prelude::*;
use crate::address::I2cAddress;
use crate::bus::Transaction;

verus! {

/// Register index of control register 3.
pub const CTRL_REG3: u8 = 0x22;

/// The bits of control register 3 that carry a meaning. All others are
/// reserved and written as zero.
pub const CTRL3_DEFINED_BITS: u8 = 0b1100_0100;

/// The level of the data-ready output while data is ready.
#[derive(Clone, Copy, Debug, PartialEq, Eq, Structural)]
pub enum ActiveState {
    /// The output is high while data is ready.
    High,
    /// The output is low while data is ready.
    Low,
}

/// How the data-ready output is driven.
#[derive(Clone, Copy, Debug, PartialEq, Eq, Structural)]
pub enum Mode {
    /// Driven both ways.
    PushPull,
    /// Only pulled low.
    OpenDrain,
}

/// Decoded contents of control register 3.
#[derive(Clone, Copy, Debug, PartialEq, Eq, Structural)]
pub struct Ctrl3 {
    /// Bit 7: polarity of the data-ready output.
    pub active: ActiveState,
    /// Bit 6: drive mode of the data-ready output.
    pub mode: Mode,
    /// Bit 2: the data-ready output is enabled.
    pub enable: bool,
}

impl Ctrl3 {
    /// The register value that a byte stands for.
    pub open spec fn spec_decode(byte: u8) -> Ctrl3 {
        Ctrl3 {
            active: if byte & 0b1000_0000 != 0 { ActiveState::Low } else { ActiveState::High },
            mode: if byte & 0b0100_0000 != 0 { Mode::OpenDrain } else { Mode::PushPull },
            enable: byte & 0b0000_0100 != 0,
        }
    }

    /// The byte that stands for a register value.
    pub open spec fn spec_encode(self) -> u8 {
        (if self.active == ActiveState::Low { 0b1000_0000u8 } else { 0u8 })
        | (if self.mode == Mode::OpenDrain { 0b0100_0000u8 } else { 0u8 })
        | (if self.enable { 0b0000_0100u8 } else { 0u8 })
    }

    /// Decodes the byte read from the register.
    pub fn decode(byte: u8) -> (reg: Ctrl3)
        ensures
            reg == Self::spec_decode(byte),
    {
        Ctrl3 {
            active: if (byte & 0b1000_0000) != 0 { ActiveState::Low } else { ActiveState::High },
            mode: if (byte & 0b0100_0000) != 0 { Mode::OpenDrain } else { Mode::PushPull },
            enable: (byte & 0b0000_0100) != 0,
        }
    }

    /// Encodes the value as the byte to write to the register.
    pub fn encode(self) -> (byte: u8)
        ensures
            byte == self.spec_encode(),
    {
        let active: u8 = match self.active {
            ActiveState::Low => 0b1000_0000,
            ActiveState::High => 0,
        };
        let mode: u8 = match self.mode {
            Mode::OpenDrain => 0b0100_0000,
            Mode::PushPull => 0,
        };
        let enable: u8 = if self.enable { 0b0000_0100 } else { 0 };
        active | mode | enable
    }

    /// The transaction that reads the register.
    pub fn read(address: I2cAddress) -> (tx: Transaction)
        ensures
            tx == (Transaction::Read { address, register: CTRL_REG3, len: 1 }),
    {
        Transaction::Read { address, register: CTRL_REG3, len: 1 }
    }

    /// The transaction that writes `reg` to the register.
    pub fn write(address: I2cAddress, reg: Ctrl3) -> (tx: Transaction)
        ensures
            tx == (Transaction::Write { address, register: CTRL_REG3, value: reg.spec_encode() }),
    {
        Transaction::Write { address, register: CTRL_REG3, value: reg.encode() }
    }

    /// The second half of a read-modify-write: given the byte that the
    /// register was read as, applies `f` to the decoded value and returns
    /// the transaction that writes the outcome back.
    pub fn modify<F: FnOnce(Ctrl3) -> Ctrl3>(address: I2cAddress, current: u8, f: F) -> (tx: Transaction)
        requires
            f.requires((Self::spec_decode(current),)),
        ensures
            exists|reg: Ctrl3|
                f.ensures((Self::spec_decode(current),), reg) && tx == (Transaction::Write {
                    address,
                    register: CTRL_REG3,
                    value: reg.spec_encode(),
                }),
    {
        let reg = f(Self::decode(current));
        Self::write(address, reg)
    }

    /// Enables or disables the data-ready output.
    pub fn enable(&mut self, on: bool) -> (ret: &mut Self)
        ensures
            *ret == (Ctrl3 { enable: on, ..*old(self) }),
            *final(self) == *final(ret),
    {
        self.enable = on;
        self
    }

    /// Selects the polarity of the data-ready output.
    pub fn active(&mut self, state: ActiveState) -> (ret: &mut Self)
        ensures
            *ret == (Ctrl3 { active: state, ..*old(self) }),
            *final(self) == *final(ret),
    {
        self.active = state;
        self
    }

    /// Selects the drive mode of the data-ready output.
    pub fn mode(&mut self, mode: Mode) -> (ret: &mut Self)
        ensures
            *ret == (Ctrl3 { mode, ..*old(self) }),
            *final(self) == *final(ret),
    {
        self.mode = mode;
        self
    }

    /// Decoding what was encoded gives the value back, for every value.
    pub proof fn lemma_decode_encode(reg: Ctrl3)
        ensures
            Self::spec_decode(reg.spec_encode()) == reg,
            reg.spec_encode() & !CTRL3_DEFINED_BITS == 0,
    {
        let a: u8 = if reg.active == ActiveState::Low { 0b1000_0000u8 } else { 0u8 };
        let m: u8 = if reg.mode == Mode::OpenDrain { 0b0100_0000u8 } else { 0u8 };
        let e: u8 = if reg.enable { 0b0000_0100u8 } else { 0u8 };
        assert({
            &&& ((a | m | e) & 0b1000_0000 != 0) == (a != 0)
            &&& ((a | m | e) & 0b0100_0000 != 0) == (m != 0)
            &&& ((a | m | e) & 0b0000_0100 != 0) == (e != 0)
            &&& (a | m | e) & !0b1100_0100u8 == 0
        }) by (bit_vector)
            requires
                a == 0 || a == 0b1000_0000u8,
                m == 0 || m == 0b0100_0000u8,
                e == 0 || e == 0b0000_0100u8,
        ;
    }

    /// Encoding what was decoded gives the byte back, for every byte whose
    /// reserved bits are zero.
    pub proof fn lemma_encode_decode(byte: u8)
        requires
            byte & !CTRL3_DEFINED_BITS == 0,
        ensures
            Self::spec_decode(byte).spec_encode() == byte,
    {
        assert({
            &&& (byte & 0b1000_0000 == 0 || byte & 0b1000_0000 == 0b1000_0000)
            &&& (byte & 0b0100_0000 == 0 || byte & 0b0100_0000 == 0b0100_0000)
            &&& (byte & 0b0000_0100 == 0 || byte & 0b0000_0100 == 0b0000_0100)
            &&& (byte & 0b1000_0000) | (byte & 0b0100_0000) | (byte & 0b0000_0100) == byte
        }) by (bit_vector)
            requires
                byte & !0b1100_0100u8 == 0,
        ;
    }
}

impl From<u8> for Ctrl3 {
    fn from(byte: u8) -> (reg: Ctrl3) {
        Ctrl3::decode(byte)
    }
}

impl vstd::std_specs::convert::FromSpecImpl<u8> for Ctrl3 {
    open spec fn obeys_from_spec() -> bool {
        true
    }

    open spec fn from_spec(byte: u8) -> Ctrl3 {
        Ctrl3::spec_decode(byte)
    }
}

impl From<Ctrl3> for u8 {
    fn from(reg: Ctrl3) -> (byte: u8) {
        reg.encode()
    }
}

impl vstd::std_specs::convert::FromSpecImpl<Ctrl3> for u8 {
    open spec fn obeys_from_spec() -> bool {
        true
    }

    open spec fn from_spec(reg: Ctrl3) -> u8 {
        reg.spec_encode()
    }
}

} // verus!
