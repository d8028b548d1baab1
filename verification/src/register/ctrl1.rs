//! Control register 1: power state, output data rate and block data update.

use vstd::prelude::*;
use crate::address::I2cAddress;
use crate::bus::Transaction;

verus! {

/// Register index of control register 1.
pub const CTRL_REG1: u8 = 0x20;

/// The bits of control register 1 that a defined value can set: bit 7,
/// the two low bits of the rate field (bits 5 and 4) and bit 2. Bit 6
/// belongs to the rate field, but no defined rate sets it.
pub const CTRL1_DEFINED_BITS: u8 = 0b1011_0100;

/// How often the device converts.
#[derive(Clone, Copy, Debug, PartialEq, Eq, Structural)]
pub enum OutputDataRate {
    /// Only on request.
    OneShot,
    /// Once per second.
    Hz1,
    /// Seven times per second.
    Hz7,
    /// 12.5 times per second.
    Hz12p5,
}

/// When the output registers take a new sample.
#[derive(Clone, Copy, Debug, PartialEq, Eq, Structural)]
pub enum BlockDataUpdate {
    /// As soon as it is converted, also between the reads of the two
    /// halves of a sample.
    Continuous,
    /// Only after both halves of the previous sample were read.
    MsbLsbReading,
}

/// Decoded contents of control register 1.
#[derive(Clone, Copy, Debug, PartialEq, Eq, Structural)]
pub struct Ctrl1 {
    /// Bit 7: the device is active, not powered down.
    pub power_active: bool,
    /// Bits 6 to 4: the rate code.
    pub output_data_rate: OutputDataRate,
    /// Bit 2: the update mode of the output registers.
    pub block_data_update: BlockDataUpdate,
}

impl OutputDataRate {
    /// The rate code, in place in the register byte.
    pub open spec fn spec_bits(self) -> u8 {
        match self {
            OutputDataRate::OneShot => 0b0000_0000u8,
            OutputDataRate::Hz1 => 0b0001_0000u8,
            OutputDataRate::Hz7 => 0b0010_0000u8,
            OutputDataRate::Hz12p5 => 0b0011_0000u8,
        }
    }

    /// The rate that the low two bits of the rate field select.
    pub open spec fn spec_from_bits(field: u8) -> OutputDataRate {
        if field == 0b0000_0000u8 {
            OutputDataRate::OneShot
        } else if field == 0b0001_0000u8 {
            OutputDataRate::Hz1
        } else if field == 0b0010_0000u8 {
            OutputDataRate::Hz7
        } else {
            OutputDataRate::Hz12p5
        }
    }
}

impl Ctrl1 {
    /// The register value that a byte stands for.
    pub open spec fn spec_decode(byte: u8) -> Ctrl1 {
        Ctrl1 {
            power_active: byte & 0b1000_0000 != 0,
            output_data_rate: OutputDataRate::spec_from_bits(byte & 0b0011_0000),
            block_data_update: if byte & 0b0000_0100 != 0 {
                BlockDataUpdate::MsbLsbReading
            } else {
                BlockDataUpdate::Continuous
            },
        }
    }

    /// The byte that stands for a register value.
    pub open spec fn spec_encode(self) -> u8 {
        (if self.power_active { 0b1000_0000u8 } else { 0u8 })
        | self.output_data_rate.spec_bits()
        | (if self.block_data_update == BlockDataUpdate::MsbLsbReading { 0b0000_0100u8 } else { 0u8 })
    }

    /// Decodes the byte read from the register.
    pub fn decode(byte: u8) -> (reg: Ctrl1)
        ensures
            reg == Self::spec_decode(byte),
    {
        let field: u8 = byte & 0b0011_0000;
        let output_data_rate = if field == 0b0000_0000 {
            OutputDataRate::OneShot
        } else if field == 0b0001_0000 {
            OutputDataRate::Hz1
        } else if field == 0b0010_0000 {
            OutputDataRate::Hz7
        } else {
            OutputDataRate::Hz12p5
        };
        let block_data_update = if (byte & 0b0000_0100) != 0 {
            BlockDataUpdate::MsbLsbReading
        } else {
            BlockDataUpdate::Continuous
        };
        Ctrl1 { power_active: (byte & 0b1000_0000) != 0, output_data_rate, block_data_update }
    }

    /// Encodes the value as the byte to write to the register.
    pub fn encode(self) -> (byte: u8)
        ensures
            byte == self.spec_encode(),
    {
        let power: u8 = if self.power_active { 0b1000_0000 } else { 0 };
        let rate: u8 = match self.output_data_rate {
            OutputDataRate::OneShot => 0b0000_0000,
            OutputDataRate::Hz1 => 0b0001_0000,
            OutputDataRate::Hz7 => 0b0010_0000,
            OutputDataRate::Hz12p5 => 0b0011_0000,
        };
        let update: u8 = match self.block_data_update {
            BlockDataUpdate::MsbLsbReading => 0b0000_0100,
            BlockDataUpdate::Continuous => 0,
        };
        power | rate | update
    }

    /// The transaction that reads the register.
    pub fn read(address: I2cAddress) -> (tx: Transaction)
        ensures
            tx == (Transaction::Read { address, register: CTRL_REG1, len: 1 }),
    {
        Transaction::Read { address, register: CTRL_REG1, len: 1 }
    }

    /// The transaction that writes `reg` to the register.
    pub fn write(address: I2cAddress, reg: Ctrl1) -> (tx: Transaction)
        ensures
            tx == (Transaction::Write { address, register: CTRL_REG1, value: reg.spec_encode() }),
    {
        Transaction::Write { address, register: CTRL_REG1, value: reg.encode() }
    }

    /// The second half of a read-modify-write: given the byte that the
    /// register was read as, applies `f` to the decoded value and returns
    /// the transaction that writes the outcome back.
    pub fn modify<F: FnOnce(Ctrl1) -> Ctrl1>(address: I2cAddress, current: u8, f: F) -> (tx: Transaction)
        requires
            f.requires((Self::spec_decode(current),)),
        ensures
            exists|reg: Ctrl1|
                f.ensures((Self::spec_decode(current),), reg) && tx == (Transaction::Write {
                    address,
                    register: CTRL_REG1,
                    value: reg.spec_encode(),
                }),
    {
        let reg = f(Self::decode(current));
        Self::write(address, reg)
    }

    /// Takes the device out of power-down.
    pub fn power_active(&mut self) -> (ret: &mut Self)
        ensures
            *ret == (Ctrl1 { power_active: true, ..*old(self) }),
            *final(self) == *final(ret),
    {
        self.power_active = true;
        self
    }

    /// Puts the device into power-down.
    pub fn power_down(&mut self) -> (ret: &mut Self)
        ensures
            *ret == (Ctrl1 { power_active: false, ..*old(self) }),
            *final(self) == *final(ret),
    {
        self.power_active = false;
        self
    }

    /// Selects the output data rate.
    pub fn output_data_rate(&mut self, rate: OutputDataRate) -> (ret: &mut Self)
        ensures
            *ret == (Ctrl1 { output_data_rate: rate, ..*old(self) }),
            *final(self) == *final(ret),
    {
        self.output_data_rate = rate;
        self
    }

    /// Selects the update mode of the output registers.
    pub fn block_data_update(&mut self, mode: BlockDataUpdate) -> (ret: &mut Self)
        ensures
            *ret == (Ctrl1 { block_data_update: mode, ..*old(self) }),
            *final(self) == *final(ret),
    {
        self.block_data_update = mode;
        self
    }

    /// Decoding what was encoded gives the value back, for every value.
    pub proof fn lemma_decode_encode(reg: Ctrl1)
        ensures
            Self::spec_decode(reg.spec_encode()) == reg,
            reg.spec_encode() & !CTRL1_DEFINED_BITS == 0,
    {
        let p: u8 = if reg.power_active { 0b1000_0000u8 } else { 0u8 };
        let r: u8 = reg.output_data_rate.spec_bits();
        let u: u8 = if reg.block_data_update == BlockDataUpdate::MsbLsbReading { 0b0000_0100u8 } else { 0u8 };
        assert({
            &&& ((p | r | u) & 0b1000_0000 != 0) == (p != 0)
            &&& (p | r | u) & 0b0011_0000 == r
            &&& ((p | r | u) & 0b0000_0100 != 0) == (u != 0)
            &&& (p | r | u) & !0b1011_0100u8 == 0
        }) by (bit_vector)
            requires
                p == 0 || p == 0b1000_0000u8,
                r == 0 || r == 0b0001_0000u8 || r == 0b0010_0000u8 || r == 0b0011_0000u8,
                u == 0 || u == 0b0000_0100u8,
        ;
    }

    /// Encoding what was decoded gives the byte back, for every byte whose
    /// reserved bits are zero.
    pub proof fn lemma_encode_decode(byte: u8)
        requires
            byte & !CTRL1_DEFINED_BITS == 0,
        ensures
            Self::spec_decode(byte).spec_encode() == byte,
    {
        let r: u8 = byte & 0b0011_0000;
        assert({
            &&& (byte & 0b1000_0000 == 0 || byte & 0b1000_0000 == 0b1000_0000)
            &&& (r == 0 || r == 0b0001_0000u8 || r == 0b0010_0000u8 || r == 0b0011_0000u8)
            &&& (byte & 0b0000_0100 == 0 || byte & 0b0000_0100 == 0b0000_0100)
            &&& (byte & 0b1000_0000) | r | (byte & 0b0000_0100) == byte
        }) by (bit_vector)
            requires
                byte & !0b1011_0100u8 == 0,
                r == byte & 0b0011_0000,
        ;
    }
}

impl From<u8> for Ctrl1 {
    fn from(byte: u8) -> (reg: Ctrl1) {
        Ctrl1::decode(byte)
    }
}

impl vstd::std_specs::convert::FromSpecImpl<u8> for Ctrl1 {
    open spec fn obeys_from_spec() -> bool {
        true
    }

    open spec fn from_spec(byte: u8) -> Ctrl1 {
        Ctrl1::spec_decode(byte)
    }
}

impl From<Ctrl1> for u8 {
    fn from(reg: Ctrl1) -> (byte: u8) {
        reg.encode()
    }
}

impl vstd::std_specs::convert::FromSpecImpl<Ctrl1> for u8 {
    open spec fn obeys_from_spec() -> bool {
        true
    }

    open spec fn from_spec(reg: Ctrl1) -> u8 {
        reg.spec_encode()
    }
}

} // verus!
