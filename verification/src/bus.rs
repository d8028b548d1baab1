//! Bus transactions as plain values.

use vstd::prelude::*;
use crate::address::I2cAddress;

verus! {

/// One transaction on the two-wire bus, addressed to one register of one
/// device.
#[derive(Clone, Copy, Debug, PartialEq, Eq, Structural)]
pub enum Transaction {
    /// Write the register index, then read `len` bytes starting at that
    /// register, as one combined transaction.
    Read { address: I2cAddress, register: u8, len: u8 },
    /// Write the register index followed by one payload byte.
    Write { address: I2cAddress, register: u8, value: u8 },
}

impl Transaction {
    /// The bytes that the transaction sends to the device.
    pub open spec fn outgoing(self) -> Seq<u8> {
        match self {
            Transaction::Read { register, .. } => seq![register],
            Transaction::Write { register, value, .. } => seq![register, value],
        }
    }

    /// The device that the transaction is addressed to.
    pub open spec fn spec_address(self) -> I2cAddress {
        match self {
            Transaction::Read { address, .. } => address,
            Transaction::Write { address, .. } => address,
        }
    }

    /// The device that the transaction is addressed to.
    #[verifier::when_used_as_spec(spec_address)]
    pub fn address(self) -> (address: I2cAddress)
        ensures
            address == self.spec_address(),
    {
        match self {
            Transaction::Read { address, .. } => address,
            Transaction::Write { address, .. } => address,
        }
    }

    /// The bytes that the transaction sends to the device: an array, and
    /// how many of its bytes, from the first on, are to be sent.
    pub fn outgoing_bytes(self) -> (out: ([u8; 2], usize))
        ensures
            out.1 == self.outgoing().len(),
            out.0@.take(out.1 as int) == self.outgoing(),
    {
        match self {
            Transaction::Read { register, .. } => {
                let bytes: [u8; 2] = [register, 0];
                assert(bytes@.take(1) =~= self.outgoing());
                (bytes, 1)
            },
            Transaction::Write { register, value, .. } => {
                let bytes: [u8; 2] = [register, value];
                assert(bytes@.take(2) =~= self.outgoing());
                (bytes, 2)
            },
        }
    }

    /// The number of bytes that the device is expected to answer with.
    pub fn reply_len(self) -> (len: usize)
        ensures
            len == self.incoming_len(),
    {
        match self {
            Transaction::Read { len, .. } => len as usize,
            Transaction::Write { .. } => 0,
        }
    }

    /// The payload byte of a write; zero for a read, which has none.
    pub open spec fn spec_value(self) -> u8 {
        match self {
            Transaction::Read { .. } => 0,
            Transaction::Write { value, .. } => value,
        }
    }

    /// The payload byte of a write; zero for a read, which has none.
    #[verifier::when_used_as_spec(spec_value)]
    pub fn value(self) -> (value: u8)
        ensures
            value == self.spec_value(),
    {
        match self {
            Transaction::Read { .. } => 0,
            Transaction::Write { value, .. } => value,
        }
    }

    /// The number of bytes that the device is expected to answer with.
    pub open spec fn incoming_len(self) -> nat {
        match self {
            Transaction::Read { len, .. } => len as nat,
            Transaction::Write { .. } => 0,
        }
    }
}

} // verus!
