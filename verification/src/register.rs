//! Codecs for the device registers, one module per register.
//!
//! A codec turns the bytes of its register into a value and back, and
//! builds the bus transactions that read and write the register. None of
//! them touches the bus.

pub mod calibration;
pub mod ctrl1;
pub mod ctrl2;
pub mod ctrl3;
pub mod h_out;
pub mod status;
pub mod t_out;
pub mod who_am_i;
