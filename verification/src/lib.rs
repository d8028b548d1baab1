//! Protocol core of a driver for the HTS221 humidity and temperature
//! sensor.
//!
//! The crate performs no bus traffic itself. It describes each bus
//! transaction as a plain value, decodes what the device answered, and
//! decides what has to happen next; the caller owns the bus and carries
//! the transactions out. Measurements are exact fractions, so that
//! nothing is rounded before the caller chooses a number format.
//!
//! - [`register`] holds one codec per device register.
//! - [`register::calibration`] turns raw codes into calibrated values.
//! - [`temperature`] tags temperatures with their scale.
//! - [`driver`] is the session: initialization and reads, step by step.
//! - [`sequencing`] proves in which order a session's transactions come.

pub mod address;
pub mod bus;
pub mod driver;
pub mod ratio;
pub mod register;
pub mod sequencing;
pub mod temperature;
pub mod word;

pub use address::I2cAddress;
pub use bus::Transaction;
pub use driver::{Hts221, Hts221Error, Phase, State, Step};
pub use ratio::Ratio;
pub use temperature::{Celsius, Fahrenheit, Kelvin, SensorAcquisition, Temperature, TemperatureScale};
