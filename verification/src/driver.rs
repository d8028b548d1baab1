//! The driver session: which bus transaction comes next, and what the
//! device's answers amount to.
//!
//! The session owns no bus. [`Hts221::initialize`] and [`Hts221::read`]
//! each start an operation and return its first [`Step`]. Whenever a step
//! asks for a transaction, the caller carries it out on the bus and hands
//! the outcome to [`Hts221::resume`], which returns the next step, until a
//! step ends the operation.

use vstd::prelude::*;
use crate::address::I2cAddress;
use crate::bus::Transaction;
use crate::register::calibration::{Calibration, CalibrationPoint, CalibrationRegister};
use crate::register::ctrl1::{BlockDataUpdate, Ctrl1, OutputDataRate};
use crate::register::ctrl2::Ctrl2;
use crate::register::ctrl3::Ctrl3;
use crate::register::h_out::Hout;
use crate::register::status::Status;
use crate::register::t_out::Tout;
use crate::register::who_am_i::WhoAmI;
use crate::temperature::{Celsius, SensorAcquisition};

verus! {

/// The bus address of the device. The identity register is expected to
/// read as the same value.
pub const ADDR: u8 = 0x5F;

/// Error returned by the driver. `E` is the error of the bus transport,
/// which the driver hands on as it came.
#[derive(Debug)]
pub enum Hts221Error<E> {
    /// Error from the bus.
    I2c(E),
    /// Attempting to read before calibration.
    NotCalibrated,
    /// Not the expected sensor device.
    InvalidSensor,
    /// The device holds calibration points that define no line.
    InvalidCalibration,
}

impl<E> From<E> for Hts221Error<E> {
    fn from(e: E) -> (error: Hts221Error<E>) {
        Hts221Error::I2c(e)
    }
}

impl<E> vstd::std_specs::convert::FromSpecImpl<E> for Hts221Error<E> {
    open spec fn obeys_from_spec() -> bool {
        true
    }

    open spec fn from_spec(e: E) -> Hts221Error<E> {
        Hts221Error::I2c(e)
    }
}

/// The stages of a session, from construction to readiness.
#[derive(Clone, Copy, Debug, PartialEq, Eq, Structural)]
pub enum State {
    /// No calibration is held and nothing is in progress.
    Uninitialized,
    /// The identity register is being read.
    Identifying,
    /// The reboot flag is being set.
    Booting,
    /// Power, data rate and update mode are being set.
    Configuring,
    /// Conversion is being enabled and stale samples are being read off.
    Draining,
    /// The calibration registers are being read.
    Calibrating,
    /// A calibration is held: the sensor can be read.
    Ready,
}

/// The transaction that a session waits for, with what the operation has
/// gathered so far.
#[derive(Clone, Copy, Debug, PartialEq, Eq, Structural)]
pub enum Phase {
    /// Nothing is in flight.
    Idle,
    /// Reading the identity register.
    Identifying,
    /// Reading control register 2, to set the reboot flag.
    BootRead,
    /// Writing `value` to control register 2.
    BootWrite { value: u8 },
    /// Reading control register 1, to configure the device.
    ConfigureRead,
    /// Writing `value` to control register 1.
    ConfigureWrite { value: u8 },
    /// Reading control register 3, to set its enable flag.
    EnableRead,
    /// Writing `value` to control register 3.
    EnableWrite { value: u8 },
    /// Reading the status register, to see whether samples are waiting.
    DrainStatus,
    /// Reading a stale humidity sample.
    DrainHumidity,
    /// Reading a stale temperature sample.
    DrainTemperature,
    /// Reading the first temperature reference point.
    CalibrateT0,
    /// Reading the second temperature reference point.
    CalibrateT1 { t0: CalibrationPoint },
    /// Reading the first humidity reference point.
    CalibrateH0 { t0: CalibrationPoint, t1: CalibrationPoint },
    /// Reading the second humidity reference point.
    CalibrateH1 { t0: CalibrationPoint, t1: CalibrationPoint, h0: CalibrationPoint },
    /// Reading the temperature output, for a measurement.
    ReadTemperature,
    /// Reading the humidity output, for a measurement.
    ReadHumidity { t_out: i16 },
}

/// What the caller has to do next.
#[derive(Debug)]
pub enum Step<E> {
    /// Carry out this transaction and hand its outcome to
    /// [`Hts221::resume`].
    Transact(Transaction),
    /// Initialization is complete: the session holds its calibration.
    Initialized,
    /// The read is complete.
    Acquired(SensorAcquisition<Celsius>),
    /// The operation failed. Nothing is in flight any more.
    Failed(Hts221Error<E>),
}

/// A session as a value: what the contracts of [`Hts221`] speak of.
pub struct Session {
    /// The bus address of the device.
    pub address: I2cAddress,
    /// The calibration, once an initialization has completed.
    pub calibration: Option<Calibration>,
    /// The transaction in flight.
    pub phase: Phase,
}

/// What control register 2 is rewritten to while booting: as it was read,
/// with the reboot flag set.
pub open spec fn boot_value(current: u8) -> u8 {
    (Ctrl2 { boot: true, ..Ctrl2::spec_decode(current) }).spec_encode()
}

/// What control register 1 is rewritten to while configuring: powered,
/// one conversion per second, output registers updated only between
/// reads. Every field of the register is set, so nothing of what was
/// read remains.
pub open spec fn configure_value() -> u8 {
    (Ctrl1 {
        power_active: true,
        output_data_rate: OutputDataRate::Hz1,
        block_data_update: BlockDataUpdate::MsbLsbReading,
    }).spec_encode()
}

/// Control register 1 is rewritten to `0x94`: bit 7 for power, rate code
/// 1 in bits 6 to 4, bit 2 for the update mode.
pub proof fn lemma_configure_value()
    ensures
        configure_value() == 0x94,
{
    assert(0b1000_0000u8 | 0b0001_0000u8 | 0b0000_0100u8 == 0x94u8) by (bit_vector);
}

/// What control register 3 is rewritten to before draining: as it was
/// read, with the enable flag set.
pub open spec fn enable_value(current: u8) -> u8 {
    (Ctrl3 { enable: true, ..Ctrl3::spec_decode(current) }).spec_encode()
}

/// What the bus answered, as a value: the bytes read (none for a write),
/// or the transport's error.
pub open spec fn reply_model<E>(reply: Result<&[u8], E>) -> Result<Seq<u8>, E> {
    match reply {
        Ok(data) => Ok(data@),
        Err(e) => Err(e),
    }
}

impl Session {
    /// A session for the device at `address` in which nothing has happened
    /// yet.
    pub open spec fn fresh(address: I2cAddress) -> Session {
        Session { address, calibration: None, phase: Phase::Idle }
    }

    /// The transaction in flight, if any.
    pub open spec fn pending(self) -> Option<Transaction> {
        let address = self.address;
        match self.phase {
            Phase::Idle => None,
            Phase::Identifying => Some(
                Transaction::Read { address, register: crate::register::who_am_i::WHO_AM_I, len: 1 },
            ),
            Phase::BootRead => Some(
                Transaction::Read { address, register: crate::register::ctrl2::CTRL_REG2, len: 1 },
            ),
            Phase::ConfigureRead => Some(
                Transaction::Read { address, register: crate::register::ctrl1::CTRL_REG1, len: 1 },
            ),
            Phase::EnableRead => Some(
                Transaction::Read { address, register: crate::register::ctrl3::CTRL_REG3, len: 1 },
            ),
            Phase::BootWrite { value } => Some(
                Transaction::Write { address, register: crate::register::ctrl2::CTRL_REG2, value },
            ),
            Phase::ConfigureWrite { value } => Some(
                Transaction::Write { address, register: crate::register::ctrl1::CTRL_REG1, value },
            ),
            Phase::EnableWrite { value } => Some(
                Transaction::Write { address, register: crate::register::ctrl3::CTRL_REG3, value },
            ),
            Phase::DrainStatus => Some(
                Transaction::Read { address, register: crate::register::status::STATUS, len: 1 },
            ),
            Phase::DrainHumidity | Phase::ReadHumidity { .. } => Some(
                Transaction::Read { address, register: crate::register::h_out::H_OUT, len: 2 },
            ),
            Phase::DrainTemperature | Phase::ReadTemperature => Some(
                Transaction::Read { address, register: crate::register::t_out::T_OUT, len: 2 },
            ),
            Phase::CalibrateT0 => Some(
                Transaction::Read { address, register: CalibrationRegister::T0.spec_index(), len: 4 },
            ),
            Phase::CalibrateT1 { .. } => Some(
                Transaction::Read { address, register: CalibrationRegister::T1.spec_index(), len: 4 },
            ),
            Phase::CalibrateH0 { .. } => Some(
                Transaction::Read { address, register: CalibrationRegister::H0.spec_index(), len: 4 },
            ),
            Phase::CalibrateH1 { .. } => Some(
                Transaction::Read { address, register: CalibrationRegister::H1.spec_index(), len: 4 },
            ),
        }
    }

    /// How many bytes the transaction in flight is to answer with.
    pub open spec fn expected_len(self) -> nat {
        match self.pending() {
            Some(tx) => tx.incoming_len(),
            None => 0,
        }
    }

    /// Whether `reply` can be the outcome of the transaction in flight:
    /// there is one, and a successful reply has as many bytes as were
    /// asked for.
    pub open spec fn accepts<E>(self, reply: Result<Seq<u8>, E>) -> bool {
        &&& self.phase != Phase::Idle
        &&& reply matches Ok(data) ==> data.len() == self.expected_len()
    }

    /// The stage that the session is in.
    pub open spec fn state(self) -> State {
        match self.phase {
            Phase::Idle => if self.calibration is Some {
                State::Ready
            } else {
                State::Uninitialized
            },
            Phase::Identifying => State::Identifying,
            Phase::BootRead | Phase::BootWrite { .. } => State::Booting,
            Phase::ConfigureRead | Phase::ConfigureWrite { .. } => State::Configuring,
            Phase::EnableRead | Phase::EnableWrite { .. } | Phase::DrainStatus
            | Phase::DrainHumidity | Phase::DrainTemperature => State::Draining,
            Phase::CalibrateT0 | Phase::CalibrateT1 { .. } | Phase::CalibrateH0 { .. }
            | Phase::CalibrateH1 { .. } => State::Calibrating,
            Phase::ReadTemperature | Phase::ReadHumidity { .. } => State::Ready,
        }
    }

    /// The session in the given phase.
    pub open spec fn at(self, phase: Phase) -> Session {
        Session { phase, ..self }
    }

    /// The session once an initialization has been started: the identity
    /// register is being read. Whatever was in flight is abandoned.
    pub open spec fn begin_initialize(self) -> Session {
        self.at(Phase::Identifying)
    }

    /// The session once a read has been started. Without a calibration
    /// nothing is started.
    pub open spec fn begin_read(self) -> Session {
        if self.calibration is Some {
            self.at(Phase::ReadTemperature)
        } else {
            self
        }
    }

    /// The step that a start of a read returns.
    pub open spec fn begin_read_step<E>(self) -> Step<E> {
        if self.calibration is Some {
            Step::Transact(
                Transaction::Read {
                    address: self.address,
                    register: crate::register::t_out::T_OUT,
                    len: 2,
                },
            )
        } else {
            Step::Failed(Hts221Error::NotCalibrated)
        }
    }

    /// The session in `phase`, with the step that asks for the
    /// transaction of that phase.
    pub open spec fn proceed<E>(self, phase: Phase) -> (Session, Step<E>) {
        (self.at(phase), Step::Transact(self.at(phase).pending().unwrap()))
    }

    /// The session with nothing in flight, and the step that reports
    /// `error`.
    pub open spec fn fail<E>(self, error: Hts221Error<E>) -> (Session, Step<E>) {
        (self.at(Phase::Idle), Step::Failed(error))
    }

    /// The session and the step after the transaction in flight had the
    /// outcome `reply`. With nothing in flight there is no outcome to
    /// take: [`Session::accepts`] leaves that out.
    pub open spec fn next<E>(self, reply: Result<Seq<u8>, E>) -> (Session, Step<E>) {
        let address = self.address;
        match reply {
            Err(e) => self.fail(Hts221Error::I2c(e)),
            Ok(data) => match self.phase {
                Phase::Idle => (self, Step::Failed(Hts221Error::NotCalibrated)),
                Phase::Identifying => if WhoAmI::spec_decode(data[0]) == address {
                    self.proceed(Phase::BootRead)
                } else {
                    self.fail(Hts221Error::InvalidSensor)
                },
                Phase::BootRead => self.proceed(Phase::BootWrite { value: boot_value(data[0]) }),
                Phase::BootWrite { .. } => self.proceed(Phase::ConfigureRead),
                Phase::ConfigureRead => self.proceed(
                    Phase::ConfigureWrite { value: configure_value() },
                ),
                Phase::ConfigureWrite { .. } => self.proceed(Phase::EnableRead),
                Phase::EnableRead => self.proceed(
                    Phase::EnableWrite { value: enable_value(data[0]) },
                ),
                Phase::EnableWrite { .. } => self.proceed(Phase::DrainStatus),
                Phase::DrainStatus => if Status::spec_decode(data[0]).spec_any_available() {
                    self.proceed(Phase::DrainHumidity)
                } else {
                    self.proceed(Phase::CalibrateT0)
                },
                Phase::DrainHumidity => self.proceed(Phase::DrainTemperature),
                Phase::DrainTemperature => self.proceed(Phase::DrainStatus),
                Phase::CalibrateT0 => self.proceed(
                    Phase::CalibrateT1 { t0: CalibrationPoint::spec_decode(data) },
                ),
                Phase::CalibrateT1 { t0 } => self.proceed(
                    Phase::CalibrateH0 { t0, t1: CalibrationPoint::spec_decode(data) },
                ),
                Phase::CalibrateH0 { t0, t1 } => self.proceed(
                    Phase::CalibrateH1 { t0, t1, h0: CalibrationPoint::spec_decode(data) },
                ),
                Phase::CalibrateH1 { t0, t1, h0 } => {
                    let h1 = CalibrationPoint::spec_decode(data);
                    if Calibration::valid(t0, t1, h0, h1) {
                        (
                            Session {
                                address,
                                calibration: Some(Calibration::spec_new(t0, t1, h0, h1)),
                                phase: Phase::Idle,
                            },
                            Step::Initialized,
                        )
                    } else {
                        self.fail(Hts221Error::InvalidCalibration)
                    }
                },
                Phase::ReadTemperature => self.proceed(
                    Phase::ReadHumidity { t_out: Tout::spec_decode(data) },
                ),
                Phase::ReadHumidity { t_out } => match self.calibration {
                    Some(calibration) => (
                        self.at(Phase::Idle),
                        Step::Acquired(
                            SensorAcquisition {
                                temperature: calibration.spec_calibrated_temperature(t_out),
                                relative_humidity: calibration.spec_calibrated_humidity(
                                    Hout::spec_decode(data),
                                ),
                            },
                        ),
                    ),
                    None => self.fail(Hts221Error::NotCalibrated),
                },
            },
        }
    }
}

/// An HTS221 driver session. It holds the device's address and, once
/// initialized, its calibration; the bus stays with the caller.
pub struct Hts221 {
    session: Session,
}

impl View for Hts221 {
    type V = Session;

    closed spec fn view(&self) -> Session {
        self.session
    }
}

impl Hts221 {
    /// A session for the device at its fixed address: not calibrated,
    /// nothing in flight.
    pub fn new() -> (driver: Self)
        ensures
            driver@ == Session::fresh(I2cAddress(ADDR)),
    {
        Hts221 {
            session: Session { address: I2cAddress::new(ADDR), calibration: None, phase: Phase::Idle },
        }
    }

    /// The bus address of the device.
    pub fn address(&self) -> (address: I2cAddress)
        ensures
            address == self@.address,
    {
        self.session.address
    }

    /// The calibration, once an initialization has completed.
    pub fn calibration(&self) -> (calibration: Option<Calibration>)
        ensures
            calibration == self@.calibration,
    {
        self.session.calibration
    }

    /// The transaction in flight, with what the operation has gathered.
    pub fn phase(&self) -> (phase: Phase)
        ensures
            phase == self@.phase,
    {
        self.session.phase
    }

    /// The stage that the session is in.
    pub fn state(&self) -> (state: State)
        ensures
            state == self@.state(),
    {
        match self.session.phase {
            Phase::Idle => if self.session.calibration.is_some() {
                State::Ready
            } else {
                State::Uninitialized
            },
            Phase::Identifying => State::Identifying,
            Phase::BootRead | Phase::BootWrite { .. } => State::Booting,
            Phase::ConfigureRead | Phase::ConfigureWrite { .. } => State::Configuring,
            Phase::EnableRead | Phase::EnableWrite { .. } | Phase::DrainStatus
            | Phase::DrainHumidity | Phase::DrainTemperature => State::Draining,
            Phase::CalibrateT0 | Phase::CalibrateT1 { .. } | Phase::CalibrateH0 { .. }
            | Phase::CalibrateH1 { .. } => State::Calibrating,
            Phase::ReadTemperature | Phase::ReadHumidity { .. } => State::Ready,
        }
    }

    /// Starts the initialization, which must complete before sensor
    /// values can be read. The first step is always the read of the
    /// identity register; the calibration held so far stays until the
    /// initialization completes.
    pub fn initialize<E>(&mut self) -> (step: Step<E>)
        ensures
            final(self)@ == old(self)@.begin_initialize(),
            step == Step::<E>::Transact(WhoAmI::spec_read(old(self)@.address)),
            final(self)@.pending() == Some(WhoAmI::spec_read(old(self)@.address)),
    {
        self.session.phase = Phase::Identifying;
        Step::Transact(WhoAmI::read(self.session.address))
    }

    /// Starts a read of the sensor. Without a calibration the read fails
    /// at once: no transaction is asked for and the session stays as it
    /// is.
    pub fn read<E>(&mut self) -> (step: Step<E>)
        ensures
            final(self)@ == old(self)@.begin_read(),
            step == old(self)@.begin_read_step::<E>(),
            old(self)@.calibration is None ==> step == Step::<E>::Failed(Hts221Error::NotCalibrated)
                && final(self)@ == old(self)@,
    {
        if self.session.calibration.is_some() {
            self.session.phase = Phase::ReadTemperature;
            Step::Transact(Tout::read(self.session.address))
        } else {
            Step::Failed(Hts221Error::NotCalibrated)
        }
    }

    /// Takes the outcome of the transaction that the last step asked for,
    /// and returns the next step. `reply` holds the bytes read (none
    /// after a write) or the transport's error.
    ///
    /// A transport error ends the operation with that error. No step
    /// but [`Step::Initialized`] changes the calibration, and none
    /// changes the address.
    pub fn resume<E>(&mut self, reply: Result<&[u8], E>) -> (step: Step<E>)
        requires
            old(self)@.accepts(reply_model(reply)),
        ensures
            (final(self)@, step) == old(self)@.next(reply_model(reply)),
            final(self)@.address == old(self)@.address,
            !(step is Initialized) ==> final(self)@.calibration == old(self)@.calibration,
            step is Transact <==> final(self)@.phase != Phase::Idle,
            step matches Step::Transact(tx) ==> final(self)@.pending() == Some(tx),
    {
        let address = self.session.address;
        let data = match reply {
            Ok(data) => data,
            Err(e) => {
                self.session.phase = Phase::Idle;
                return Step::Failed(Hts221Error::I2c(e));
            },
        };
        match self.session.phase {
            Phase::Idle => Step::Failed(Hts221Error::NotCalibrated),
            Phase::Identifying => {
                if WhoAmI::decode(data[0]) == address {
                    self.session.phase = Phase::BootRead;
                    Step::Transact(Ctrl2::read(address))
                } else {
                    self.session.phase = Phase::Idle;
                    Step::Failed(Hts221Error::InvalidSensor)
                }
            },
            Phase::BootRead => {
                let tx = Ctrl2::modify(address, data[0], request_boot);
                self.session.phase = Phase::BootWrite { value: tx.value() };
                Step::Transact(tx)
            },
            Phase::BootWrite { .. } => {
                self.session.phase = Phase::ConfigureRead;
                Step::Transact(Ctrl1::read(address))
            },
            Phase::ConfigureRead => {
                let tx = Ctrl1::modify(address, data[0], configure);
                self.session.phase = Phase::ConfigureWrite { value: tx.value() };
                Step::Transact(tx)
            },
            Phase::ConfigureWrite { .. } => {
                self.session.phase = Phase::EnableRead;
                Step::Transact(Ctrl3::read(address))
            },
            Phase::EnableRead => {
                let tx = Ctrl3::modify(address, data[0], enable_output);
                self.session.phase = Phase::EnableWrite { value: tx.value() };
                Step::Transact(tx)
            },
            Phase::EnableWrite { .. } => {
                self.session.phase = Phase::DrainStatus;
                Step::Transact(Status::read(address))
            },
            Phase::DrainStatus => {
                if Status::decode(data[0]).any_available() {
                    self.session.phase = Phase::DrainHumidity;
                    Step::Transact(Hout::read(address))
                } else {
                    self.session.phase = Phase::CalibrateT0;
                    Step::Transact(CalibrationRegister::T0.read(address))
                }
            },
            Phase::DrainHumidity => {
                self.session.phase = Phase::DrainTemperature;
                Step::Transact(Tout::read(address))
            },
            Phase::DrainTemperature => {
                self.session.phase = Phase::DrainStatus;
                Step::Transact(Status::read(address))
            },
            Phase::CalibrateT0 => {
                let t0 = CalibrationPoint::decode(four_bytes(data));
                self.session.phase = Phase::CalibrateT1 { t0 };
                Step::Transact(CalibrationRegister::T1.read(address))
            },
            Phase::CalibrateT1 { t0 } => {
                let t1 = CalibrationPoint::decode(four_bytes(data));
                self.session.phase = Phase::CalibrateH0 { t0, t1 };
                Step::Transact(CalibrationRegister::H0.read(address))
            },
            Phase::CalibrateH0 { t0, t1 } => {
                let h0 = CalibrationPoint::decode(four_bytes(data));
                self.session.phase = Phase::CalibrateH1 { t0, t1, h0 };
                Step::Transact(CalibrationRegister::H1.read(address))
            },
            Phase::CalibrateH1 { t0, t1, h0 } => {
                let h1 = CalibrationPoint::decode(four_bytes(data));
                self.session.phase = Phase::Idle;
                match Calibration::new(t0, t1, h0, h1) {
                    Ok(calibration) => {
                        self.session.calibration = Some(calibration);
                        Step::Initialized
                    },
                    Err(_) => Step::Failed(Hts221Error::InvalidCalibration),
                }
            },
            Phase::ReadTemperature => {
                let t_out = Tout::decode(two_bytes(data));
                self.session.phase = Phase::ReadHumidity { t_out };
                Step::Transact(Hout::read(address))
            },
            Phase::ReadHumidity { t_out } => {
                let h_out = Hout::decode(two_bytes(data));
                self.session.phase = Phase::Idle;
                match self.session.calibration {
                    Some(calibration) => Step::Acquired(
                        SensorAcquisition {
                            temperature: calibration.calibrated_temperature(t_out),
                            relative_humidity: calibration.calibrated_humidity(h_out),
                        },
                    ),
                    None => Step::Failed(Hts221Error::NotCalibrated),
                }
            },
        }
    }
}

/// Control register 2 with the reboot flag set.
fn request_boot(reg: Ctrl2) -> (out: Ctrl2)
    ensures
        out == (Ctrl2 { boot: true, ..reg }),
{
    let mut reg = reg;
    reg.boot();
    reg
}

/// Control register 1 for steady operation: powered, one conversion per
/// second, output registers updated only between reads.
fn configure(reg: Ctrl1) -> (out: Ctrl1)
    ensures
        out == (Ctrl1 {
            power_active: true,
            output_data_rate: OutputDataRate::Hz1,
            block_data_update: BlockDataUpdate::MsbLsbReading,
        }),
{
    let mut reg = reg;
    reg.power_active().output_data_rate(OutputDataRate::Hz1).block_data_update(
        BlockDataUpdate::MsbLsbReading,
    );
    reg
}

/// Control register 3 with the enable flag set.
fn enable_output(reg: Ctrl3) -> (out: Ctrl3)
    ensures
        out == (Ctrl3 { enable: true, ..reg }),
{
    let mut reg = reg;
    reg.enable(true);
    reg
}

/// The two bytes of a reply of two bytes.
fn two_bytes(data: &[u8]) -> (bytes: [u8; 2])
    requires
        data@.len() == 2,
    ensures
        bytes@ == data@,
{
    let bytes: [u8; 2] = [data[0], data[1]];
    assert(bytes@ =~= data@);
    bytes
}

/// The four bytes of a reply of four bytes.
fn four_bytes(data: &[u8]) -> (bytes: [u8; 4])
    requires
        data@.len() == 4,
    ensures
        bytes@ == data@,
{
    let bytes: [u8; 4] = [data[0], data[1], data[2], data[3]];
    assert(bytes@ =~= data@);
    bytes
}

} // verus!
