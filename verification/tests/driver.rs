use hts221::address::I2cAddress;
use hts221::bus::Transaction;
use hts221::driver::{Hts221, Hts221Error, Phase, State, Step};
use hts221::ratio::Ratio;
use hts221::register::calibration::CalibrationPoint;

/// A device on a bus, as far as the driver can tell: registers to read
/// and write, a number of stale samples, and a record of every
/// transaction.
struct Device {
    identity: u8,
    ctrl1: u8,
    ctrl2: u8,
    ctrl3: u8,
    stale: usize,
    t_out: i16,
    h_out: i16,
    points: [CalibrationPoint; 4],
    fail_at: Option<usize>,
    log: Vec<Transaction>,
}

fn point(raw: i16, calibrated: i16) -> CalibrationPoint {
    CalibrationPoint { raw, calibrated }
}

fn device() -> Device {
    Device {
        identity: 0x5F,
        ctrl1: 0,
        ctrl2: 0,
        ctrl3: 0,
        stale: 0,
        t_out: 200,
        h_out: 3000,
        points: [point(100, 400), point(300, 800), point(1000, 40), point(5000, 160)],
        fail_at: None,
        log: Vec::new(),
    }
}

fn perform(device: &mut Device, tx: Transaction) -> Result<Vec<u8>, u32> {
    let index = device.log.len();
    device.log.push(tx);
    if device.fail_at == Some(index) {
        return Err(1000 + index as u32);
    }
    match tx {
        Transaction::Write { register, value, .. } => {
            match register {
                0x20 => device.ctrl1 = value,
                0x21 => device.ctrl2 = value,
                0x22 => device.ctrl3 = value,
                _ => panic!("write to register {:#x}", register),
            }
            Ok(Vec::new())
        }
        Transaction::Read { register, len, .. } => {
            let bytes = match register {
                0x0F => vec![device.identity],
                0x20 => vec![device.ctrl1],
                0x21 => vec![device.ctrl2],
                0x22 => vec![device.ctrl3],
                0x27 => vec![if device.stale > 0 { 0b11 } else { 0 }],
                0xA8 => device.h_out.to_le_bytes().to_vec(),
                0xAA => {
                    if device.stale > 0 {
                        device.stale -= 1;
                    }
                    device.t_out.to_le_bytes().to_vec()
                }
                0xB0 => device.points[0].encode().to_vec(),
                0xB4 => device.points[1].encode().to_vec(),
                0xB8 => device.points[2].encode().to_vec(),
                0xBC => device.points[3].encode().to_vec(),
                _ => panic!("read of register {:#x}", register),
            };
            assert_eq!(bytes.len(), len as usize);
            Ok(bytes)
        }
    }
}

fn drive(driver: &mut Hts221, device: &mut Device, first: Step<u32>) -> Step<u32> {
    let mut step = first;
    loop {
        match step {
            Step::Transact(tx) => {
                assert_eq!(tx_address(tx), I2cAddress::new(0x5F));
                step = match perform(device, tx) {
                    Ok(bytes) => driver.resume(Ok(bytes.as_slice())),
                    Err(e) => driver.resume(Err(e)),
                };
            }
            done => return done,
        }
    }
}

fn tx_address(tx: Transaction) -> I2cAddress {
    match tx {
        Transaction::Read { address, .. } => address,
        Transaction::Write { address, .. } => address,
    }
}

fn read(register: u8, len: u8) -> Transaction {
    Transaction::Read { address: I2cAddress::new(0x5F), register, len }
}

fn write(register: u8, value: u8) -> Transaction {
    Transaction::Write { address: I2cAddress::new(0x5F), register, value }
}

fn setup() -> Vec<Transaction> {
    vec![
        read(0x0F, 1),
        read(0x21, 1),
        write(0x21, 0x80),
        read(0x20, 1),
        write(0x20, 0x94),
        read(0x22, 1),
        write(0x22, 0x04),
    ]
}

fn calibration_reads() -> Vec<Transaction> {
    vec![read(0xB0, 4), read(0xB4, 4), read(0xB8, 4), read(0xBC, 4)]
}

fn expected_log(rounds: usize) -> Vec<Transaction> {
    let mut log = setup();
    for _ in 0..rounds {
        log.push(read(0x27, 1));
        log.push(read(0xA8, 2));
        log.push(read(0xAA, 2));
    }
    log.push(read(0x27, 1));
    log.extend(calibration_reads());
    log
}

fn initialized() -> Hts221 {
    let mut driver = Hts221::new();
    let mut device = device();
    let first = driver.initialize();
    assert!(matches!(drive(&mut driver, &mut device, first), Step::Initialized));
    driver
}

fn as_f32(value: Ratio) -> f32 {
    value.numerator() as f32 / value.denominator() as f32
}

#[test]
fn a_new_session_is_uninitialized() {
    let driver = Hts221::new();
    assert_eq!(driver.address(), I2cAddress::new(0x5F));
    assert!(driver.calibration().is_none());
    assert_eq!(driver.phase(), Phase::Idle);
    assert_eq!(driver.state(), State::Uninitialized);
}

#[test]
fn read_before_initialize_fails_without_a_transaction() {
    let mut driver = Hts221::new();
    let step: Step<u32> = driver.read();
    assert!(matches!(step, Step::Failed(Hts221Error::NotCalibrated)));
    assert_eq!(driver.phase(), Phase::Idle);
    assert_eq!(driver.state(), State::Uninitialized);
    assert!(driver.calibration().is_none());
    let again: Step<u32> = driver.read();
    assert!(matches!(again, Step::Failed(Hts221Error::NotCalibrated)));
}

#[test]
fn initialize_starts_with_the_identity_register() {
    let mut driver = Hts221::new();
    let step: Step<u32> = driver.initialize();
    assert!(matches!(step, Step::Transact(tx) if tx == read(0x0F, 1)));
    assert_eq!(driver.state(), State::Identifying);
}

#[test]
fn initialize_runs_the_whole_sequence_in_order() {
    let mut driver = Hts221::new();
    let mut device = device();
    let first = driver.initialize();
    let last = drive(&mut driver, &mut device, first);
    assert!(matches!(last, Step::Initialized));
    assert_eq!(device.log, expected_log(0));
    assert_eq!(driver.state(), State::Ready);
    assert_eq!(driver.phase(), Phase::Idle);
    assert_eq!(device.ctrl1, 0x94);
    assert_eq!(device.ctrl2, 0x80);
    assert_eq!(device.ctrl3, 0x04);
    let calibration = driver.calibration().unwrap();
    assert_eq!(calibration.t0(), point(100, 400));
    assert_eq!(calibration.t1(), point(300, 800));
    assert_eq!(calibration.h0(), point(1000, 40));
    assert_eq!(calibration.h1(), point(5000, 160));
}

#[test]
fn initialize_keeps_the_other_bits_of_the_control_registers() {
    let mut driver = Hts221::new();
    let mut device = device();
    device.ctrl2 = 0b0000_0011;
    device.ctrl3 = 0b1100_0000;
    device.ctrl1 = 0b0011_0000;
    let first = driver.initialize();
    assert!(matches!(drive(&mut driver, &mut device, first), Step::Initialized));
    assert_eq!(device.ctrl2, 0b1000_0011);
    assert_eq!(device.ctrl3, 0b1100_0100);
    assert_eq!(device.ctrl1, 0x94);
}

#[test]
fn the_states_come_in_order() {
    let mut driver = Hts221::new();
    let mut device = device();
    device.stale = 1;
    let mut seen = vec![driver.state()];
    let mut step: Step<u32> = driver.initialize();
    loop {
        if seen.last() != Some(&driver.state()) {
            seen.push(driver.state());
        }
        match step {
            Step::Transact(tx) => {
                let bytes = perform(&mut device, tx).unwrap();
                step = driver.resume(Ok(bytes.as_slice()));
            }
            _ => break,
        }
    }
    assert_eq!(
        seen,
        vec![
            State::Uninitialized,
            State::Identifying,
            State::Booting,
            State::Configuring,
            State::Draining,
            State::Calibrating,
            State::Ready,
        ]
    );
}

#[test]
fn a_wrong_identity_stops_before_any_write() {
    let mut driver = Hts221::new();
    let mut device = device();
    device.identity = 0xBC;
    let first = driver.initialize();
    let last = drive(&mut driver, &mut device, first);
    assert!(matches!(last, Step::Failed(Hts221Error::InvalidSensor)));
    assert_eq!(device.log, vec![read(0x0F, 1)]);
    assert_eq!((device.ctrl1, device.ctrl2, device.ctrl3), (0, 0, 0));
    assert_eq!(driver.state(), State::Uninitialized);
    assert!(driver.calibration().is_none());
}

#[test]
fn the_identity_is_read_before_any_write() {
    let mut driver = Hts221::new();
    let mut device = device();
    device.stale = 2;
    let first = driver.initialize();
    assert!(matches!(drive(&mut driver, &mut device, first), Step::Initialized));
    let first_write =
        device.log.iter().position(|tx| matches!(tx, Transaction::Write { .. })).unwrap();
    let identity = device.log.iter().position(|tx| *tx == read(0x0F, 1)).unwrap();
    assert_eq!(identity, 0);
    assert!(identity < first_write);
}

#[test]
fn no_stale_sample_means_no_drain_read() {
    let mut driver = Hts221::new();
    let mut device = device();
    let first = driver.initialize();
    assert!(matches!(drive(&mut driver, &mut device, first), Step::Initialized));
    assert_eq!(device.log.iter().filter(|tx| **tx == read(0xA8, 2)).count(), 0);
    assert_eq!(device.log.iter().filter(|tx| **tx == read(0xAA, 2)).count(), 0);
    assert_eq!(device.log.iter().filter(|tx| **tx == read(0x27, 1)).count(), 1);
}

#[test]
fn one_stale_sample_is_drained_by_one_pair() {
    let mut driver = Hts221::new();
    let mut device = device();
    device.stale = 1;
    let first = driver.initialize();
    assert!(matches!(drive(&mut driver, &mut device, first), Step::Initialized));
    assert_eq!(device.log, expected_log(1));
}

#[test]
fn five_stale_samples_are_drained_by_five_pairs() {
    let mut driver = Hts221::new();
    let mut device = device();
    device.stale = 5;
    let first = driver.initialize();
    assert!(matches!(drive(&mut driver, &mut device, first), Step::Initialized));
    assert_eq!(device.log, expected_log(5));
    assert_eq!(device.log.iter().filter(|tx| **tx == read(0xA8, 2)).count(), 5);
    assert_eq!(device.log.iter().filter(|tx| **tx == read(0xAA, 2)).count(), 5);
    assert_eq!(device.stale, 0);
}

#[test]
fn many_stale_samples_are_all_drained() {
    let mut driver = Hts221::new();
    let mut device = device();
    device.stale = 300;
    let first = driver.initialize();
    assert!(matches!(drive(&mut driver, &mut device, first), Step::Initialized));
    assert_eq!(device.log.len(), 7 + 3 * 300 + 1 + 4);
    assert_eq!(device.log, expected_log(300));
}

#[test]
fn each_status_flag_alone_asks_for_a_drain() {
    for status in [0b01u8, 0b10, 0b11] {
        let mut driver = Hts221::new();
        let mut step: Step<u32> = driver.initialize();
        for reply in [vec![0x5Fu8], vec![0], vec![], vec![0], vec![], vec![0], vec![]] {
            assert!(matches!(step, Step::Transact(_)));
            step = driver.resume(Ok(reply.as_slice()));
        }
        assert!(matches!(step, Step::Transact(tx) if tx == read(0x27, 1)));
        step = driver.resume(Ok(&[status]));
        assert!(matches!(step, Step::Transact(tx) if tx == read(0xA8, 2)));
        assert_eq!(driver.phase(), Phase::DrainHumidity);
        step = driver.resume(Ok(&[1, 2]));
        assert!(matches!(step, Step::Transact(tx) if tx == read(0xAA, 2)));
        step = driver.resume(Ok(&[3, 4]));
        assert!(matches!(step, Step::Transact(tx) if tx == read(0x27, 1)));
        step = driver.resume(Ok(&[0b1111_1100]));
        assert!(matches!(step, Step::Transact(tx) if tx == read(0xB0, 4)));
        assert_eq!(driver.state(), State::Calibrating);
    }
}

#[test]
fn a_transport_error_at_any_point_ends_the_initialization() {
    let total = expected_log(2).len();
    for index in 0..total {
        let mut driver = Hts221::new();
        let mut device = device();
        device.stale = 2;
        device.fail_at = Some(index);
        let first = driver.initialize();
        let last = drive(&mut driver, &mut device, first);
        assert!(matches!(last, Step::Failed(Hts221Error::I2c(e)) if e == 1000 + index as u32));
        assert_eq!(device.log.len(), index + 1);
        assert_eq!(device.log[..], expected_log(2)[..index + 1]);
        assert!(driver.calibration().is_none());
        assert_eq!(driver.phase(), Phase::Idle);
        assert_eq!(driver.state(), State::Uninitialized);
    }
}

#[test]
fn a_failed_status_read_is_reported() {
    let mut driver = Hts221::new();
    let mut device = device();
    device.stale = 1;
    device.fail_at = Some(7);
    let first = driver.initialize();
    let last = drive(&mut driver, &mut device, first);
    assert!(matches!(last, Step::Failed(Hts221Error::I2c(1007))));
    assert_eq!(device.log.last(), Some(&read(0x27, 1)));
    assert_eq!(device.log.len(), 8);
}

#[test]
fn equal_temperature_codes_fail_the_initialization() {
    let mut driver = Hts221::new();
    let mut device = device();
    device.points[1] = point(100, 800);
    let first = driver.initialize();
    let last = drive(&mut driver, &mut device, first);
    assert!(matches!(last, Step::Failed(Hts221Error::InvalidCalibration)));
    assert_eq!(device.log, expected_log(0));
    assert!(driver.calibration().is_none());
    assert_eq!(driver.state(), State::Uninitialized);
    let step: Step<u32> = driver.read();
    assert!(matches!(step, Step::Failed(Hts221Error::NotCalibrated)));
}

#[test]
fn equal_humidity_codes_fail_the_initialization() {
    let mut driver = Hts221::new();
    let mut device = device();
    device.points[3] = point(1000, 160);
    let first = driver.initialize();
    let last = drive(&mut driver, &mut device, first);
    assert!(matches!(last, Step::Failed(Hts221Error::InvalidCalibration)));
    assert!(driver.calibration().is_none());
}

#[test]
fn a_failed_initialization_can_be_tried_again() {
    let mut driver = Hts221::new();
    let mut device = device();
    device.identity = 0x00;
    let first = driver.initialize();
    assert!(matches!(drive(&mut driver, &mut device, first), Step::Failed(Hts221Error::InvalidSensor)));
    device.identity = 0x5F;
    device.log.clear();
    let second = driver.initialize();
    assert!(matches!(drive(&mut driver, &mut device, second), Step::Initialized));
    assert_eq!(device.log, expected_log(0));
    assert_eq!(driver.state(), State::Ready);
}

#[test]
fn a_failed_second_initialization_keeps_the_calibration() {
    let mut driver = initialized();
    let mut device = device();
    device.points[0] = point(1, 2);
    device.fail_at = Some(9);
    let first = driver.initialize();
    assert_eq!(driver.state(), State::Identifying);
    assert!(matches!(drive(&mut driver, &mut device, first), Step::Failed(Hts221Error::I2c(1009))));
    assert_eq!(driver.calibration().unwrap().t0(), point(100, 400));
    assert_eq!(driver.state(), State::Ready);
}

#[test]
fn a_second_initialization_replaces_the_calibration() {
    let mut driver = initialized();
    let mut device = device();
    device.points[0] = point(1, 2);
    let first = driver.initialize();
    assert!(matches!(drive(&mut driver, &mut device, first), Step::Initialized));
    assert_eq!(driver.calibration().unwrap().t0(), point(1, 2));
}

#[test]
fn a_read_gives_calibrated_values() {
    let mut driver = initialized();
    let mut device = device();
    let first = driver.read();
    let last = drive(&mut driver, &mut device, first);
    assert_eq!(device.log, vec![read(0xAA, 2), read(0xA8, 2)]);
    match last {
        Step::Acquired(acquisition) => {
            assert_eq!(as_f32(acquisition.temperature.raw_value()), 75.0);
            assert_eq!(as_f32(acquisition.relative_humidity), 50.0);
            assert_eq!(acquisition.temperature.raw_value().numerator(), 120000);
            assert_eq!(acquisition.temperature.raw_value().denominator(), 1600);
            assert_eq!(acquisition.relative_humidity.numerator(), 400000);
            assert_eq!(acquisition.relative_humidity.denominator(), 8000);
            assert_eq!(as_f32(acquisition.temperature.into_fahrenheit().raw_value()), 167.0);
        }
        other => panic!("no measurement: {:?}", other),
    }
    assert_eq!(driver.state(), State::Ready);
    assert_eq!(driver.phase(), Phase::Idle);
}

#[test]
fn a_read_decodes_negative_codes() {
    let mut driver = initialized();
    let mut device = device();
    device.t_out = -100;
    device.h_out = -1000;
    let first = driver.read();
    match drive(&mut driver, &mut device, first) {
        Step::Acquired(acquisition) => {
            assert_eq!(as_f32(acquisition.temperature.raw_value()), 0.0);
            assert_eq!(as_f32(acquisition.relative_humidity), -10.0);
        }
        other => panic!("no measurement: {:?}", other),
    }
}

#[test]
fn reads_can_be_repeated() {
    let mut driver = initialized();
    let mut device = device();
    for t_out in [100i16, 200, 300, 400] {
        device.t_out = t_out;
        let first = driver.read();
        match drive(&mut driver, &mut device, first) {
            Step::Acquired(acquisition) => {
                let expected = 50.0 + (t_out - 100) as f32 / 4.0;
                assert_eq!(as_f32(acquisition.temperature.raw_value()), expected);
            }
            other => panic!("no measurement: {:?}", other),
        }
    }
    assert_eq!(device.log.len(), 8);
}

#[test]
fn a_transport_error_ends_a_read() {
    for index in 0..2 {
        let mut driver = initialized();
        let mut device = device();
        device.fail_at = Some(index);
        let first = driver.read();
        let last = drive(&mut driver, &mut device, first);
        assert!(matches!(last, Step::Failed(Hts221Error::I2c(e)) if e == 1000 + index as u32));
        assert_eq!(device.log.len(), index + 1);
        assert_eq!(driver.state(), State::Ready);
        assert!(driver.calibration().is_some());
    }
}

#[test]
fn an_error_converts_from_the_transport_error() {
    let error: Hts221Error<u32> = 7u32.into();
    assert!(matches!(error, Hts221Error::I2c(7)));
    let other = Hts221Error::from("bus fault");
    assert!(matches!(other, Hts221Error::I2c("bus fault")));
}

#[test]
fn starting_over_abandons_what_was_in_flight() {
    let mut driver = initialized();
    let first: Step<u32> = driver.read();
    assert!(matches!(first, Step::Transact(tx) if tx == read(0xAA, 2)));
    assert_eq!(driver.phase(), Phase::ReadTemperature);
    let again: Step<u32> = driver.initialize();
    assert!(matches!(again, Step::Transact(tx) if tx == read(0x0F, 1)));
    assert_eq!(driver.phase(), Phase::Identifying);
    let step: Step<u32> = driver.resume(Ok(&[0x5F]));
    assert!(matches!(step, Step::Transact(tx) if tx == read(0x21, 1)));
    assert_eq!(driver.phase(), Phase::BootRead);
    let step: Step<u32> = driver.resume(Ok(&[0x01]));
    assert!(matches!(step, Step::Transact(tx) if tx == write(0x21, 0x81)));
    assert_eq!(driver.phase(), Phase::BootWrite { value: 0x81 });
}
