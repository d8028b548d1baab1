//! The factory calibration: four registers, each holding one reference
//! point, and the line that two points define.

use vstd::prelude::*;
use crate::address::I2cAddress;
use crate::bus::Transaction;
use crate::ratio::{fits_i64, Ratio};
use crate::temperature::{Celsius, Temperature};
use crate::word::{i16_from_le, i16_to_le, spec_i16_from_le, spec_i16_to_le};

verus! {

/// Register index of the first temperature reference point.
pub const CALIB_T0: u8 = 0xB0;

/// Register index of the second temperature reference point.
pub const CALIB_T1: u8 = 0xB4;

/// Register index of the first humidity reference point.
pub const CALIB_H0: u8 = 0xB8;

/// Register index of the second humidity reference point.
pub const CALIB_H1: u8 = 0xBC;

/// By how much the calibrated temperature values are scaled: they are in
/// eighths of a degree Celsius.
pub const TEMPERATURE_SCALE: i64 = 8;

/// By how much the calibrated humidity values are scaled: they are in
/// halves of a percent.
pub const HUMIDITY_SCALE: i64 = 2;

/// One of the four calibration registers.
#[derive(Clone, Copy, Debug, PartialEq, Eq, Structural)]
pub enum CalibrationRegister {
    /// First temperature reference point.
    T0,
    /// Second temperature reference point.
    T1,
    /// First humidity reference point.
    H0,
    /// Second humidity reference point.
    H1,
}

impl CalibrationRegister {
    /// The register index, with the flag that makes the device step to
    /// the next register after each byte.
    pub open spec fn spec_index(self) -> u8 {
        match self {
            CalibrationRegister::T0 => CALIB_T0,
            CalibrationRegister::T1 => CALIB_T1,
            CalibrationRegister::H0 => CALIB_H0,
            CalibrationRegister::H1 => CALIB_H1,
        }
    }

    /// The register index.
    #[verifier::when_used_as_spec(spec_index)]
    pub fn index(self) -> (index: u8)
        ensures
            index == self.spec_index(),
    {
        match self {
            CalibrationRegister::T0 => CALIB_T0,
            CalibrationRegister::T1 => CALIB_T1,
            CalibrationRegister::H0 => CALIB_H0,
            CalibrationRegister::H1 => CALIB_H1,
        }
    }

    /// The transaction that reads the register.
    pub fn read(self, address: I2cAddress) -> (tx: Transaction)
        ensures
            tx == (Transaction::Read { address, register: self.spec_index(), len: 4 }),
    {
        Transaction::Read { address, register: self.index(), len: 4 }
    }
}

/// A reference point: a raw code and the calibrated value that the
/// factory measured for it. A calibration register holds one point in
/// four bytes, the raw code first, each word low byte first.
#[derive(Clone, Copy, Debug, PartialEq, Eq, Structural)]
pub struct CalibrationPoint {
    /// The raw code.
    pub raw: i16,
    /// The calibrated value, scaled: in eighths of a degree Celsius for
    /// temperature, in halves of a percent for humidity.
    pub calibrated: i16,
}

impl CalibrationPoint {
    /// The point that a register's bytes stand for.
    pub open spec fn spec_decode(bytes: Seq<u8>) -> CalibrationPoint {
        CalibrationPoint {
            raw: spec_i16_from_le(bytes.subrange(0, 2)),
            calibrated: spec_i16_from_le(bytes.subrange(2, 4)),
        }
    }

    /// The bytes that stand for a point.
    pub open spec fn spec_encode(self) -> Seq<u8> {
        spec_i16_to_le(self.raw) + spec_i16_to_le(self.calibrated)
    }

    /// Decodes the bytes read from a calibration register.
    pub fn decode(bytes: [u8; 4]) -> (point: CalibrationPoint)
        ensures
            point == Self::spec_decode(bytes@),
    {
        let raw: [u8; 2] = [bytes[0], bytes[1]];
        let calibrated: [u8; 2] = [bytes[2], bytes[3]];
        assert(raw@ =~= bytes@.subrange(0, 2));
        assert(calibrated@ =~= bytes@.subrange(2, 4));
        CalibrationPoint { raw: i16_from_le(raw), calibrated: i16_from_le(calibrated) }
    }

    /// Encodes the point as the bytes that its register would read as.
    pub fn encode(self) -> (bytes: [u8; 4])
        ensures
            bytes@ == self.spec_encode(),
    {
        let raw = i16_to_le(self.raw);
        let calibrated = i16_to_le(self.calibrated);
        let bytes: [u8; 4] = [raw[0], raw[1], calibrated[0], calibrated[1]];
        assert(bytes@ =~= self.spec_encode());
        bytes
    }

    /// Decoding and encoding undo each other, for every point and every
    /// four bytes: the register has no reserved bits.
    pub proof fn lemma_round_trip(point: CalibrationPoint, bytes: Seq<u8>)
        requires
            bytes.len() == 4,
        ensures
            point.spec_encode().len() == 4,
            Self::spec_decode(point.spec_encode()) == point,
            Self::spec_encode(Self::spec_decode(bytes)) == bytes,
    {
        let encoded = point.spec_encode();
        assert(encoded.subrange(0, 2) =~= spec_i16_to_le(point.raw));
        assert(encoded.subrange(2, 4) =~= spec_i16_to_le(point.calibrated));
        crate::word::lemma_i16_from_to_le(point.raw);
        crate::word::lemma_i16_from_to_le(point.calibrated);
        crate::word::lemma_i16_to_from_le(bytes.subrange(0, 2));
        crate::word::lemma_i16_to_from_le(bytes.subrange(2, 4));
        assert(Self::spec_encode(Self::spec_decode(bytes)) =~= bytes);
    }
}

/// The numerator of the value at `raw` of the line through `first` and `second`,
/// `y0 + (raw - x0) * (y1 - y0) / (x1 - x0)`, over
/// [`line_denominator`]. The raw codes of the two points differ.
pub open spec fn line_numerator(first: CalibrationPoint, second: CalibrationPoint, raw: i16) -> int {
    let dx = second.raw - first.raw;
    let dy = second.calibrated - first.calibrated;
    let numerator = first.calibrated * dx + (raw - first.raw) * dy;
    if dx > 0 {
        numerator
    } else {
        -numerator
    }
}

/// The denominator of the values of the line through `first` and `second`, once
/// they are divided by `scale`: `scale * |x1 - x0|`.
pub open spec fn line_denominator(first: CalibrationPoint, second: CalibrationPoint, scale: int) -> int {
    let dx = second.raw - first.raw;
    if dx > 0 {
        scale * dx
    } else {
        scale * -dx
    }
}

/// The value at `raw` of the line through `first` and `second`, divided by
/// `scale`.
pub open spec fn line_value(first: CalibrationPoint, second: CalibrationPoint, raw: i16, scale: int) -> Ratio {
    Ratio::spec_new(line_numerator(first, second, raw), line_denominator(first, second, scale))
}

/// The parts of a value of the line are small: the numerator is below
/// 2^33 in size, the denominator positive and at most `scale * 65535`.
pub proof fn lemma_line_bounds(first: CalibrationPoint, second: CalibrationPoint, raw: i16, scale: int)
    requires
        first.raw != second.raw,
        0 < scale <= 8,
    ensures
        -0x2_0000_0000 < line_numerator(first, second, raw) < 0x2_0000_0000,
        0 < line_denominator(first, second, scale) <= scale * 65535,
        line_value(first, second, raw, scale).spec_numerator() == line_numerator(first, second, raw),
        line_value(first, second, raw, scale).spec_denominator() == line_denominator(first, second, scale),
        line_value(first, second, raw, scale).wf(),
{
    let dx = second.raw - first.raw;
    let dy = second.calibrated - first.calibrated;
    let rx = raw - first.raw;
    let y0 = first.calibrated as int;
    assert(-0x8000_0000 < y0 * dx < 0x8000_0000) by (nonlinear_arith)
        requires
            -32768 <= y0 <= 32767,
            -65535 <= dx <= 65535,
    ;
    assert(-0x1_0000_0000 < rx * dy < 0x1_0000_0000) by (nonlinear_arith)
        requires
            -65535 <= rx <= 65535,
            -65535 <= dy <= 65535,
    ;
    assert(0 < line_denominator(first, second, scale) <= scale * 65535) by (nonlinear_arith)
        requires
            line_denominator(first, second, scale) == scale * (if dx > 0 { dx } else { -dx }),
            -65535 <= dx <= 65535,
            dx != 0,
            0 < scale <= 8,
    ;
    Ratio::lemma_parts(line_numerator(first, second, raw), line_denominator(first, second, scale));
}

/// The line goes through its two points: at the raw code of either
/// point its value, before the division by the scale, is that point's
/// calibrated value.
pub proof fn lemma_line_through_points(first: CalibrationPoint, second: CalibrationPoint, scale: int)
    requires
        first.raw != second.raw,
    ensures
        line_numerator(first, second, first.raw) * scale == first.calibrated * line_denominator(first, second, scale),
        line_numerator(first, second, second.raw) * scale == second.calibrated * line_denominator(first, second, scale),
{
    let dx = second.raw - first.raw;
    let dy = second.calibrated - first.calibrated;
    let y0 = first.calibrated as int;
    let y1 = second.calibrated as int;
    assert((y0 * dx + 0 * dy) * scale == y0 * (scale * dx) && (-(y0 * dx + 0 * dy)) * scale == y0
        * (scale * -dx)) by (nonlinear_arith);
    assert((y0 * dx + dx * dy) * scale == y1 * (scale * dx) && (-(y0 * dx + dx * dy)) * scale
        == y1 * (scale * -dx)) by (nonlinear_arith)
        requires
            dy == y1 - y0,
    ;
}

/// The values lie on one line, inside the two points and outside: between
/// any two raw codes `a` and `b` the value changes by
/// `(a - b) * (y1 - y0) / (x1 - x0)`, divided by the scale. Nothing is
/// clamped.
pub proof fn lemma_line_is_straight(
    first: CalibrationPoint,
    second: CalibrationPoint,
    a: i16,
    b: i16,
    scale: int,
)
    requires
        first.raw != second.raw,
    ensures
        (line_numerator(first, second, a) - line_numerator(first, second, b)) * (scale * (second.raw - first.raw)) == (a
            - b) * (second.calibrated - first.calibrated) * line_denominator(first, second, scale),
{
    let dx = second.raw - first.raw;
    let dy = second.calibrated - first.calibrated;
    let y0 = first.calibrated as int;
    let x0 = first.raw as int;
    let a = a as int;
    let b = b as int;
    assert(((y0 * dx + (a - x0) * dy) - (y0 * dx + (b - x0) * dy)) * (scale * dx) == (a - b) * dy
        * (scale * dx) && (-(y0 * dx + (a - x0) * dy) - -(y0 * dx + (b - x0) * dy)) * (scale * dx)
        == (a - b) * dy * (scale * -dx)) by (nonlinear_arith);
}

/// The value at `raw` of the line through `first` and `second`, divided by
/// `scale`, computed exactly.
fn interpolate(first: CalibrationPoint, second: CalibrationPoint, raw: i16, scale: i64) -> (value: Ratio)
    requires
        first.raw != second.raw,
        0 < scale <= 8,
    ensures
        value == line_value(first, second, raw, scale as int),
{
    let dx: i64 = second.raw as i64 - first.raw as i64;
    let dy: i64 = second.calibrated as i64 - first.calibrated as i64;
    let rx: i64 = raw as i64 - first.raw as i64;
    let y0: i64 = first.calibrated as i64;
    proof {
        lemma_line_bounds(first, second, raw, scale as int);
        assert(-0x8000_0000 < y0 * dx < 0x8000_0000) by (nonlinear_arith)
            requires
                -32768 <= y0 <= 32767,
                -65535 <= dx <= 65535,
        ;
        assert(-0x1_0000_0000 < rx * dy < 0x1_0000_0000) by (nonlinear_arith)
            requires
                -65535 <= rx <= 65535,
                -65535 <= dy <= 65535,
        ;
        assert(-524280 <= scale * dx <= 524280) by (nonlinear_arith)
            requires
                -65535 <= dx <= 65535,
                0 < scale <= 8,
        ;
        assert(scale * (-dx) == -(scale * dx)) by (nonlinear_arith);
    }
    let numerator: i64 = y0 * dx + rx * dy;
    let denominator: i64 = scale * dx;
    if dx > 0 {
        Ratio::from_wide(numerator as i128, denominator as i128)
    } else {
        Ratio::from_wide(-numerator as i128, -denominator as i128)
    }
}

/// The error of a calibration whose two reference points for one
/// quantity have the same raw code: they define no line.
#[derive(Clone, Copy, Debug, PartialEq, Eq, Structural)]
pub struct InvalidCalibration;

/// The calibration of one device: two reference points for temperature
/// and two for humidity. The two raw codes of each pair differ.
#[derive(Clone, Copy, Debug)]
pub struct Calibration {
    t0: CalibrationPoint,
    t1: CalibrationPoint,
    h0: CalibrationPoint,
    h1: CalibrationPoint,
}

impl Calibration {
    #[verifier::type_invariant]
    spec fn distinct_raw_codes(self) -> bool {
        Self::valid(self.t0, self.t1, self.h0, self.h1)
    }

    /// Whether four points make a calibration: the raw codes of the two
    /// temperature points differ, and so do those of the two humidity
    /// points.
    pub open spec fn valid(
        t0: CalibrationPoint,
        t1: CalibrationPoint,
        h0: CalibrationPoint,
        h1: CalibrationPoint,
    ) -> bool {
        t0.raw != t1.raw && h0.raw != h1.raw
    }

    /// The calibration made of four points.
    pub closed spec fn spec_new(
        t0: CalibrationPoint,
        t1: CalibrationPoint,
        h0: CalibrationPoint,
        h1: CalibrationPoint,
    ) -> Calibration {
        Calibration { t0, t1, h0, h1 }
    }

    /// The first temperature reference point.
    pub closed spec fn spec_t0(&self) -> CalibrationPoint {
        self.t0
    }

    /// The second temperature reference point.
    pub closed spec fn spec_t1(&self) -> CalibrationPoint {
        self.t1
    }

    /// The first humidity reference point.
    pub closed spec fn spec_h0(&self) -> CalibrationPoint {
        self.h0
    }

    /// The second humidity reference point.
    pub closed spec fn spec_h1(&self) -> CalibrationPoint {
        self.h1
    }

    /// Whether the points of this calibration make a calibration. Every
    /// value that a program holds is well formed.
    pub open spec fn wf(self) -> bool {
        Self::valid(self.spec_t0(), self.spec_t1(), self.spec_h0(), self.spec_h1())
    }

    /// The calibrated temperature for a raw code: the value of the line
    /// through the two temperature points, in degrees Celsius.
    pub open spec fn spec_calibrated_temperature(self, raw: i16) -> Temperature<Celsius> {
        Temperature::<Celsius>::spec_new(
            line_value(self.spec_t0(), self.spec_t1(), raw, TEMPERATURE_SCALE as int),
        )
    }

    /// The calibrated relative humidity for a raw code: the value of the
    /// line through the two humidity points, in percent.
    pub open spec fn spec_calibrated_humidity(self, raw: i16) -> Ratio {
        line_value(self.spec_h0(), self.spec_h1(), raw, HUMIDITY_SCALE as int)
    }

    /// Makes a calibration of four reference points, unless two points of
    /// one quantity have the same raw code.
    pub fn new(
        t0: CalibrationPoint,
        t1: CalibrationPoint,
        h0: CalibrationPoint,
        h1: CalibrationPoint,
    ) -> (calibration: Result<Calibration, InvalidCalibration>)
        ensures
            Self::valid(t0, t1, h0, h1) ==> calibration == Ok::<Calibration, InvalidCalibration>(
                Self::spec_new(t0, t1, h0, h1),
            ),
            !Self::valid(t0, t1, h0, h1) ==> calibration is Err,
    {
        if t0.raw != t1.raw && h0.raw != h1.raw {
            Ok(Calibration { t0, t1, h0, h1 })
        } else {
            Err(InvalidCalibration)
        }
    }

    /// The first temperature reference point.
    #[verifier::when_used_as_spec(spec_t0)]
    pub fn t0(&self) -> (point: CalibrationPoint)
        ensures
            point == self.spec_t0(),
    {
        self.t0
    }

    /// The second temperature reference point.
    #[verifier::when_used_as_spec(spec_t1)]
    pub fn t1(&self) -> (point: CalibrationPoint)
        ensures
            point == self.spec_t1(),
            point.raw != self.spec_t0().raw,
    {
        proof {
            use_type_invariant(self);
        }
        self.t1
    }

    /// The first humidity reference point.
    #[verifier::when_used_as_spec(spec_h0)]
    pub fn h0(&self) -> (point: CalibrationPoint)
        ensures
            point == self.spec_h0(),
    {
        self.h0
    }

    /// The second humidity reference point.
    #[verifier::when_used_as_spec(spec_h1)]
    pub fn h1(&self) -> (point: CalibrationPoint)
        ensures
            point == self.spec_h1(),
            point.raw != self.spec_h0().raw,
    {
        proof {
            use_type_invariant(self);
        }
        self.h1
    }

    /// The calibrated temperature for a raw code, in degrees Celsius:
    /// `(y0 + (raw - x0) * (y1 - y0) / (x1 - x0)) / 8` over the two
    /// temperature points `(x0, y0)` and `(x1, y1)`, exactly. Raw codes
    /// outside the two points follow the same line.
    pub fn calibrated_temperature(&self, raw: i16) -> (temperature: Temperature<Celsius>)
        ensures
            temperature == self.spec_calibrated_temperature(raw),
            temperature.spec_raw_value().spec_numerator() == line_numerator(
                self.spec_t0(),
                self.spec_t1(),
                raw,
            ),
            temperature.spec_raw_value().spec_denominator() == line_denominator(
                self.spec_t0(),
                self.spec_t1(),
                TEMPERATURE_SCALE as int,
            ),
            -0x2_0000_0000 < temperature.spec_raw_value().spec_numerator() < 0x2_0000_0000,
            0 < temperature.spec_raw_value().spec_denominator() <= 524280,
            fits_i64(temperature.fahrenheit_numerator()),
            fits_i64(temperature.fahrenheit_denominator()),
    {
        proof {
            use_type_invariant(self);
            lemma_line_bounds(self.t0, self.t1, raw, TEMPERATURE_SCALE as int);
            Temperature::<Celsius>::lemma_value(
                line_value(self.t0, self.t1, raw, TEMPERATURE_SCALE as int),
                self.spec_calibrated_temperature(raw),
            );
        }
        Temperature::new(interpolate(self.t0, self.t1, raw, TEMPERATURE_SCALE))
    }

    /// The calibrated relative humidity for a raw code, in percent:
    /// `(y0 + (raw - x0) * (y1 - y0) / (x1 - x0)) / 2` over the two
    /// humidity points `(x0, y0)` and `(x1, y1)`, exactly. Raw codes
    /// outside the two points follow the same line.
    pub fn calibrated_humidity(&self, raw: i16) -> (humidity: Ratio)
        ensures
            humidity == self.spec_calibrated_humidity(raw),
            humidity.spec_numerator() == line_numerator(self.spec_h0(), self.spec_h1(), raw),
            humidity.spec_denominator() == line_denominator(
                self.spec_h0(),
                self.spec_h1(),
                HUMIDITY_SCALE as int,
            ),
            -0x2_0000_0000 < humidity.spec_numerator() < 0x2_0000_0000,
            0 < humidity.spec_denominator() <= 131070,
    {
        proof {
            use_type_invariant(self);
            lemma_line_bounds(self.h0, self.h1, raw, HUMIDITY_SCALE as int);
        }
        interpolate(self.h0, self.h1, raw, HUMIDITY_SCALE)
    }

    /// A calibration is its four points.
    pub proof fn lemma_points(
        t0: CalibrationPoint,
        t1: CalibrationPoint,
        h0: CalibrationPoint,
        h1: CalibrationPoint,
        other: Calibration,
    )
        ensures
            Self::spec_new(t0, t1, h0, h1).spec_t0() == t0,
            Self::spec_new(t0, t1, h0, h1).spec_t1() == t1,
            Self::spec_new(t0, t1, h0, h1).spec_h0() == h0,
            Self::spec_new(t0, t1, h0, h1).spec_h1() == h1,
            Self::spec_new(other.spec_t0(), other.spec_t1(), other.spec_h0(), other.spec_h1())
                == other,
    {
    }
}

} // verus!
