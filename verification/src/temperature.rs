//! Temperatures tagged with their scale, and the measurement that a read
//! of the sensor gives.
//!
//! Values are exact fractions. Arithmetic is defined where its result can
//! be held; each operator says so in its precondition.

use vstd::prelude::*;
use std::marker::PhantomData;
use std::ops::{Add, Div, Sub};
use vstd::std_specs::ops::{AddSpec, DivSpec, SubSpec};
use crate::ratio::{fits_i64, Ratio};

verus! {

/// A temperature scale. A scale is a marker without data: it exists to
/// keep values of different scales apart at compile time.
pub trait TemperatureScale {
    /// The letter that names the scale.
    const LETTER: char;
}

/// Marker of the Kelvin scale.
#[derive(Clone, Copy, Debug)]
pub struct Kelvin;

/// Marker of the Celsius scale.
#[derive(Clone, Copy, Debug)]
pub struct Celsius;

/// Marker of the Fahrenheit scale.
#[derive(Clone, Copy, Debug)]
pub struct Fahrenheit;

impl TemperatureScale for Kelvin {
    const LETTER: char = 'K';
}

impl TemperatureScale for Celsius {
    const LETTER: char = 'C';
}

impl TemperatureScale for Fahrenheit {
    const LETTER: char = 'F';
}

/// A temperature on the scale `S`, held exactly.
#[derive(Debug)]
pub struct Temperature<S: TemperatureScale> {
    value: Ratio,
    _marker: PhantomData<S>,
}

impl<S: TemperatureScale> Clone for Temperature<S> {
    fn clone(&self) -> (copy: Self)
        ensures
            copy == *self,
    {
        Temperature { value: self.value, _marker: PhantomData }
    }
}

impl<S: TemperatureScale> Copy for Temperature<S> {

}

impl<S: TemperatureScale> Temperature<S> {
    /// The value on the scale `S`.
    pub closed spec fn spec_raw_value(&self) -> Ratio {
        self.value
    }

    /// The temperature of the given value on the scale `S`.
    pub closed spec fn spec_new(value: Ratio) -> Self {
        Temperature { value, _marker: PhantomData }
    }

    pub(crate) fn new(value: Ratio) -> (t: Self)
        ensures
            t == Self::spec_new(value),
    {
        Temperature { value, _marker: PhantomData }
    }

    /// The value on the scale `S`.
    #[verifier::when_used_as_spec(spec_raw_value)]
    pub fn raw_value(&self) -> (value: Ratio)
        ensures
            value == self.spec_raw_value(),
    {
        self.value
    }

    /// A temperature is its value: the value of `spec_new(v)` is `v`, and
    /// two temperatures of one value are one temperature.
    pub proof fn lemma_value(value: Ratio, other: Self)
        ensures
            Self::spec_new(value).spec_raw_value() == value,
            Self::spec_new(other.spec_raw_value()) == other,
    {
    }
}

impl Temperature<Celsius> {
    /// The numerator of the Fahrenheit value of this Celsius value: the
    /// value times nine fifths plus 32, over five times the denominator.
    pub open spec fn fahrenheit_numerator(self) -> int {
        9 * self.spec_raw_value().spec_numerator() + 160 * self.spec_raw_value().spec_denominator()
    }

    /// The denominator of the Fahrenheit value of this Celsius value.
    pub open spec fn fahrenheit_denominator(self) -> int {
        5 * self.spec_raw_value().spec_denominator()
    }

    /// The same temperature on the Fahrenheit scale.
    pub open spec fn spec_into_fahrenheit(self) -> Temperature<Fahrenheit> {
        Temperature::<Fahrenheit>::spec_new(
            Ratio::spec_new(self.fahrenheit_numerator(), self.fahrenheit_denominator()),
        )
    }

    /// Converts to the Fahrenheit scale: `f = c * 9 / 5 + 32`, exactly.
    pub fn into_fahrenheit(self) -> (f: Temperature<Fahrenheit>)
        requires
            fits_i64(self.fahrenheit_numerator()),
            fits_i64(self.fahrenheit_denominator()),
        ensures
            f == self.spec_into_fahrenheit(),
            f.spec_raw_value().spec_numerator() == self.fahrenheit_numerator(),
            f.spec_raw_value().spec_denominator() == self.fahrenheit_denominator(),
    {
        let n: i128 = self.value.numerator() as i128;
        let d: i128 = self.value.denominator() as i128;
        Temperature::new(Ratio::from_wide(9 * n + 160 * d, 5 * d))
    }
}

impl From<i16> for Temperature<Celsius> {
    /// The whole number of degrees `degrees`.
    fn from(degrees: i16) -> (t: Temperature<Celsius>)
        ensures
            t.spec_raw_value().spec_numerator() == degrees,
            t.spec_raw_value().spec_denominator() == 1,
    {
        Temperature::new(Ratio::from_integer(degrees as i64))
    }
}

impl vstd::std_specs::convert::FromSpecImpl<i16> for Temperature<Celsius> {
    open spec fn obeys_from_spec() -> bool {
        true
    }

    open spec fn from_spec(degrees: i16) -> Temperature<Celsius> {
        Temperature::<Celsius>::spec_new(Ratio::spec_new(degrees as int, 1))
    }
}

impl From<Ratio> for Temperature<Celsius> {
    /// The exact number of degrees `degrees`.
    fn from(degrees: Ratio) -> (t: Temperature<Celsius>)
        ensures
            t.spec_raw_value() == degrees,
    {
        Temperature::new(degrees)
    }
}

impl vstd::std_specs::convert::FromSpecImpl<Ratio> for Temperature<Celsius> {
    open spec fn obeys_from_spec() -> bool {
        true
    }

    open spec fn from_spec(degrees: Ratio) -> Temperature<Celsius> {
        Temperature::<Celsius>::spec_new(degrees)
    }
}

impl<S: TemperatureScale> Add for Temperature<S> {
    type Output = Temperature<S>;

    /// The sum of two temperatures of one scale.
    fn add(self, rhs: Temperature<S>) -> (sum: Temperature<S>)
        ensures
            sum.spec_raw_value() == self.spec_raw_value().spec_sum(rhs.spec_raw_value()),
            sum.spec_raw_value().spec_numerator() == self.spec_raw_value().sum_numerator(
                rhs.spec_raw_value(),
            ),
            sum.spec_raw_value().spec_denominator() == self.spec_raw_value().common_denominator(
                rhs.spec_raw_value(),
            ),
    {
        Temperature::new(self.value + rhs.value)
    }
}

impl<S: TemperatureScale> vstd::std_specs::ops::AddSpecImpl for Temperature<S> {
    open spec fn obeys_add_spec() -> bool {
        true
    }

    open spec fn add_req(self, rhs: Temperature<S>) -> bool {
        self.spec_raw_value().can_add(rhs.spec_raw_value())
    }

    open spec fn add_spec(self, rhs: Temperature<S>) -> Temperature<S> {
        Self::spec_new(self.spec_raw_value().spec_sum(rhs.spec_raw_value()))
    }
}

impl<S: TemperatureScale> Sub for Temperature<S> {
    type Output = Temperature<S>;

    /// The difference of two temperatures of one scale.
    fn sub(self, rhs: Temperature<S>) -> (difference: Temperature<S>)
        ensures
            difference.spec_raw_value() == self.spec_raw_value().spec_difference(
                rhs.spec_raw_value(),
            ),
            difference.spec_raw_value().spec_numerator()
                == self.spec_raw_value().difference_numerator(rhs.spec_raw_value()),
            difference.spec_raw_value().spec_denominator()
                == self.spec_raw_value().common_denominator(rhs.spec_raw_value()),
    {
        Temperature::new(self.value - rhs.value)
    }
}

impl<S: TemperatureScale> vstd::std_specs::ops::SubSpecImpl for Temperature<S> {
    open spec fn obeys_sub_spec() -> bool {
        true
    }

    open spec fn sub_req(self, rhs: Temperature<S>) -> bool {
        self.spec_raw_value().can_sub(rhs.spec_raw_value())
    }

    open spec fn sub_spec(self, rhs: Temperature<S>) -> Temperature<S> {
        Self::spec_new(self.spec_raw_value().spec_difference(rhs.spec_raw_value()))
    }
}

impl<S: TemperatureScale> Add<Ratio> for Temperature<S> {
    type Output = Temperature<S>;

    /// The temperature moved by a bare offset.
    fn add(self, rhs: Ratio) -> (sum: Temperature<S>)
        ensures
            sum.spec_raw_value() == self.spec_raw_value().spec_sum(rhs),
            sum.spec_raw_value().spec_numerator() == self.spec_raw_value().sum_numerator(rhs),
            sum.spec_raw_value().spec_denominator() == self.spec_raw_value().common_denominator(
                rhs,
            ),
    {
        Temperature::new(self.value + rhs)
    }
}

impl<S: TemperatureScale> vstd::std_specs::ops::AddSpecImpl<Ratio> for Temperature<S> {
    open spec fn obeys_add_spec() -> bool {
        true
    }

    open spec fn add_req(self, rhs: Ratio) -> bool {
        self.spec_raw_value().can_add(rhs)
    }

    open spec fn add_spec(self, rhs: Ratio) -> Temperature<S> {
        Self::spec_new(self.spec_raw_value().spec_sum(rhs))
    }
}

impl<S: TemperatureScale> Div<Ratio> for Temperature<S> {
    type Output = Ratio;

    /// The temperature's value divided by a bare number: a bare number,
    /// not a temperature.
    fn div(self, rhs: Ratio) -> (quotient: Ratio)
        ensures
            quotient.spec_numerator() == self.spec_raw_value().quotient_numerator(rhs),
            quotient.spec_denominator() == self.spec_raw_value().quotient_denominator(rhs),
    {
        self.value / rhs
    }
}

impl<S: TemperatureScale> vstd::std_specs::ops::DivSpecImpl<Ratio> for Temperature<S> {
    open spec fn obeys_div_spec() -> bool {
        true
    }

    open spec fn div_req(self, rhs: Ratio) -> bool {
        self.spec_raw_value().can_div(rhs)
    }

    open spec fn div_spec(self, rhs: Ratio) -> Ratio {
        self.spec_raw_value().spec_quotient(rhs)
    }
}

/// Taking away a temperature that was added gives the first temperature
/// back: `(a + b) - b` has the same value as `a`, for any two temperatures
/// of one scale whose sum and difference can be held.
pub proof fn lemma_add_then_sub<S: TemperatureScale>(a: Temperature<S>, b: Temperature<S>)
    requires
        a.spec_raw_value().wf(),
        b.spec_raw_value().wf(),
        a.add_req(b),
        a.add_spec(b).sub_req(b),
    ensures
        a.add_spec(b).sub_spec(b).spec_raw_value().same_value(a.spec_raw_value()),
{
    Temperature::<S>::lemma_value(a.spec_raw_value().spec_sum(b.spec_raw_value()), a);
    Temperature::<S>::lemma_value(
        a.spec_raw_value().spec_sum(b.spec_raw_value()).spec_difference(b.spec_raw_value()),
        a,
    );
    Ratio::lemma_add_then_sub(a.spec_raw_value(), b.spec_raw_value());
}

/// Dividing a temperature by a bare number divides its value: the
/// quotient times the divisor has the value of the temperature.
pub proof fn lemma_div_is_value_div<S: TemperatureScale>(a: Temperature<S>, divisor: Ratio)
    requires
        a.spec_raw_value().wf(),
        divisor.wf(),
        a.div_req(divisor),
    ensures
        a.div_spec(divisor) == a.spec_raw_value().spec_quotient(divisor),
        a.div_spec(divisor).spec_numerator() * divisor.spec_numerator()
            * a.spec_raw_value().spec_denominator() == a.spec_raw_value().spec_numerator() * (
        a.div_spec(divisor).spec_denominator() * divisor.spec_denominator()),
{
    Ratio::lemma_quotient(a.spec_raw_value(), divisor);
}

/// The Fahrenheit value `f` of a Celsius value `c` is `c * 9 / 5 + 32`:
/// `5 * f == 9 * c + 160`, with both sides over the denominators of `f`
/// and `c`.
pub proof fn lemma_fahrenheit_formula(c: Temperature<Celsius>)
    requires
        c.spec_raw_value().wf(),
        fits_i64(c.fahrenheit_numerator()),
        fits_i64(c.fahrenheit_denominator()),
    ensures
        c.spec_into_fahrenheit().spec_raw_value().wf(),
        5 * c.spec_into_fahrenheit().spec_raw_value().spec_numerator()
            * c.spec_raw_value().spec_denominator() == (9 * c.spec_raw_value().spec_numerator()
            + 160 * c.spec_raw_value().spec_denominator())
            * c.spec_into_fahrenheit().spec_raw_value().spec_denominator(),
{
    Temperature::<Fahrenheit>::lemma_value(
        Ratio::spec_new(c.fahrenheit_numerator(), c.fahrenheit_denominator()),
        c.spec_into_fahrenheit(),
    );
    Ratio::lemma_parts(c.fahrenheit_numerator(), c.fahrenheit_denominator());
    let n = c.spec_raw_value().spec_numerator() as int;
    let d = c.spec_raw_value().spec_denominator() as int;
    assert(5 * (9 * n + 160 * d) * d == (9 * n + 160 * d) * (5 * d)) by (nonlinear_arith);
}

/// What one read of the sensor gives.
#[derive(Debug)]
pub struct SensorAcquisition<S: TemperatureScale> {
    /// Sensor temperature value.
    pub temperature: Temperature<S>,
    /// Relative humidity, in percent.
    pub relative_humidity: Ratio,
}

impl<S: TemperatureScale> Clone for SensorAcquisition<S> {
    fn clone(&self) -> (copy: Self)
        ensures
            copy == *self,
    {
        SensorAcquisition { temperature: self.temperature, relative_humidity: self.relative_humidity }
    }
}

impl<S: TemperatureScale> Copy for SensorAcquisition<S> {

}

} // verus!
