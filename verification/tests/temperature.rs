use hts221::ratio::Ratio;
use hts221::temperature::{Celsius, Fahrenheit, Kelvin, Temperature, TemperatureScale};

fn as_f32(value: Ratio) -> f32 {
    value.numerator() as f32 / value.denominator() as f32
}

fn celsius(num: i64, den: i64) -> Temperature<Celsius> {
    Temperature::<Celsius>::from(Ratio::new(num, den).unwrap())
}

#[test]
fn scale_letters() {
    assert_eq!(Kelvin::LETTER, 'K');
    assert_eq!(Celsius::LETTER, 'C');
    assert_eq!(Fahrenheit::LETTER, 'F');
}

#[test]
fn freezing_point_in_fahrenheit() {
    let fahrenheit = Temperature::<Celsius>::from(0i16).into_fahrenheit();
    assert_eq!(fahrenheit.raw_value().numerator(), 160);
    assert_eq!(fahrenheit.raw_value().denominator(), 5);
    assert_eq!(as_f32(fahrenheit.raw_value()), 32.0);
}

#[test]
fn boiling_point_in_fahrenheit() {
    let fahrenheit = Temperature::<Celsius>::from(100i16).into_fahrenheit();
    assert_eq!(fahrenheit.raw_value().numerator(), 1060);
    assert_eq!(fahrenheit.raw_value().denominator(), 5);
    assert_eq!(as_f32(fahrenheit.raw_value()), 212.0);
}

#[test]
fn the_scales_meet_at_minus_forty() {
    let fahrenheit = Temperature::<Celsius>::from(-40i16).into_fahrenheit();
    assert_eq!(as_f32(fahrenheit.raw_value()), -40.0);
}

#[test]
fn a_fraction_converts_exactly() {
    let fahrenheit = celsius(75, 2).into_fahrenheit();
    assert_eq!(fahrenheit.raw_value().numerator(), 9 * 75 + 160 * 2);
    assert_eq!(fahrenheit.raw_value().denominator(), 10);
    assert_eq!(as_f32(fahrenheit.raw_value()), 99.5);
}

#[test]
fn a_raw_code_converts_to_whole_degrees() {
    let temperature: Temperature<Celsius> = (-17i16).into();
    assert_eq!(temperature.raw_value().numerator(), -17);
    assert_eq!(temperature.raw_value().denominator(), 1);
}

#[test]
fn a_bare_value_converts_to_celsius() {
    let temperature: Temperature<Celsius> = Ratio::new(45, 2).unwrap().into();
    assert_eq!(temperature.raw_value().numerator(), 45);
    assert_eq!(temperature.raw_value().denominator(), 2);
    assert_eq!(as_f32(temperature.raw_value()), 22.5);
}

#[test]
fn sum_of_two_temperatures() {
    let sum = celsius(1, 2) + celsius(1, 3);
    assert_eq!(sum.raw_value().numerator(), 5);
    assert_eq!(sum.raw_value().denominator(), 6);
}

#[test]
fn difference_of_two_temperatures() {
    let difference = celsius(1, 2) - celsius(1, 3);
    assert_eq!(difference.raw_value().numerator(), 1);
    assert_eq!(difference.raw_value().denominator(), 6);
    let below = celsius(1, 3) - celsius(1, 2);
    assert_eq!(below.raw_value().numerator(), -1);
    assert_eq!(below.raw_value().denominator(), 6);
}

#[test]
fn adding_then_subtracting_gives_the_value_back() {
    let cases = [(0, 1, 0, 1), (75, 1, 25, 2), (-40, 3, 7, 5), (120000, 1600, -200000, 1600)];
    for (an, ad, bn, bd) in cases {
        let a = celsius(an, ad);
        let b = celsius(bn, bd);
        let back = (a + b) - b;
        assert!(back.raw_value().is_same_value(&a.raw_value()));
        assert_eq!(as_f32(back.raw_value()), as_f32(a.raw_value()));
    }
}

#[test]
fn adding_then_subtracting_in_fahrenheit() {
    let a = Temperature::<Celsius>::from(100i16).into_fahrenheit();
    let b = Temperature::<Celsius>::from(0i16).into_fahrenheit();
    let sum = a + b;
    assert_eq!(as_f32(sum.raw_value()), 244.0);
    let back = sum - b;
    assert!(back.raw_value().is_same_value(&a.raw_value()));
}

#[test]
fn adding_a_bare_offset() {
    let moved = celsius(20, 1) + Ratio::new(5, 2).unwrap();
    assert_eq!(moved.raw_value().numerator(), 45);
    assert_eq!(moved.raw_value().denominator(), 2);
    assert_eq!(as_f32(moved.raw_value()), 22.5);
}

#[test]
fn dividing_by_a_bare_number_gives_a_bare_number() {
    let a = celsius(75, 1);
    let half: Ratio = a / Ratio::from_integer(2);
    assert_eq!(half.numerator(), 75);
    assert_eq!(half.denominator(), 2);
    assert_eq!(as_f32(half), as_f32(a.raw_value()) / 2.0);
}

#[test]
fn dividing_by_a_negative_number_keeps_the_denominator_positive() {
    let quotient = celsius(3, 4) / Ratio::new(-2, 5).unwrap();
    assert_eq!(quotient.numerator(), -15);
    assert_eq!(quotient.denominator(), 8);
}

#[test]
fn temperatures_are_copied() {
    let a = celsius(1, 2);
    let b = a;
    let c = a.clone();
    assert!(a.raw_value().is_same_value(&b.raw_value()));
    assert_eq!(c.raw_value().numerator(), 1);
    assert_eq!(c.raw_value().denominator(), 2);
}

#[test]
fn ratio_wants_a_positive_denominator() {
    assert!(Ratio::new(1, 0).is_none());
    assert!(Ratio::new(1, -1).is_none());
    assert!(Ratio::new(0, i64::MIN).is_none());
    let ratio = Ratio::new(-3, 7).unwrap();
    assert_eq!(ratio.numerator(), -3);
    assert_eq!(ratio.denominator(), 7);
    assert_eq!(Ratio::from_integer(-9).numerator(), -9);
    assert_eq!(Ratio::from_integer(-9).denominator(), 1);
}

#[test]
fn ratio_arithmetic() {
    let a = Ratio::new(1, 2).unwrap();
    let b = Ratio::new(3, 4).unwrap();
    let sum = a + b;
    assert_eq!((sum.numerator(), sum.denominator()), (10, 8));
    let difference = a - b;
    assert_eq!((difference.numerator(), difference.denominator()), (-2, 8));
    let quotient = a / b;
    assert_eq!((quotient.numerator(), quotient.denominator()), (4, 6));
}

#[test]
fn ratio_compares_values_not_parts() {
    let half = Ratio::new(1, 2).unwrap();
    assert!(half.is_same_value(&Ratio::new(2, 4).unwrap()));
    assert!(half.is_same_value(&Ratio::new(i64::MAX / 2, i64::MAX - 1).unwrap()));
    assert!(!half.is_same_value(&Ratio::new(2, 5).unwrap()));
    assert!(!half.is_same_value(&Ratio::new(-1, 2).unwrap()));
    let wide = Ratio::new(i64::MIN, i64::MAX).unwrap();
    assert!(wide.is_same_value(&wide));
    assert!(!wide.is_same_value(&Ratio::new(i64::MAX, i64::MAX).unwrap()));
}
