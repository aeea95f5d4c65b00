use astrometrics::scalar::{with_number, Operator};
use astrometrics::temperature::k::{K_C_DELTA, NEUTRON_KELVIN, WHITE_DWARF_KELVIN};
use astrometrics::{AsTemperature, Bits, DefoAble, Squared, Temperature, ABS_ZERO};
use std::cmp::Ordering;

fn bits(x: f64) -> Bits {
    Bits(x.to_bits())
}

#[test]
fn temperature_comparison() {
    let a = 1.k();
    let b = 2.k();
    assert!(a < b);
    assert!(b >= a);
}

#[test]
fn temperature_operators() {
    let a = 100.k();
    let b = 50.k();
    let c = a - b;
    assert_eq!(50.k(), c);

    let a = 100.k();
    let b = 50.k();
    assert!(a > b);
    assert_ne!(a, b);
    let c = a / bits(2.0);
    assert!(matches!(c, Temperature::K(v) if v == 50.0f64.to_bits()));
}

#[test]
fn temperature_constants_are_the_decimal_values() {
    assert_eq!(K_C_DELTA, 273.15f64.to_bits());
    assert_eq!(NEUTRON_KELVIN, 1e6f64.to_bits());
    assert_eq!(WHITE_DWARF_KELVIN, 1e5f64.to_bits());
    assert_eq!(ABS_ZERO, 0.0f64.to_bits());
}

#[test]
fn black_hole_has_no_relation() {
    let bh = Temperature::X;
    let others = [
        Temperature::X,
        Temperature::N,
        Temperature::D,
        0.k(),
        1_000_000.k(),
        bits(-40.0).c(),
        Temperature::K(f64::NAN.to_bits()),
    ];
    for t in others {
        assert!(!(bh == t));
        assert!(!(bh != t));
        assert!(!(t == bh));
        assert!(!(t != bh));
        assert_eq!(bh.partial_cmp(&t), None);
        assert_eq!(t.partial_cmp(&bh), None);
        assert!(!(bh < t) && !(bh > t) && !(bh <= t) && !(bh >= t));
    }
}

#[test]
fn remnants_compare_as_their_kelvin() {
    assert!(Temperature::N > Temperature::D);
    assert!(Temperature::D < Temperature::N);
    assert!(Temperature::N == Temperature::N);
    assert!(Temperature::D == Temperature::D);
    assert!(Temperature::N != Temperature::D);
    assert!(Temperature::N == 1_000_000.k());
    assert!(1_000_000.k() == Temperature::N);
    assert!(Temperature::D == 100_000.k());
    assert!(100_000.k() == Temperature::D);
    assert!(Temperature::N != 100_000.k());
    assert!(Temperature::N > 5.k());
    assert!(5.k() < Temperature::N);
    assert!(Temperature::D < 2_000_000.k());
    assert!(Temperature::D > bits(1000.0).c());
    assert_eq!(Temperature::N.partial_cmp(&Temperature::D), Some(Ordering::Greater));
}

#[test]
fn kelvin_and_celsius_compare_on_the_kelvin_scale() {
    let c = bits(300.0).c();
    let k = bits(300.0 - 273.15).k();
    assert!(c == k);
    assert!(k == c);
    assert!(bits(300.0).k() > c);
    assert!(c < bits(300.0).k());
    assert!(bits(10.0).c() < bits(11.0).c());
    assert!(bits(-5.0).k() < bits(-4.0).k());
    assert_eq!(0.k().partial_cmp(&Temperature::K(0x8000_0000_0000_0000)), Some(Ordering::Greater));
}

#[test]
fn temperature_raw_and_set() {
    assert_eq!(Temperature::N.raw(), 1e6f64.to_bits());
    assert_eq!(Temperature::D.raw(), 1e5f64.to_bits());
    assert!(f64::from_bits(Temperature::X.raw()).is_nan());
    assert_eq!(bits(21.5).c().raw(), 21.5f64.to_bits());
    let mut t = 3.k();
    t.set(9.0f64.to_bits());
    assert!(matches!(t, Temperature::K(v) if v == 9.0f64.to_bits()));
    let mut c = 3.c();
    c.set(9.0f64.to_bits());
    assert!(matches!(c, Temperature::C(v) if v == 9.0f64.to_bits()));
    for mut remnant in [Temperature::N, Temperature::D, Temperature::X] {
        let before = remnant;
        remnant.set(1.0f64.to_bits());
        assert_eq!(format!("{before:?}"), format!("{remnant:?}"));
    }
}

#[test]
fn temperature_converts_between_the_scales() {
    assert!(matches!(bits(300.0).c().k(), Temperature::K(v) if v == (300.0f64 - 273.15).to_bits()));
    assert!(matches!(bits(20.0).k().c(), Temperature::C(v) if v == (20.0f64 + 273.15).to_bits()));
    assert!(matches!(Temperature::N.k(), Temperature::K(v) if v == 1e6f64.to_bits()));
    assert!(matches!(Temperature::D.k(), Temperature::K(v) if v == 1e5f64.to_bits()));
    assert!(matches!(Temperature::N.c(), Temperature::C(v) if v == (1e6f64 + 273.15).to_bits()));
    assert!(matches!(Temperature::D.c(), Temperature::C(v) if v == (1e5f64 + 273.15).to_bits()));
    assert!(matches!(Temperature::X.k(), Temperature::X));
    assert!(matches!(Temperature::X.c(), Temperature::X));
    // to its own unit: unchanged, below zero too
    assert!(matches!(bits(-5.0).k().k(), Temperature::K(v) if v == (-5.0f64).to_bits()));
    assert!(matches!(bits(-500.0).c().c(), Temperature::C(v) if v == (-500.0f64).to_bits()));
}

#[test]
fn temperature_collapses_into_a_remnant() {
    let k = 5.k();
    assert!(matches!(k.cnv_into(&Temperature::N), Temperature::N));
    assert!(matches!(k.cnv_into(&Temperature::D), Temperature::D));
    assert!(matches!(k.cnv_into(&Temperature::X), Temperature::X));
    assert!(matches!(Temperature::N.cnv_into(&Temperature::D), Temperature::N));
    assert!(matches!(Temperature::D.cnv_into(&Temperature::N), Temperature::N));
    assert!(matches!(Temperature::X.cnv_into(&Temperature::N), Temperature::X));
    assert!(matches!(Temperature::X.cnv_into(&Temperature::D), Temperature::X));
    assert!(matches!(Temperature::X.cnv_into(&k), Temperature::X));
    assert!(matches!(Temperature::N.cnv_into(&k), Temperature::K(v) if v == 1e6f64.to_bits()));
    assert!(matches!(bits(300.0).c().cnv_into(&k), Temperature::K(v) if v == (300.0f64 - 273.15).to_bits()));
    assert!(matches!(k.cnv_into(&1.c()), Temperature::C(v) if v == (5.0f64 + 273.15).to_bits()));
}

#[test]
fn temperature_round_trips_stay_within_rounding() {
    for v in [0.0f64, 1.0, 273.15, 5778.0, 1e6, 12345.678] {
        let k = bits(v).k();
        let back = k.c().k();
        let got = f64::from_bits(back.raw());
        assert!((got - v).abs() <= (v.abs() + 273.15) * 2.0 * f64::EPSILON);
        let c = bits(v).c();
        let back = c.k().c();
        let got = f64::from_bits(back.raw());
        assert!((got - v).abs() <= (v.abs() + 273.15) * 2.0 * f64::EPSILON);
    }
}

#[test]
fn temperature_arithmetic_keeps_the_left_unit() {
    let sum = 100.k() + bits(300.0).c();
    assert!(matches!(sum, Temperature::K(v) if v == (100.0f64 + (300.0 - 273.15)).to_bits()));
    let sum = bits(300.0).c() + 100.k();
    assert!(matches!(sum, Temperature::C(v) if v == (300.0f64 + (100.0 + 273.15)).to_bits()));
    let product = 3.k() * 4.k();
    assert!(matches!(product, Temperature::K(v) if v == 12.0f64.to_bits()));
    let quotient = 3.k() / 4.k();
    assert!(matches!(quotient, Temperature::K(v) if v == 0.75f64.to_bits()));
    let warm = 5.k() + Temperature::N;
    assert!(matches!(warm, Temperature::K(v) if v == 1_000_005.0f64.to_bits()));
}

#[test]
fn remnants_are_stubborn_in_arithmetic() {
    assert!(matches!(Temperature::N + 5.k(), Temperature::N));
    assert!(matches!(Temperature::D - 5.k(), Temperature::D));
    assert!(matches!(Temperature::X * 5.k(), Temperature::X));
    assert!(matches!(Temperature::X / Temperature::X, Temperature::X));
    assert!(matches!(with_number(&Temperature::N, Operator::Times, &2), Temperature::N));
    assert!(matches!(Temperature::D * 2, Temperature::D));
    assert!(matches!(bits(2.0) * Temperature::X, Temperature::X));
    let lost = 5.k() + Temperature::X;
    assert!(matches!(lost, Temperature::K(v) if f64::from_bits(v).is_nan()));
}

#[test]
fn temperature_squares() {
    assert!(matches!(bits(1.5).k().sq(), Temperature::K(v) if v == 2.25f64.to_bits()));
    assert!(matches!(bits(-3.0).c().sq(), Temperature::C(v) if v == 9.0f64.to_bits()));
    assert!(matches!(Temperature::N.sq(), Temperature::N));
    assert!(matches!(Temperature::D.sq(), Temperature::D));
    assert!(matches!(Temperature::X.sq(), Temperature::X));
}
