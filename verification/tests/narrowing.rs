//! Cutting magnitudes down to whole numbers, against the machine's casts.
use astrometrics::binary64::integer::{to_i128, to_integer, to_u128};
use astrometrics::binary64::model::{INFINITY, NAN, SIGN};
use astrometrics::binary64::order::greater;
use astrometrics::scalar::{narrowed, narrowed_unsigned};
use astrometrics::{AsMass, AsTemperature, Bits, Temperature};

fn corners() -> Vec<f64> {
    let mut values = vec![
        0.0,
        -0.0,
        0.5,
        -0.5,
        0.999_999_999,
        1.0,
        -1.0,
        1.5,
        -1.5,
        2.5,
        255.0,
        255.5,
        256.0,
        -128.0,
        -128.9,
        -129.0,
        65535.99,
        4294967295.0,
        4294967296.0,
        9007199254740992.0,
        9007199254740993.0,
        9.223372036854776e18,
        -9.223372036854776e18,
        1.8446744073709552e19,
        1.7014118346046923e38,
        -1.7014118346046923e38,
        3.402823669209385e38,
        1e300,
        -1e300,
        5e-324,
        f64::MAX,
        f64::MIN,
        f64::INFINITY,
        f64::NEG_INFINITY,
        f64::NAN,
    ];
    let mut seed = 0x1357_9BDF_0246_8ACEu64;
    for _ in 0..5000 {
        seed ^= seed << 13;
        seed ^= seed >> 7;
        seed ^= seed << 17;
        let exponent = 1000 + seed % 160;
        let bits = (seed & SIGN) | (exponent << 52) | ((seed >> 3) & 0x000F_FFFF_FFFF_FFFF);
        values.push(f64::from_bits(bits));
    }
    values
}

#[test]
fn signed_cut_matches_the_cast() {
    for v in corners() {
        assert_eq!(to_i128(v.to_bits()), v as i128, "{v}");
    }
}

#[test]
fn unsigned_cut_matches_the_cast() {
    for v in corners() {
        assert_eq!(to_u128(v.to_bits()), v as u128, "{v}");
    }
}

#[test]
fn bounded_cut_matches_the_narrow_casts() {
    for v in corners() {
        let b = v.to_bits();
        assert_eq!(to_integer(b, u8::MIN as i128, u8::MAX as i128), (v as u8) as i128, "{v}");
        assert_eq!(to_integer(b, i8::MIN as i128, i8::MAX as i128), (v as i8) as i128, "{v}");
        assert_eq!(to_integer(b, i16::MIN as i128, i16::MAX as i128), (v as i16) as i128, "{v}");
        assert_eq!(to_integer(b, 0, u32::MAX as i128), (v as u32) as i128, "{v}");
        assert_eq!(to_integer(b, i64::MIN as i128, i64::MAX as i128), (v as i64) as i128, "{v}");
        assert_eq!(to_integer(b, 0, u64::MAX as i128), (v as u64) as i128, "{v}");
    }
}

#[test]
fn greater_matches_the_machine() {
    let values = corners();
    for (i, a) in values.iter().enumerate() {
        for b in values.iter().skip(i % 7).step_by(11) {
            assert_eq!(greater(a.to_bits(), b.to_bits()), a > b, "{a} > {b}");
        }
    }
    assert!(!greater(0, SIGN));
    assert!(!greater(SIGN, 0));
    assert!(!greater(NAN, 0));
    assert!(!greater(INFINITY, NAN));
    assert!(greater(INFINITY, f64::MAX.to_bits()));
}

#[test]
fn narrowing_reports_what_exceeds_the_width() {
    let fits = Bits(200.75f64.to_bits()).kg();
    assert_eq!(narrowed(&fits, 0, 255), (200, false));
    let exceeds = 300.kg();
    assert_eq!(narrowed(&exceeds, 0, 255), (255, true));
    let below = (-300).k();
    assert_eq!(narrowed(&below, -128, 127), (-128, false));
    assert_eq!(narrowed(&Temperature::N, 0, 65535), (65535, true));
    assert_eq!(narrowed(&Temperature::D, 0, 4294967295), (100000, false));
    assert_eq!(narrowed(&Temperature::X, -5, 5), (0, false));
    // the bound itself is rounded as a cast rounds it
    let edge = Bits((i64::MAX as f64).to_bits()).kg();
    assert_eq!(narrowed(&edge, i64::MIN as i128, i64::MAX as i128), (i64::MAX as i128, false));
    assert_eq!(narrowed_unsigned(&fits), (200, false));
    assert_eq!(narrowed_unsigned(&Bits(1e39f64.to_bits()).kg()), (u128::MAX, true));
    assert_eq!(narrowed_unsigned(&below), (0, false));
    assert_eq!(narrowed_unsigned(&Temperature::X), (0, false));
}

#[test]
fn raw_numbers_become_kelvin() {
    assert!(matches!(Temperature::from(5), Temperature::K(v) if v == 5.0f64.to_bits()));
    assert!(matches!(Temperature::from(7u64), Temperature::K(v) if v == 7.0f64.to_bits()));
    assert!(matches!(Temperature::from(Bits(2.5f64.to_bits())), Temperature::K(v) if v == 2.5f64.to_bits()));
    let t: Temperature = (-3i8).into();
    assert!(matches!(t, Temperature::K(v) if v == (-3.0f64).to_bits()));
}
