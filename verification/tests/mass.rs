use astrometrics::mass::unit::{g_to_kg, kg_to_g, EARTH_KG, GRAMS_PER_KG, JUP_KG, SOL_KG};
use astrometrics::ratio;
use astrometrics::scalar::{cmp_number, number_cmp, number_times, with_number, Operator};
use astrometrics::{AsMass, Bits, DefoAble, Mass};
use std::cmp::Ordering;

fn bits(x: f64) -> Bits {
    Bits(x.to_bits())
}

fn value(m: &Mass) -> f64 {
    f64::from_bits(m.raw())
}

#[test]
fn mass_comparison() {
    let a = 1.kg();
    let b = bits(1.5).kg();
    let c = bits(1.0).kg();
    assert!(a < b);
    assert!(a == c);
    assert!(b > c);
    assert!(a < bits(2.0));
}

#[test]
fn mass_operators() {
    let a = 1.kg();
    let b = bits(0.5).kg();
    let a_b = &a + &b;
    assert_eq!(bits(1.5).kg(), a_b);
}

#[test]
fn mass_constants_are_the_decimal_values() {
    assert_eq!(SOL_KG, 1.98847e30f64.to_bits());
    assert_eq!(JUP_KG, 1.89813e27f64.to_bits());
    assert_eq!(EARTH_KG, 5.9722e24f64.to_bits());
    assert_eq!(GRAMS_PER_KG, 1000.0f64.to_bits());
}

#[test]
fn kilogram_scenario() {
    assert!(1.kg() < bits(1.5).kg());
    assert!(1.kg() == 1000.g());
    assert!(1000.g() == 1.kg());
    assert!(1.kg() < 2);
    assert!(1.kg() == 1u8);
    assert_eq!(cmp_number(&1.kg(), &2), Ordering::Less);
    assert_eq!(number_cmp(&2, &1.kg()), Ordering::Greater);
    assert_eq!(cmp_number(&1.kg(), &1u8), Ordering::Equal);
}

#[test]
fn mass_raw_and_set_keep_the_unit() {
    let mut m = bits(3.25).mj();
    assert_eq!(value(&m), 3.25);
    m.set(7.5f64.to_bits());
    assert!(matches!(m, Mass::MJ(v) if v == 7.5f64.to_bits()));
    let mut g = 12u64.g();
    g.set(0);
    assert!(matches!(g, Mass::G(0)));
}

#[test]
fn mass_converts_by_the_table() {
    let sol = 1.98847e30f64;
    let jup = 1.89813e27f64;
    let earth = 5.9722e24f64;
    let v = 2.5f64;
    // between bodies: times the ratio of their masses
    assert_eq!(value(&bits(v).mo().mj()), v * (sol / jup));
    assert_eq!(value(&bits(v).mo().me()), v * (sol / earth));
    assert_eq!(value(&bits(v).mj().mo()), v * (jup / sol));
    assert_eq!(value(&bits(v).mj().me()), v * (jup / earth));
    assert_eq!(value(&bits(v).me().mo()), v * (earth / sol));
    assert_eq!(value(&bits(v).me().mj()), v * (earth / jup));
    // from a body to kilograms and grams
    assert_eq!(value(&bits(v).mo().kg()), v * sol);
    assert_eq!(value(&bits(v).mj().kg()), v * jup);
    assert_eq!(value(&bits(v).me().kg()), v * earth);
    assert_eq!(value(&bits(v).mo().g()), v * (sol * 1000.0));
    assert_eq!(value(&bits(v).mj().g()), v * (jup * 1000.0));
    assert_eq!(value(&bits(v).me().g()), v * (earth * 1000.0));
    // from kilograms and grams to a body
    assert_eq!(value(&bits(v).kg().mo()), v / sol);
    assert_eq!(value(&bits(v).kg().mj()), v / jup);
    assert_eq!(value(&bits(v).kg().me()), v / earth);
    assert_eq!(value(&bits(v).g().mo()), v / (sol * 1000.0));
    assert_eq!(value(&bits(v).g().mj()), v / (jup * 1000.0));
    assert_eq!(value(&bits(v).g().me()), v / (earth * 1000.0));
    // kilograms and grams
    assert_eq!(value(&bits(v).kg().g()), 2500.0);
    assert_eq!(value(&bits(v).g().kg()), 0.0025);
    assert_eq!(kg_to_g(v.to_bits()), 2500.0f64.to_bits());
    assert_eq!(g_to_kg(v.to_bits()), 0.0025f64.to_bits());
    assert_eq!(ratio(sol.to_bits(), jup.to_bits()), (sol / jup).to_bits());
}

#[test]
fn mass_to_its_own_unit_is_unchanged() {
    for v in [0.0f64, -0.0, 1.0, -3.5, 1e300, 5e-324, f64::INFINITY] {
        let b = v.to_bits();
        assert!(matches!(Bits(b).g().g(), Mass::G(x) if x == b));
        assert!(matches!(Bits(b).kg().kg(), Mass::Kg(x) if x == b));
        assert!(matches!(Bits(b).me().me(), Mass::ME(x) if x == b));
        assert!(matches!(Bits(b).mj().mj(), Mass::MJ(x) if x == b));
        assert!(matches!(Bits(b).mo().mo(), Mass::MO(x) if x == b));
        let m = Bits(b).mj();
        assert!(matches!(m.cnv_into(&7.mj()), Mass::MJ(x) if x == b));
    }
}

#[test]
fn mass_round_trips_stay_within_rounding() {
    let units: [fn(&Mass) -> Mass; 5] = [Mass::g, Mass::kg, Mass::me, Mass::mj, Mass::mo];
    for v in [1.0f64, 2.5, 1234.5678, 1e-3, 9.75e12] {
        for from in units {
            for to in units {
                let start = from(&Bits(v.to_bits()).kg());
                let there = to(&start);
                let back = there.cnv_into(&start);
                let (a, b) = (value(&start), value(&back));
                assert!((a - b).abs() <= a.abs() * 4.0 * f64::EPSILON, "{start:?} -> {there:?} -> {back:?}");
            }
        }
    }
}

#[test]
fn mass_unify_picks_the_higher_rank() {
    let (a, b) = 3.g().unify(&2.kg());
    assert!(matches!(a, Mass::Kg(v) if v == 0.003f64.to_bits()));
    assert!(matches!(b, Mass::Kg(v) if v == 2.0f64.to_bits()));
    let (a, b) = 2.mo().unify(&bits(4.0).mj());
    assert!(matches!(a, Mass::MO(v) if v == 2.0f64.to_bits()));
    assert!(matches!(b, Mass::MO(v) if v == (4.0 * (1.89813e27f64 / 1.98847e30)).to_bits()));
    assert_eq!(1.g().rank(), 1);
    assert_eq!(1.kg().rank(), 2);
    assert_eq!(1.me().rank(), 3);
    assert_eq!(1.mj().rank(), 4);
    assert_eq!(1.mo().rank(), 5);
}

#[test]
fn mass_unify_leaves_matching_units_unchanged() {
    let (a, b) = bits(1.25).me().unify(&bits(-7.0).me());
    assert!(matches!(a, Mass::ME(v) if v == 1.25f64.to_bits()));
    assert!(matches!(b, Mass::ME(v) if v == (-7.0f64).to_bits()));
}

#[test]
fn mass_arithmetic_takes_the_higher_unit() {
    let sum = 500.g() + 2.kg();
    assert!(matches!(sum, Mass::Kg(v) if v == 2.5f64.to_bits()));
    let diff = 2.kg() - 500.g();
    assert!(matches!(diff, Mass::Kg(v) if v == 1.5f64.to_bits()));
    let product = 3.kg() * bits(0.5).kg();
    assert!(matches!(product, Mass::Kg(v) if v == 1.5f64.to_bits()));
    let quotient = 3.kg() / 4.kg();
    assert!(matches!(quotient, Mass::Kg(v) if v == 0.75f64.to_bits()));
    let by_reference = &2.kg() * &3.kg();
    assert!(matches!(by_reference, Mass::Kg(v) if v == 6.0f64.to_bits()));
    let zero = 1.kg() / 0.kg();
    assert!(matches!(zero, Mass::Kg(v) if v == f64::INFINITY.to_bits()));
    assert!(matches!(1.kg().combine(Operator::Plus, &1.kg()), Mass::Kg(v) if v == 2.0f64.to_bits()));
}

#[test]
fn mass_with_a_number_keeps_its_unit() {
    let m = bits(6.0).mj();
    assert!(matches!(with_number(&m, Operator::Plus, &2), Mass::MJ(v) if v == 8.0f64.to_bits()));
    assert!(matches!(with_number(&m, Operator::Minus, &2u8), Mass::MJ(v) if v == 4.0f64.to_bits()));
    assert!(matches!(with_number(&m, Operator::Times, &bits(0.5)), Mass::MJ(v) if v == 3.0f64.to_bits()));
    assert!(matches!(with_number(&m, Operator::Over, &-4i64), Mass::MJ(v) if v == (-1.5f64).to_bits()));
    assert!(matches!(m + 2, Mass::MJ(v) if v == 8.0f64.to_bits()));
    assert!(matches!(m - 2u8, Mass::MJ(v) if v == 4.0f64.to_bits()));
    assert!(matches!(m * bits(0.5), Mass::MJ(v) if v == 3.0f64.to_bits()));
    assert!(matches!(m / -4i64, Mass::MJ(v) if v == (-1.5f64).to_bits()));
    assert!(matches!(bits(0.5) * m, Mass::MJ(v) if v == 3.0f64.to_bits()));
}

#[test]
fn number_times_mass_commutes() {
    let numbers = [0.1f64, -3.0, 1e200, 7.25, 0.0];
    let magnitudes = [2.5f64, 1e200, -0.3, 1e-310, f64::INFINITY];
    for n in numbers {
        for v in magnitudes {
            let q = bits(v).me();
            let left = number_times(&bits(n), &q);
            let right = with_number(&q, Operator::Times, &bits(n));
            assert_eq!(left.raw(), right.raw());
            assert!(matches!(left, Mass::ME(_)));
            if !(n * v).is_nan() {
                assert_eq!(left.raw(), (n * v).to_bits());
            }
        }
    }
    assert!(matches!(number_times(&3u16, &2.kg()), Mass::Kg(v) if v == 6.0f64.to_bits()));
}

#[test]
fn integers_lift_to_their_value() {
    assert_eq!(255u8.kg().raw(), 255.0f64.to_bits());
    assert_eq!(65535u16.kg().raw(), 65535.0f64.to_bits());
    assert_eq!(u32::MAX.kg().raw(), (u32::MAX as f64).to_bits());
    assert_eq!(u64::MAX.kg().raw(), (u64::MAX as f64).to_bits());
    assert_eq!(u128::MAX.kg().raw(), (u128::MAX as f64).to_bits());
    assert_eq!(usize::MAX.kg().raw(), (usize::MAX as f64).to_bits());
    assert_eq!((-128i8).kg().raw(), (-128.0f64).to_bits());
    assert_eq!(i16::MIN.kg().raw(), (i16::MIN as f64).to_bits());
    assert_eq!(i32::MIN.kg().raw(), (i32::MIN as f64).to_bits());
    assert_eq!(i64::MIN.kg().raw(), (i64::MIN as f64).to_bits());
    assert_eq!(i128::MIN.kg().raw(), (i128::MIN as f64).to_bits());
    assert_eq!(isize::MIN.kg().raw(), (isize::MIN as f64).to_bits());
    assert_eq!(Bits(17).kg().raw(), 17);
}

#[test]
fn mass_round_trips_keep_zero_and_infinity() {
    let units: [fn(&Mass) -> Mass; 5] = [Mass::g, Mass::kg, Mass::me, Mass::mj, Mass::mo];
    for v in [0.0f64, -0.0, f64::INFINITY, f64::NEG_INFINITY] {
        for from in units {
            for to in units {
                let start = from(&Bits(v.to_bits()).kg());
                let back = to(&start).cnv_into(&start);
                assert_eq!(back.raw(), v.to_bits());
                assert_eq!(back.rank(), start.rank());
            }
        }
    }
    let lost = Bits(f64::NAN.to_bits()).kg().mo().kg();
    assert!(f64::from_bits(lost.raw()).is_nan());
    // beyond the largest number the way back is lost
    let far = Bits(1e300f64.to_bits()).mo().g();
    assert_eq!(far.raw(), f64::INFINITY.to_bits());
    assert_eq!(far.mo().raw(), f64::INFINITY.to_bits());
}
