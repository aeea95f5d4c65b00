use astrometrics::scalar::{cmp_number, number_cmp};
use astrometrics::{
    AsSpatialUnit, Bits, DefoAble, Megastructure, SpatialContained, SpatialUnit, AU_METERS,
    LY_METERS, PARSEC_METERS, R_EARTH_METERS, R_SUN_METERS,
};
use std::cmp::Ordering;

fn bits(x: f64) -> Bits {
    Bits(x.to_bits())
}

fn value(s: &SpatialUnit) -> f64 {
    f64::from_bits(s.raw())
}

#[test]
fn gr_range_works() {
    let gr = Megastructure::from(((6.ly(), 12.ly()), (15.ly(), 30.ly()), (40.ly(), 42.ly())));
    assert_eq!(Some(SpatialContained::VisibleDisk), gr.contains(&bits(7.0).ly()));
    assert_ne!(
        Some(SpatialContained::Arms),
        gr.contains(&bits(15.0 - f64::EPSILON * 10.0).ly())
    );
    assert_eq!(
        Some(SpatialContained::Arms),
        gr.contains(&bits(15.0 + f64::EPSILON * 10.0).ly())
    );
}

#[test]
fn spatial_comparison() {
    let a = 1.ly();
    assert!(a < 2);
    assert_eq!(number_cmp(&2, &a), Ordering::Greater);
    assert_eq!(cmp_number(&a, &2), Ordering::Less);
}

#[test]
fn spatial_constants_are_the_decimal_values() {
    assert_eq!(AU_METERS, 149_597_870_700.0f64.to_bits());
    assert_eq!(LY_METERS, 9.4607e15f64.to_bits());
    assert_eq!(PARSEC_METERS, 3.085677581e16f64.to_bits());
    assert_eq!(R_SUN_METERS, 695_700_000.0f64.to_bits());
    assert_eq!(R_EARTH_METERS, 6_378_100.0f64.to_bits());
}

#[test]
fn region_precedence_and_edges() {
    let gr = Megastructure::from(((6.ly(), 12.ly()), (15.ly(), 30.ly()), (40.ly(), 42.ly())));
    assert_eq!(gr.contains(&6.ly()), Some(SpatialContained::VisibleDisk));
    assert_eq!(gr.contains(&12.ly()), Some(SpatialContained::VisibleDisk));
    assert_eq!(gr.contains(&13.ly()), None);
    assert_eq!(gr.contains(&15.ly()), Some(SpatialContained::Arms));
    assert_eq!(gr.contains(&30.ly()), Some(SpatialContained::Arms));
    assert_eq!(gr.contains(&41.ly()), Some(SpatialContained::Halo));
    assert_eq!(gr.contains(&43.ly()), None);
    assert_eq!(gr.contains(&5.ly()), None);
    // overlapping ranges resolve by precedence
    let nested = Megastructure::from(((1.ly(), 10.ly()), (5.ly(), 20.ly()), (0.ly(), 100.ly())));
    assert_eq!(nested.contains(&7.ly()), Some(SpatialContained::VisibleDisk));
    assert_eq!(nested.contains(&15.ly()), Some(SpatialContained::Arms));
    assert_eq!(nested.contains(&50.ly()), Some(SpatialContained::Halo));
    // an empty range holds nothing
    let empty = Megastructure::from(((2.ly(), 1.ly()), (2.ly(), 1.ly()), (2.ly(), 1.ly())));
    assert_eq!(empty.contains(&bits(1.5).ly()), None);
}

#[test]
fn region_takes_points_in_other_units() {
    let gr = Megastructure::from(((6.ly(), 12.ly()), (15.ly(), 30.ly()), (40.ly(), 42.ly())));
    // 3 parsecs are about 9.78 light-years, 6 parsecs about 19.6
    assert_eq!(gr.contains(&3.pc()), Some(SpatialContained::VisibleDisk));
    assert_eq!(gr.contains(&6.pc()), Some(SpatialContained::Arms));
    assert_eq!(gr.contains(&1.au()), None);
    let meters = bits(41.0 * 9.4607e15);
    assert_eq!(gr.contains(&meters.m()), Some(SpatialContained::Halo));
}

#[test]
fn region_from_raw_numbers_is_in_light_years() {
    let gr = Megastructure::from((
        (bits(6.0), bits(12.0)),
        (bits(15.0), bits(30.0)),
        (bits(40.0), bits(42.0)),
    ));
    assert_eq!(gr.contains(&bits(7.0).ly()), Some(SpatialContained::VisibleDisk));
    assert_eq!(gr.contains(&bits(41.5).ly()), Some(SpatialContained::Halo));
    assert_eq!(gr.contains(&bits(7.0).m()), None);
}

#[test]
fn spatial_converts_by_the_table() {
    let au = 149_597_870_700.0f64;
    let ly = 9.4607e15f64;
    let pc = 3.085677581e16f64;
    let ro = 695_700_000.0f64;
    let re = 6_378_100.0f64;
    let v = 3.75f64;
    let lengths = [("re", re), ("ro", ro), ("au", au), ("ly", ly), ("pc", pc)];
    let make = |name: &str, x: f64| match name {
        "re" => bits(x).re(),
        "ro" => bits(x).ro(),
        "au" => bits(x).au(),
        "ly" => bits(x).ly(),
        _ => bits(x).pc(),
    };
    for (from, from_m) in lengths {
        let start = make(from, v);
        assert_eq!(value(&start.m()), v * from_m, "{from} to m");
        assert_eq!(value(&bits(v).m().cnv_into(&start)), v / from_m, "m to {from}");
        for (to, to_m) in lengths {
            let target = make(to, 0.0);
            let expected = if from == to { v } else { v * (from_m / to_m) };
            assert_eq!(value(&start.cnv_into(&target)), expected, "{from} to {to}");
        }
    }
    assert!(matches!(bits(v).au().pc(), SpatialUnit::Pc(_)));
    assert!(matches!(bits(v).pc().ly(), SpatialUnit::Ly(_)));
    assert!(matches!(bits(v).ly().au(), SpatialUnit::Au(_)));
    assert!(matches!(bits(v).au().ro(), SpatialUnit::RO(_)));
    assert!(matches!(bits(v).ro().re(), SpatialUnit::RE(_)));
    assert!(matches!(bits(v).re().m(), SpatialUnit::M(_)));
}

#[test]
fn spatial_round_trips_stay_within_rounding() {
    let units: [fn(&SpatialUnit) -> SpatialUnit; 6] = [
        SpatialUnit::m,
        SpatialUnit::re,
        SpatialUnit::ro,
        SpatialUnit::au,
        SpatialUnit::ly,
        SpatialUnit::pc,
    ];
    for v in [1.0f64, 2.5, 1234.5678, 1e-3, 9.75e12] {
        for from in units {
            for to in units {
                let start = from(&bits(v).au());
                let back = to(&start).cnv_into(&start);
                let (a, b) = (value(&start), value(&back));
                assert!((a - b).abs() <= a.abs() * 4.0 * f64::EPSILON);
            }
        }
    }
}

#[test]
fn spatial_unify_and_order() {
    let (a, b) = 1.pc().unify(&1.ly());
    assert!(matches!(a, SpatialUnit::Pc(v) if v == 1.0f64.to_bits()));
    assert!(matches!(b, SpatialUnit::Pc(v) if v == (9.4607e15f64 / 3.085677581e16).to_bits()));
    let (a, b) = 2.m().unify(&3.m());
    assert!(matches!(a, SpatialUnit::M(v) if v == 2.0f64.to_bits()));
    assert!(matches!(b, SpatialUnit::M(v) if v == 3.0f64.to_bits()));
    assert!(1.pc() > 1.ly());
    assert!(1.ly() > 1.au());
    assert!(1.au() > 1.ro());
    assert!(1.ro() > 1.re());
    assert!(1.re() > 1.m());
    assert!(1.au() == bits(149_597_870_700.0).m());
    assert_eq!(1.m().rank(), 1);
    assert_eq!(1.re().rank(), 2);
    assert_eq!(1.ro().rank(), 3);
    assert_eq!(1.au().rank(), 4);
    assert_eq!(1.ly().rank(), 5);
    assert_eq!(1.pc().rank(), 6);
}

#[test]
fn spatial_arithmetic_takes_the_higher_unit() {
    let sum = 1.au() + bits(149_597_870_700.0).m();
    assert!(matches!(sum, SpatialUnit::Au(v) if v == 2.0f64.to_bits()));
    let diff = 5.ly() - 2.ly();
    assert!(matches!(diff, SpatialUnit::Ly(v) if v == 3.0f64.to_bits()));
    let product = 5.re() * bits(0.5).re();
    assert!(matches!(product, SpatialUnit::RE(v) if v == 2.5f64.to_bits()));
    let quotient = 1.ro() / 8.ro();
    assert!(matches!(quotient, SpatialUnit::RO(v) if v == 0.125f64.to_bits()));
    let mut s = 4.pc();
    s.set(1.0f64.to_bits());
    assert!(matches!(s, SpatialUnit::Pc(v) if v == 1.0f64.to_bits()));
}

#[test]
fn spatial_round_trips_keep_zero_and_infinity() {
    let units: [fn(&SpatialUnit) -> SpatialUnit; 6] = [
        SpatialUnit::m,
        SpatialUnit::re,
        SpatialUnit::ro,
        SpatialUnit::au,
        SpatialUnit::ly,
        SpatialUnit::pc,
    ];
    for v in [0.0f64, -0.0, f64::INFINITY, f64::NEG_INFINITY] {
        for from in units {
            for to in units {
                let start = from(&bits(v).m());
                let back = to(&start).cnv_into(&start);
                assert_eq!(back.raw(), v.to_bits());
                assert_eq!(back.rank(), start.rank());
            }
        }
    }
}
