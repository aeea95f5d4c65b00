//! The arithmetic on bit patterns against the machine's own binary64
//! arithmetic.
use astrometrics::binary64::integer::{from_i128, from_u128};
use astrometrics::binary64::model::{INFINITY, NAN, SIGN};
use astrometrics::binary64::order::total_cmp;
use astrometrics::binary64::product::{div, mul};
use astrometrics::binary64::sum::{add, negate, sub};
use std::cmp::Ordering;

/// A small deterministic generator of bit patterns that favours the corners.
struct Patterns(u64);

impl Patterns {
    fn word(&mut self) -> u64 {
        self.0 ^= self.0 << 13;
        self.0 ^= self.0 >> 7;
        self.0 ^= self.0 << 17;
        self.0
    }

    fn next(&mut self) -> u64 {
        let w = self.word();
        let sign = w & SIGN;
        let fraction = self.word() & 0x000F_FFFF_FFFF_FFFF;
        match w % 8 {
            0 => self.word(),
            1 => sign | ((self.word() % 64) << 52) | fraction,
            2 => sign | ((1000 + self.word() % 100) << 52) | fraction,
            3 => sign | ((2000 + self.word() % 48) << 52) | fraction,
            4 => sign | ((1023 + self.word() % 3) << 52) | (fraction & 0xF),
            5 => {
                let corners = [
                    0,
                    1,
                    0x000F_FFFF_FFFF_FFFF,
                    0x0010_0000_0000_0000,
                    0x7FEF_FFFF_FFFF_FFFF,
                    INFINITY,
                    NAN,
                    1.0f64.to_bits(),
                ];
                sign | corners[(self.word() % 8) as usize]
            }
            6 => ((self.word() % 2000) as f64 / 8.0 - 100.0).to_bits(),
            _ => sign | ((1020 + self.word() % 8) << 52) | fraction,
        }
    }
}

fn agrees(bits: u64, expected: f64) -> bool {
    if expected.is_nan() {
        f64::from_bits(bits).is_nan()
    } else {
        bits == expected.to_bits()
    }
}

#[test]
fn multiplication_matches_the_machine() {
    let mut p = Patterns(0x9E37_79B9_7F4A_7C15);
    for _ in 0..60_000 {
        let (a, b) = (p.next(), p.next());
        let expected = f64::from_bits(a) * f64::from_bits(b);
        assert!(agrees(mul(a, b), expected), "{a:#x} * {b:#x}");
    }
}

#[test]
fn division_matches_the_machine() {
    let mut p = Patterns(0xD1B5_4A32_D192_ED03);
    for _ in 0..60_000 {
        let (a, b) = (p.next(), p.next());
        let expected = f64::from_bits(a) / f64::from_bits(b);
        assert!(agrees(div(a, b), expected), "{a:#x} / {b:#x}");
    }
}

#[test]
fn addition_matches_the_machine() {
    let mut p = Patterns(0x2545_F491_4F6C_DD1D);
    for _ in 0..60_000 {
        let (a, b) = (p.next(), p.next());
        let expected = f64::from_bits(a) + f64::from_bits(b);
        assert!(agrees(add(a, b), expected), "{a:#x} + {b:#x}");
    }
}

#[test]
fn subtraction_matches_the_machine() {
    let mut p = Patterns(0x1234_5678_9ABC_DEF1);
    for _ in 0..60_000 {
        let (a, b) = (p.next(), p.next());
        let expected = f64::from_bits(a) - f64::from_bits(b);
        assert!(agrees(sub(a, b), expected), "{a:#x} - {b:#x}");
    }
}

#[test]
fn total_order_matches_the_machine() {
    let mut p = Patterns(0x0F0F_1234_ABCD_4321);
    for _ in 0..60_000 {
        let (a, b) = (p.next(), p.next());
        let expected = f64::from_bits(a).total_cmp(&f64::from_bits(b));
        assert_eq!(total_cmp(a, b), expected, "{a:#x} ? {b:#x}");
    }
    assert_eq!(total_cmp(SIGN, 0), Ordering::Less);
    assert_eq!(total_cmp(NAN, INFINITY), Ordering::Greater);
    assert_eq!(total_cmp(NAN | SIGN, INFINITY | SIGN), Ordering::Less);
}

#[test]
fn integers_match_the_machine() {
    let mut p = Patterns(0x7777_1111_3333_5555);
    for _ in 0..20_000 {
        let wide = ((p.word() as u128) << 64) | p.word() as u128;
        let n = wide >> (p.word() % 128);
        assert_eq!(from_u128(n), (n as f64).to_bits(), "{n}");
        let i = n as i128;
        assert_eq!(from_i128(i), (i as f64).to_bits(), "{i}");
    }
    assert_eq!(from_u128(0), 0);
    assert_eq!(from_u128(u128::MAX), (u128::MAX as f64).to_bits());
    assert_eq!(from_i128(i128::MIN), (i128::MIN as f64).to_bits());
    assert_eq!(from_i128(-1), (-1.0f64).to_bits());
    assert_eq!(from_u128((1 << 53) + 1), ((1u64 << 53) as f64).to_bits());
    assert_eq!(from_u128((1 << 53) + 3), (((1u64 << 53) + 4) as f64).to_bits());
}

#[test]
fn exact_results_of_the_four_operations() {
    let b = |x: f64| x.to_bits();
    assert_eq!(mul(b(1.5), b(2.0)), b(3.0));
    assert_eq!(div(b(1.0), b(3.0)), b(1.0 / 3.0));
    assert_eq!(div(b(1.0), b(3.0)), 0x3FD5_5555_5555_5555);
    assert_eq!(add(b(0.1), b(0.2)), 0x3FD3_3333_3333_3334);
    assert_eq!(sub(b(100.0), b(50.0)), b(50.0));
    assert_eq!(negate(b(2.5)), b(-2.5));
    // signed zeros
    assert_eq!(add(SIGN, SIGN), SIGN);
    assert_eq!(add(SIGN, 0), 0);
    assert_eq!(sub(b(7.0), b(7.0)), 0);
    assert_eq!(mul(b(-1.0), 0), SIGN);
    // overflow, underflow and the invalid operations
    assert_eq!(mul(b(1e200), b(1e200)), INFINITY);
    assert_eq!(mul(b(1e-200), b(1e-200)), 0);
    assert_eq!(div(b(1.0), 0), INFINITY);
    assert_eq!(div(b(-1.0), 0), INFINITY | SIGN);
    assert_eq!(div(0, 0), NAN);
    assert_eq!(mul(INFINITY, 0), NAN);
    assert_eq!(sub(INFINITY, INFINITY), NAN);
    assert_eq!(add(NAN, b(1.0)), NAN);
}
