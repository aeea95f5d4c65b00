//! How far a chain of roundings can carry a result from the exact value.
//!
//! One rounding to a normal number changes a value by at most one part in
//! 2^53 - 1. The relation `close` counts such steps, so that the accuracy of a
//! computation follows from the number of its roundings.
use crate::binary64::model::{
    is_finite, is_nan, is_negative, is_zero, lemma_units_increase, lemma_units_smallest,
    magnitude, significand, step, units, HIDDEN, INFINITY, NAN,
};
use crate::binary64::product::{div_spec, mul_spec};
use crate::binary64::rounding::{
    lemma_round_exists, lemma_round_half_gap, lemma_round_normal, lemma_round_zero, round_units,
};
use vstd::arithmetic::mul::*;
use vstd::arithmetic::power::*;
use vstd::arithmetic::power2::*;
use vstd::prelude::*;

verus! {

/// Whether a pattern is a normal number: finite, not zero, not subnormal.
pub open spec fn is_normal(b: u64) -> bool {
    HIDDEN <= magnitude(b) < INFINITY
}

/// `(2^53 - 1)` to the power `n`.
pub open spec fn shrink(n: nat) -> int {
    pow(0x1F_FFFF_FFFF_FFFF, n)
}

/// `2^53` to the power `n`.
pub open spec fn stretch(n: nat) -> int {
    pow(0x20_0000_0000_0000, n)
}

/// Whether `a` is at most `b` grown by `n` roundings:
/// `a <= b * (2^53 / (2^53 - 1))^n`.
pub open spec fn within(a: nat, b: nat, n: nat) -> bool {
    a * shrink(n) <= b * stretch(n)
}

/// Whether two numbers lie within `n` roundings of each other.
pub open spec fn close(a: nat, b: nat, n: nat) -> bool {
    within(a, b, n) && within(b, a, n)
}

proof fn lemma_factors(n: nat, k: nat)
    ensures
        shrink(n) > 0,
        stretch(n) > 0,
        shrink(n + k) == shrink(n) * shrink(k),
        stretch(n + k) == stretch(n) * stretch(k),
        shrink(0) == 1,
        stretch(0) == 1,
        shrink(1) == 0x1F_FFFF_FFFF_FFFF,
        stretch(1) == 0x20_0000_0000_0000,
{
    lemma_pow_positive(0x1F_FFFF_FFFF_FFFF, n);
    lemma_pow_positive(0x20_0000_0000_0000, n);
    lemma_pow_adds(0x1F_FFFF_FFFF_FFFF, n, k);
    lemma_pow_adds(0x20_0000_0000_0000, n, k);
    lemma_pow0(0x1F_FFFF_FFFF_FFFF);
    lemma_pow0(0x20_0000_0000_0000);
    lemma_pow1(0x1F_FFFF_FFFF_FFFF);
    lemma_pow1(0x20_0000_0000_0000);
}

proof fn lemma_within_chain(a: nat, b: nat, c: nat, n: nat, k: nat)
    requires
        within(a, b, n),
        within(b, c, k),
    ensures
        within(a, c, n + k),
{
    lemma_factors(n, k);
    lemma_factors(k, n);
    let sn = shrink(n);
    let sk = shrink(k);
    let tn = stretch(n);
    let tk = stretch(k);
    lemma_mul_inequality(a * sn, b * tn, sk);
    lemma_mul_inequality(b * sk, c * tk, tn);
    assert((a * sn) * sk == a * (sn * sk)) by (nonlinear_arith);
    assert((b * tn) * sk == (b * sk) * tn) by (nonlinear_arith);
    assert((c * tk) * tn == c * (tn * tk)) by (nonlinear_arith);
}

proof fn lemma_within_times(a: nat, b: nat, c: nat, d: nat, n: nat, k: nat)
    requires
        within(a, b, n),
        within(c, d, k),
    ensures
        within(a * c, b * d, n + k),
{
    lemma_factors(n, k);
    lemma_factors(k, n);
    let sn = shrink(n);
    let sk = shrink(k);
    let tn = stretch(n);
    let tk = stretch(k);
    lemma_mul_nonnegative(a as int, sn);
    lemma_mul_nonnegative(c as int, sk);
    lemma_mul_upper_bound(a * sn, b * tn, c * sk, d * tk);
    assert((a * sn) * (c * sk) == (a * c) * (sn * sk)) by (nonlinear_arith);
    assert((b * tn) * (d * tk) == (b * d) * (tn * tk)) by (nonlinear_arith);
}

proof fn lemma_within_scale(a: nat, b: nat, t: nat, n: nat)
    requires
        within(a, b, n),
    ensures
        within(a * t, b * t, n),
{
    let s = shrink(n);
    let g = stretch(n);
    lemma_mul_inequality(a * s, b * g, t as int);
    assert((a * s) * t == (a * t) * s) by (nonlinear_arith);
    assert((b * g) * t == (b * t) * g) by (nonlinear_arith);
}

proof fn lemma_within_cancel(a: nat, b: nat, t: nat, n: nat)
    requires
        t > 0,
        within(a * t, b * t, n),
    ensures
        within(a, b, n),
{
    let s = shrink(n);
    let g = stretch(n);
    assert((a * s) * t == (a * t) * s) by (nonlinear_arith);
    assert((b * g) * t == (b * t) * g) by (nonlinear_arith);
    lemma_mul_inequality_converse(a * s, b * g, t as int);
}

proof fn lemma_within_more(a: nat, b: nat, n: nat)
    requires
        within(a, b, n),
    ensures
        within(a, b, n + 1),
{
    lemma_factors(n, 1);
    let s = shrink(n);
    let g = stretch(n);
    lemma_mul_inequality(a * s, b * g, 0x1F_FFFF_FFFF_FFFF);
    lemma_mul_nonnegative(b as int, g);
    lemma_mul_inequality(0x1F_FFFF_FFFF_FFFF, 0x20_0000_0000_0000, b * g);
    assert((a * s) * 0x1F_FFFF_FFFF_FFFF == a * (s * 0x1F_FFFF_FFFF_FFFF)) by (nonlinear_arith);
    assert(0x20_0000_0000_0000 * (b * g) == b * (g * 0x20_0000_0000_0000)) by (nonlinear_arith);
    assert(0x1F_FFFF_FFFF_FFFF * (b * g) == (b * g) * 0x1F_FFFF_FFFF_FFFF) by (nonlinear_arith);
}

/// Every number is close to itself.
pub proof fn lemma_close_self(a: nat)
    ensures
        close(a, a, 0),
{
    lemma_factors(0, 0);
}

/// Closeness has no direction.
pub proof fn lemma_close_symmetric(a: nat, b: nat, n: nat)
    requires
        close(a, b, n),
    ensures
        close(b, a, n),
{
}

/// Closeness adds up along a chain.
pub proof fn lemma_close_chain(a: nat, b: nat, c: nat, n: nat, k: nat)
    requires
        close(a, b, n),
        close(b, c, k),
    ensures
        close(a, c, n + k),
{
    lemma_within_chain(a, b, c, n, k);
    lemma_within_chain(c, b, a, k, n);
}

/// The products of close numbers are close.
pub proof fn lemma_close_times(a: nat, b: nat, c: nat, d: nat, n: nat, k: nat)
    requires
        close(a, b, n),
        close(c, d, k),
    ensures
        close(a * c, b * d, n + k),
{
    lemma_within_times(a, b, c, d, n, k);
    lemma_within_times(b, a, d, c, n, k);
}

/// A common factor keeps numbers close.
pub proof fn lemma_close_scale(a: nat, b: nat, t: nat, n: nat)
    requires
        close(a, b, n),
    ensures
        close(a * t, b * t, n),
{
    lemma_within_scale(a, b, t, n);
    lemma_within_scale(b, a, t, n);
}

/// A common positive factor can be dropped.
pub proof fn lemma_close_cancel(a: nat, b: nat, t: nat, n: nat)
    requires
        t > 0,
        close(a * t, b * t, n),
    ensures
        close(a, b, n),
{
    lemma_within_cancel(a, b, t, n);
    lemma_within_cancel(b, a, t, n);
}

/// What is close within `n` roundings is close within more.
pub proof fn lemma_close_more(a: nat, b: nat, n: nat, more: nat)
    requires
        close(a, b, n),
    ensures
        close(a, b, n + more),
    decreases more,
{
    if more > 0 {
        lemma_close_more(a, b, n, (more - 1) as nat);
        lemma_within_more(a, b, (n + more - 1) as nat);
        lemma_within_more(b, a, (n + more - 1) as nat);
    }
}

/// A normal rounding is within one rounding of the number.
pub proof fn lemma_round_close(num: nat, den: nat, k: u64)
    requires
        den > 0,
        k == round_units(num, den),
        HIDDEN <= k < INFINITY,
    ensures
        close(num, units(k) * den, 1),
{
    lemma_round_half_gap(num, den, k);
    lemma_factors(1, 0);
    let here = units(k) * den;
    let gap = pow2(step(k)) * den;
    assert(k / HIDDEN >= 1);
    assert(significand(k) >= HIDDEN);
    lemma_pow2_pos(step(k));
    assert(here >= 0x10_0000_0000_0000 * gap) by (nonlinear_arith)
        requires
            here == significand(k) * pow2(step(k)) * den,
            gap == pow2(step(k)) * den,
            significand(k) >= 0x10_0000_0000_0000,
            pow2(step(k)) > 0,
            den > 0,
    ;
    assert(gap >= 0) by (nonlinear_arith)
        requires
            gap == pow2(step(k)) * den,
    ;
}

/// What a normal magnitude stands for lies between its leading bit and twice
/// that.
pub proof fn lemma_normal_range(k: u64)
    requires
        HIDDEN <= k < INFINITY,
    ensures
        pow2(52 + step(k)) <= units(k) < pow2(53 + step(k)),
{
    lemma2_to64_rest();
    let q = step(k);
    let p = pow2(q) as int;
    lemma_pow2_pos(q);
    lemma_pow2_adds(52, q);
    lemma_pow2_adds(53, q);
    assert(k / HIDDEN >= 1);
    let sig = significand(k) as int;
    assert(0x10_0000_0000_0000 <= sig < 0x20_0000_0000_0000);
    lemma_mul_inequality(0x10_0000_0000_0000, sig, p);
    lemma_mul_strict_inequality(sig, 0x20_0000_0000_0000, p);
}

/// A product of two normal numbers is normal where the exponents of its
/// factors keep it clear of the subnormal range and of overflow.
pub proof fn lemma_mul_normal(a: u64, b: u64)
    requires
        is_normal(a),
        is_normal(b),
        1022 <= step(magnitude(a)) + step(magnitude(b)) <= 3065,
    ensures
        is_normal(mul_spec(a, b)),
{
    let ka = magnitude(a);
    let kb = magnitude(b);
    let qa = step(ka);
    let qb = step(kb);
    lemma_normal_range(ka);
    lemma_normal_range(kb);
    let num = units(ka) * units(kb);
    let den = pow2(1074);
    lemma_pow2_pos(1074);
    lemma_pow2_adds(52 + qa, 52 + qb);
    lemma_pow2_adds(53 + qa, 53 + qb);
    lemma_mul_upper_bound(
        pow2(52 + qa) as int,
        units(ka) as int,
        pow2(52 + qb) as int,
        units(kb) as int,
    );
    lemma_mul_upper_bound(
        units(ka) as int,
        pow2(53 + qa) as int,
        units(kb) as int,
        pow2(53 + qb) as int,
    );
    lemma_pow2_adds(52, 1074);
    lemma_pow2_adds(2097, 1074);
    if 1126 < 104 + qa + qb {
        lemma_pow2_strictly_increases(1126, 104 + qa + qb);
    }
    if 106 + qa + qb < 3171 {
        lemma_pow2_strictly_increases(106 + qa + qb, 3171);
    }
    lemma_round_normal(num, den);
    lemma_round_exists(num, den);
}

/// A quotient of two normal numbers is normal where their exponents keep it
/// clear of the subnormal range and of overflow.
pub proof fn lemma_div_normal(a: u64, b: u64)
    requires
        is_normal(a),
        is_normal(b),
        step(magnitude(b)) <= step(magnitude(a)) + 1021,
        step(magnitude(a)) <= step(magnitude(b)) + 1022,
    ensures
        is_normal(div_spec(a, b)),
{
    let ka = magnitude(a);
    let kb = magnitude(b);
    let qa = step(ka);
    let qb = step(kb);
    lemma_normal_range(ka);
    lemma_normal_range(kb);
    let p = pow2(1074);
    let num = units(ka) * p;
    let den = units(kb);
    lemma_pow2_pos(1074);
    lemma_pow2_pos(52);
    lemma_pow2_pos(2097);
    // 2^52 * den < 2^(105 + qb) <= 2^(1126 + qa) <= num
    lemma_pow2_adds(52, 53 + qb);
    lemma_pow2_adds(52 + qa, 1074);
    lemma_mul_strict_inequality(den as int, pow2(53 + qb) as int, pow2(52) as int);
    lemma_mul_inequality(pow2(52 + qa) as int, units(ka) as int, p as int);
    if 105 + qb < 1126 + qa {
        lemma_pow2_strictly_increases(105 + qb, 1126 + qa);
    }
    assert(pow2(52) * den == den * pow2(52)) by (nonlinear_arith);
    // num < 2^(1127 + qa) <= 2^(2149 + qb) <= 2^2097 * den
    lemma_pow2_adds(53 + qa, 1074);
    lemma_pow2_adds(2097, 52 + qb);
    lemma_mul_strict_inequality(units(ka) as int, pow2(53 + qa) as int, p as int);
    lemma_mul_inequality(pow2(52 + qb) as int, den as int, pow2(2097) as int);
    if 1127 + qa < 2149 + qb {
        lemma_pow2_strictly_increases(1127 + qa, 2149 + qb);
    }
    assert(pow2(2097) * den == den * pow2(2097)) by (nonlinear_arith);
    assert(pow2(2097) * pow2(52 + qb) == pow2(52 + qb) * pow2(2097)) by (nonlinear_arith);
    lemma_round_normal(num, den);
    lemma_round_exists(num, den);
}

/// Zero and the infinities pass unchanged through a product or a quotient with
/// a positive normal number, and not-a-number stays not-a-number.
pub proof fn lemma_scaling_keeps_special_values(v: u64, c: u64)
    requires
        is_normal(c),
        !is_negative(c),
        !is_finite(v) || is_zero(v),
    ensures
        is_nan(v) ==> mul_spec(v, c) == NAN && div_spec(v, c) == NAN,
        !is_nan(v) ==> mul_spec(v, c) == v && div_spec(v, c) == v,
{
    if is_zero(v) {
        lemma_units_smallest();
        lemma_units_increase(0, magnitude(c));
        lemma_pow2_pos(1074);
        assert(units(magnitude(v)) * units(magnitude(c)) == 0) by (nonlinear_arith)
            requires
                units(magnitude(v)) == 0,
        ;
        assert(units(magnitude(v)) * pow2(1074) == 0) by (nonlinear_arith)
            requires
                units(magnitude(v)) == 0,
        ;
        lemma_round_zero(pow2(1074));
        lemma_round_zero(units(magnitude(c)));
    }
}

/// A normal product is within one rounding of the exact product.
pub proof fn lemma_mul_close(a: u64, b: u64)
    requires
        is_finite(a),
        is_finite(b),
        is_normal(mul_spec(a, b)),
    ensures
        close(
            units(magnitude(a)) * units(magnitude(b)),
            units(magnitude(mul_spec(a, b))) * pow2(1074),
            1,
        ),
        is_negative(mul_spec(a, b)) == (is_negative(a) != is_negative(b)),
{
    let num = units(magnitude(a)) * units(magnitude(b));
    let den = pow2(1074);
    lemma_pow2_pos(1074);
    lemma_round_exists(num, den);
    lemma_round_close(num, den, round_units(num, den));
}

/// A normal quotient is within one rounding of the exact quotient.
pub proof fn lemma_div_close(a: u64, b: u64)
    requires
        is_finite(a),
        is_finite(b),
        !is_zero(b),
        is_normal(div_spec(a, b)),
    ensures
        close(
            units(magnitude(a)) * pow2(1074),
            units(magnitude(div_spec(a, b))) * units(magnitude(b)),
            1,
        ),
        is_negative(div_spec(a, b)) == (is_negative(a) != is_negative(b)),
        units(magnitude(b)) > 0,
{
    let num = units(magnitude(a)) * pow2(1074);
    let den = units(magnitude(b));
    lemma_units_smallest();
    lemma_units_increase(0, magnitude(b));
    lemma_round_exists(num, den);
    lemma_round_close(num, den, round_units(num, den));
}

/// Multiplying by a positive number and dividing by it again ends within two
/// roundings of the start, where both results are normal.
pub proof fn lemma_mul_then_div(v: u64, c: u64)
    requires
        is_finite(v),
        is_finite(c),
        !is_negative(c),
        is_normal(mul_spec(v, c)),
        is_normal(div_spec(mul_spec(v, c), c)),
    ensures
        close(units(magnitude(v)), units(magnitude(div_spec(mul_spec(v, c), c))), 2),
        is_negative(div_spec(mul_spec(v, c), c)) == is_negative(v),
{
    let y = mul_spec(v, c);
    let z = div_spec(y, c);
    let p = pow2(1074);
    if is_zero(c) {
        lemma_units_smallest();
        assert(units(magnitude(v)) * units(magnitude(c)) == 0) by (nonlinear_arith)
            requires
                units(magnitude(c)) == 0,
        ;
        lemma_pow2_pos(1074);
        lemma_round_zero(p);
    }
    lemma_mul_close(v, c);
    lemma_div_close(y, c);
    let big_v = units(magnitude(v));
    let big_c = units(magnitude(c));
    let big_y = units(magnitude(y));
    let big_z = units(magnitude(z));
    lemma_close_chain(big_v * big_c, big_y * p, big_z * big_c, 1, 1);
    lemma_close_cancel(big_v, big_z, big_c, 2);
}

/// Dividing by a positive number and multiplying by it again ends within two
/// roundings of the start, where both results are normal.
pub proof fn lemma_div_then_mul(v: u64, c: u64)
    requires
        is_finite(v),
        is_finite(c),
        !is_negative(c),
        !is_zero(c),
        is_normal(div_spec(v, c)),
        is_normal(mul_spec(div_spec(v, c), c)),
    ensures
        close(units(magnitude(v)), units(magnitude(mul_spec(div_spec(v, c), c))), 2),
        is_negative(mul_spec(div_spec(v, c), c)) == is_negative(v),
{
    let y = div_spec(v, c);
    let z = mul_spec(y, c);
    let p = pow2(1074);
    lemma_pow2_pos(1074);
    lemma_div_close(v, c);
    lemma_mul_close(y, c);
    let big_v = units(magnitude(v));
    let big_c = units(magnitude(c));
    let big_y = units(magnitude(y));
    let big_z = units(magnitude(z));
    lemma_close_chain(big_v * p, big_y * big_c, big_z * p, 1, 1);
    lemma_close_cancel(big_v, big_z, p, 2);
}

/// Multiplying by the rounded ratio of two positive numbers and then by the
/// rounded inverse ratio ends within four roundings of the start, where both
/// ratios and both results are normal.
pub proof fn lemma_ratio_there_and_back(v: u64, a: u64, b: u64)
    requires
        is_finite(v),
        is_finite(a),
        is_finite(b),
        !is_negative(a),
        !is_negative(b),
        !is_zero(a),
        !is_zero(b),
        is_normal(div_spec(a, b)),
        is_normal(div_spec(b, a)),
        is_normal(mul_spec(v, div_spec(a, b))),
        is_normal(mul_spec(mul_spec(v, div_spec(a, b)), div_spec(b, a))),
    ensures
        close(
            units(magnitude(v)),
            units(magnitude(mul_spec(mul_spec(v, div_spec(a, b)), div_spec(b, a)))),
            4,
        ),
        is_negative(mul_spec(mul_spec(v, div_spec(a, b)), div_spec(b, a))) == is_negative(v),
{
    let r1 = div_spec(a, b);
    let r2 = div_spec(b, a);
    let y = mul_spec(v, r1);
    let z = mul_spec(y, r2);
    let p = pow2(1074);
    lemma_pow2_pos(1074);
    let big_v = units(magnitude(v));
    let big_a = units(magnitude(a));
    let big_b = units(magnitude(b));
    let big_r1 = units(magnitude(r1));
    let big_r2 = units(magnitude(r2));
    let big_y = units(magnitude(y));
    let big_z = units(magnitude(z));
    lemma_div_close(a, b);
    lemma_div_close(b, a);
    lemma_mul_close(v, r1);
    lemma_mul_close(y, r2);
    // the two ratios multiply to one within two roundings
    let pp = p * p;
    let rr = big_r1 * big_r2;
    let ab = big_a * big_b;
    lemma_close_times(big_a * p, big_r1 * big_b, big_b * p, big_r2 * big_a, 1, 1);
    assert((big_a * p) * (big_b * p) == pp * ab) by (nonlinear_arith)
        requires
            pp == p * p,
            ab == big_a * big_b,
    ;
    assert((big_r1 * big_b) * (big_r2 * big_a) == rr * ab) by (nonlinear_arith)
        requires
            rr == big_r1 * big_r2,
            ab == big_a * big_b,
    ;
    assert(ab > 0) by (nonlinear_arith)
        requires
            ab == big_a * big_b,
            big_a > 0,
            big_b > 0,
    ;
    lemma_close_cancel(pp, rr, ab, 2);
    // the start times both ratios is the end within two roundings
    lemma_close_scale(big_v * big_r1, big_y * p, big_r2, 1);
    lemma_close_scale(big_y * big_r2, big_z * p, p, 1);
    assert((big_v * big_r1) * big_r2 == big_v * rr) by (nonlinear_arith)
        requires
            rr == big_r1 * big_r2,
    ;
    assert((big_y * p) * big_r2 == (big_y * big_r2) * p) by (nonlinear_arith);
    assert((big_z * p) * p == big_z * pp) by (nonlinear_arith)
        requires
            pp == p * p,
    ;
    lemma_close_chain(big_v * rr, (big_y * big_r2) * p, big_z * pp, 1, 1);
    // together
    lemma_close_self(big_v);
    lemma_close_times(big_v, big_v, pp, rr, 0, 2);
    lemma_close_chain(big_v * pp, big_v * rr, big_z * pp, 2, 2);
    assert(pp > 0) by (nonlinear_arith)
        requires
            pp == p * p,
            p > 0,
    ;
    lemma_close_cancel(big_v, big_z, pp, 4);
}

} // verus!
