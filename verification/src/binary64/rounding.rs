//! Rounding to nearest, ties to even.
//!
//! The number to round is a non-negative rational `num / den`, measured in
//! units of 2^-1074. Its rounding is the magnitude whose value lies nearest;
//! of two that are equally near, the one whose last bit is zero. Infinity takes
//! part as the magnitude above the largest finite one, which is how overflow
//! to infinity comes out of the same rule.
use crate::binary64::model::{
    lemma_units_increase, lemma_units_next, lemma_units_packed, lemma_units_smallest, packed,
    significand, step, units, HIDDEN, INFINITY, MAX_STEP,
};
use vstd::arithmetic::div_mod::*;
use vstd::arithmetic::mul::*;
use vstd::arithmetic::power2::*;
use vstd::prelude::*;

verus! {

/// Whether `k` is the magnitude nearest to `num / den`, ties going to the even
/// magnitude.
pub open spec fn is_nearest(num: nat, den: nat, k: u64) -> bool {
    &&& k <= INFINITY
    &&& k < INFINITY ==> {
        let twice_mid = (units(k) + units((k + 1) as u64)) * den;
        2 * num < twice_mid || (2 * num == twice_mid && k % 2 == 0)
    }
    &&& k > 0 ==> {
        let twice_mid = (units((k - 1) as u64) + units(k)) * den;
        2 * num > twice_mid || (2 * num == twice_mid && k % 2 == 0)
    }
}

/// The magnitude that `num / den` rounds to.
pub open spec fn round_units(num: nat, den: nat) -> u64 {
    choose|k: u64| is_nearest(num, den, k)
}

proof fn lemma_nearest_ordered(num: nat, den: nat, k1: u64, k2: u64)
    requires
        den > 0,
        is_nearest(num, den, k1),
        is_nearest(num, den, k2),
        k1 <= k2,
    ensures
        k1 == k2,
{
    if k1 < k2 {
        let a = units(k1) + units((k1 + 1) as u64);
        let b = units((k2 - 1) as u64) + units(k2);
        if k1 + 1 < k2 {
            lemma_units_increase(k1, (k2 - 1) as u64);
            lemma_units_increase((k1 + 1) as u64, k2);
            lemma_mul_strict_inequality(a as int, b as int, den as int);
        }
    }
}

/// No number has two roundings.
pub proof fn lemma_nearest_unique(num: nat, den: nat, k1: u64, k2: u64)
    requires
        den > 0,
        is_nearest(num, den, k1),
        is_nearest(num, den, k2),
    ensures
        k1 == k2,
{
    if k1 <= k2 {
        lemma_nearest_ordered(num, den, k1, k2);
    } else {
        lemma_nearest_ordered(num, den, k2, k1);
    }
}

/// A magnitude that is nearest is the rounding.
pub proof fn lemma_round_is(num: nat, den: nat, k: u64)
    requires
        den > 0,
        is_nearest(num, den, k),
    ensures
        round_units(num, den) == k,
{
    lemma_nearest_unique(num, den, k, round_units(num, den));
}

/// The largest magnitude up to `bound` that does not exceed `num / den`.
proof fn floor_up_to(num: nat, den: nat, bound: u64) -> (k: u64)
    requires
        den > 0,
        bound <= INFINITY,
    ensures
        k <= bound,
        units(k) * den <= num,
        k < bound ==> units((k + 1) as u64) * den > num,
    decreases bound,
{
    lemma_units_smallest();
    if units(bound) * den <= num {
        bound
    } else {
        assert(bound > 0) by {
            if bound == 0 {
                assert(units(0) * den == 0) by (nonlinear_arith)
                    requires
                        units(0) == 0,
                ;
            }
        }
        floor_up_to(num, den, (bound - 1) as u64)
    }
}

/// Every number has a rounding: `round_units` gives a nearest magnitude.
pub proof fn lemma_round_exists(num: nat, den: nat)
    requires
        den > 0,
    ensures
        is_nearest(num, den, round_units(num, den)),
{
    let k = floor_up_to(num, den, INFINITY);
    let here = units(k) * den;
    if k > 0 {
        lemma_units_increase((k - 1) as u64, k);
        let before = units((k - 1) as u64) * den;
        lemma_mul_strict_inequality(units((k - 1) as u64) as int, units(k) as int, den as int);
        assert((units((k - 1) as u64) + units(k)) * den == before + here) by (nonlinear_arith)
            requires
                before == units((k - 1) as u64) * den,
                here == units(k) * den,
        ;
    }
    if k == INFINITY {
        assert(is_nearest(num, den, k));
    } else {
        let up = (k + 1) as u64;
        let there = units(up) * den;
        assert((units(k) + units(up)) * den == here + there) by (nonlinear_arith)
            requires
                there == units(up) * den,
                here == units(k) * den,
        ;
        if up < INFINITY {
            lemma_units_increase(up, (up + 1) as u64);
            let after = units((up + 1) as u64) * den;
            lemma_mul_strict_inequality(
                units(up) as int,
                units((up + 1) as u64) as int,
                den as int,
            );
            assert((units(up) + units((up + 1) as u64)) * den == there + after)
                by (nonlinear_arith)
                requires
                    there == units(up) * den,
                    after == units((up + 1) as u64) * den,
            ;
        }
        if 2 * num < here + there || (2 * num == here + there && k % 2 == 0) {
            assert(is_nearest(num, den, k));
        } else {
            assert(is_nearest(num, den, up));
        }
    }
}

/// A rounding lies within half a gap of the number: `num / den` differs from
/// what its finite rounding `k` stands for by at most half the distance from
/// `k` to the next magnitude.
pub proof fn lemma_round_half_gap(num: nat, den: nat, k: u64)
    requires
        den > 0,
        k == round_units(num, den),
        k < INFINITY,
    ensures
        2 * (num - units(k) * den) <= pow2(step(k)) * den,
        2 * (units(k) * den - num) <= pow2(step(k)) * den,
{
    lemma_round_exists(num, den);
    lemma_units_next(k);
    let here = units(k) * den;
    let gap = pow2(step(k)) * den;
    assert((units(k) + units((k + 1) as u64)) * den == here + here + gap) by (nonlinear_arith)
        requires
            units((k + 1) as u64) == units(k) + pow2(step(k)),
            here == units(k) * den,
            gap == pow2(step(k)) * den,
    ;
    if k > 0 {
        let under = (k - 1) as u64;
        lemma_units_next(under);
        let small = pow2(step(under)) * den;
        assert(step(under) <= step(k));
        if step(under) < step(k) {
            lemma_pow2_strictly_increases(step(under), step(k));
        }
        lemma_mul_inequality(pow2(step(under)) as int, pow2(step(k)) as int, den as int);
        assert((units(under) + units(k)) * den == here + here - small) by (nonlinear_arith)
            requires
                units(k) == units(under) + pow2(step(under)),
                here == units(k) * den,
                small == pow2(step(under)) * den,
        ;
    } else {
        lemma_units_smallest();
        assert(here == 0) by (nonlinear_arith)
            requires
                here == units(k) * den,
                units(k) == 0,
        ;
        lemma_pow2_pos(step(k));
        assert(gap >= 0) by (nonlinear_arith)
            requires
                gap == pow2(step(k)) * den,
        ;
    }
}

/// A number between two to the -1022nd and two to the 1023rd rounds to a
/// normal magnitude: it neither falls among the subnormals nor overflows.
pub proof fn lemma_round_normal(num: nat, den: nat)
    requires
        den > 0,
        pow2(52) * den <= num,
        num <= pow2(2097) * den,
    ensures
        HIDDEN <= round_units(num, den) < INFINITY,
{
    let k = round_units(num, den);
    lemma_round_exists(num, den);
    lemma2_to64();
    lemma2_to64_rest();
    assert(HIDDEN / HIDDEN == 1 && HIDDEN % HIDDEN == 0);
    assert(units(HIDDEN) == HIDDEN * pow2(0));
    assert(units(HIDDEN) == pow2(52));
    if k < HIDDEN {
        let up = (k + 1) as u64;
        if up < HIDDEN {
            lemma_units_increase(up, HIDDEN);
        }
        lemma_units_increase(k, HIDDEN);
        lemma_mul_strict_inequality(
            (units(k) + units(up)) as int,
            (pow2(52) + pow2(52)) as int,
            den as int,
        );
        assert((pow2(52) + pow2(52)) * den == 2 * (pow2(52) * den)) by (nonlinear_arith);
    }
    if k == INFINITY {
        let under = (INFINITY - 1) as u64;
        assert(under / HIDDEN == 2046 && under % HIDDEN == HIDDEN - 1);
        assert(INFINITY / HIDDEN == 2047 && INFINITY % HIDDEN == 0);
        let p = pow2(2045) as int;
        lemma_pow2_unfold(2046);
        lemma_pow2_adds(52, 2045);
        assert(units(under) == (HIDDEN + (HIDDEN - 1)) * p);
        assert(units(INFINITY) == HIDDEN * (2 * p));
        lemma_pow2_pos(2045);
        assert(units(under) + units(INFINITY) > 2 * (pow2(52) * p)) by (nonlinear_arith)
            requires
                units(under) == (0x10_0000_0000_0000 + (0x10_0000_0000_0000 - 1)) * p,
                units(INFINITY) == 0x10_0000_0000_0000 * (2 * p),
                pow2(52) == 0x10_0000_0000_0000,
                p > 0,
        ;
        lemma_mul_strict_inequality(
            (2 * pow2(2097)) as int,
            (units(under) + units(INFINITY)) as int,
            den as int,
        );
        assert((2 * pow2(2097)) * den == 2 * (pow2(2097) * den)) by (nonlinear_arith);
    }
}

/// Zero rounds to zero.
pub proof fn lemma_round_zero(den: nat)
    requires
        den > 0,
    ensures
        round_units(0, den) == 0,
{
    lemma2_to64();
    lemma_units_smallest();
    assert((units(0) + units(1)) * den == den) by (nonlinear_arith)
        requires
            units(0) == 0,
            units(1) == 1,
    ;
    lemma_round_is(0, den, 0);
}

/// The magnitude nearest to the number `n / d`.
pub open spec fn nearest_to(n: nat, d: nat) -> u64 {
    round_units(n * pow2(1074), d)
}

/// A way to find out what a given number rounds to. The number `n / d` rounds
/// to the normal magnitude `k` if it lies strictly between the two midpoints
/// around `k`; the exponents `x` and `y` bring the three to one scale, so that
/// the comparison is one between whole numbers.
pub proof fn lemma_nearest_to(n: nat, d: nat, k: u64, x: nat, y: nat)
    requires
        d > 0,
        HIDDEN < k < INFINITY,
        k % HIDDEN > 0,
        step(k) + x == 1074 + y,
        (2 * significand(k) - 1) * pow2(y) * d < 2 * n * pow2(x),
        2 * n * pow2(x) < (2 * significand(k) + 1) * pow2(y) * d,
    ensures
        nearest_to(n, d) == k,
{
    let num = n * pow2(1074);
    let under = (k - 1) as u64;
    let sig = significand(k) as int;
    let g = pow2(step(k)) as int;
    let p = pow2(1074) as int;
    let px = pow2(x) as int;
    let py = pow2(y) as int;
    assert(under / HIDDEN == k / HIDDEN);
    assert(step(under) == step(k));
    lemma_units_next(k);
    lemma_units_next(under);
    lemma_pow2_pos(step(k));
    lemma_pow2_pos(y);
    lemma_pow2_adds(step(k), x);
    lemma_pow2_adds(1074, y);
    assert(p * py == g * px);
    let low = (units(under) + units(k)) * d;
    let high = (units(k) + units((k + 1) as u64)) * d;
    assert(low == (2 * sig - 1) * g * d) by (nonlinear_arith)
        requires
            low == (units(under) + units(k)) * d,
            units(k) == sig * g,
            units(k) == units(under) + g,
    ;
    assert(high == (2 * sig + 1) * g * d) by (nonlinear_arith)
        requires
            high == (units(k) + units((k + 1) as u64)) * d,
            units(k) == sig * g,
            units((k + 1) as u64) == units(k) + g,
    ;
    // both sides of each comparison, brought to the scale of the gap
    let below = (2 * sig - 1) * py * d;
    let above = (2 * sig + 1) * py * d;
    let middle = 2 * n * px;
    lemma_mul_strict_inequality(below, middle, g);
    lemma_mul_strict_inequality(middle, above, g);
    assert(below * g == low * py) by (nonlinear_arith)
        requires
            below == (2 * sig - 1) * py * d,
            low == (2 * sig - 1) * g * d,
    ;
    assert(above * g == high * py) by (nonlinear_arith)
        requires
            above == (2 * sig + 1) * py * d,
            high == (2 * sig + 1) * g * d,
    ;
    assert(middle * g == (2 * num) * py) by (nonlinear_arith)
        requires
            middle == 2 * n * px,
            num == n * p,
            p * py == g * px,
    ;
    lemma_mul_strict_inequality_converse(low as int, (2 * num) as int, py);
    lemma_mul_strict_inequality_converse((2 * num) as int, high as int, py);
    lemma_round_is(num, d, k);
}

/// A value that a magnitude stands for rounds to that magnitude.
pub proof fn lemma_round_exact(k: u64, den: nat)
    requires
        k <= INFINITY,
        den > 0,
    ensures
        round_units(units(k) * den, den) == k,
{
    let num = units(k) * den;
    if k < INFINITY {
        lemma_units_increase(k, (k + 1) as u64);
        let a = units(k) + units(k);
        let b = units(k) + units((k + 1) as u64);
        lemma_mul_strict_inequality(a as int, b as int, den as int);
        assert(a * den == 2 * num) by (nonlinear_arith)
            requires
                a == units(k) + units(k),
                num == units(k) * den,
        ;
    }
    if k > 0 {
        lemma_units_increase((k - 1) as u64, k);
        let a = units(k) + units(k);
        let b = units((k - 1) as u64) + units(k);
        lemma_mul_strict_inequality(b as int, a as int, den as int);
        assert(a * den == 2 * num) by (nonlinear_arith)
            requires
                a == units(k) + units(k),
                num == units(k) * den,
        ;
    }
    lemma_round_is(num, den, k);
}

/// What an integer `m`, a binary exponent `u - v` and a flag say of the number
/// `num / den`: without the flag, that it is `m * 2^(u - v)`; with it, that it
/// lies strictly between that and `(m + 1) * 2^(u - v)`.
pub open spec fn bracket(m: nat, u: nat, v: nat, sticky: bool, num: nat, den: nat) -> bool {
    let low = m * pow2(u) * den;
    let x = num * pow2(v);
    if sticky {
        low < x < low + pow2(u) * den
    } else {
        x == low
    }
}

/// Only the difference of the two exponents of a bracket matters.
pub(crate) proof fn lemma_bracket_rescale(
    m: nat,
    u: nat,
    v: nat,
    sticky: bool,
    num: nat,
    den: nat,
    q: nat,
    s: nat,
)
    requires
        bracket(m, u, v, sticky, num, den),
        q + v == s + u,
    ensures
        bracket(m, q, s, sticky, num, den),
{
    let pu = pow2(u) as int;
    let pv = pow2(v) as int;
    let pq = pow2(q) as int;
    let ps = pow2(s) as int;
    lemma_pow2_pos(u);
    lemma_pow2_pos(q);
    lemma_pow2_adds(q, v);
    lemma_pow2_adds(s, u);
    assert(pq * pv == ps * pu);
    let low = m * pu * den;
    let x = num * pv;
    let wide = pu * den;
    let low2 = m * pq * den;
    let x2 = num * ps;
    let wide2 = pq * den;
    assert(low * pq == low2 * pu) by (nonlinear_arith)
        requires
            low == m * pu * den,
            low2 == m * pq * den,
    ;
    assert(wide * pq == wide2 * pu) by (nonlinear_arith)
        requires
            wide == pu * den,
            wide2 == pq * den,
    ;
    assert(x * pq == x2 * pu) by (nonlinear_arith)
        requires
            x == num * pv,
            x2 == num * ps,
            pq * pv == ps * pu,
    ;
    if sticky {
        lemma_mul_strict_inequality(low, x, pq);
        lemma_mul_strict_inequality(x, low + wide, pq);
        assert((low + wide) * pq == (low2 + wide2) * pu) by (nonlinear_arith)
            requires
                low * pq == low2 * pu,
                wide * pq == wide2 * pu,
        ;
        lemma_mul_strict_inequality_converse(low2, x2, pu);
        lemma_mul_strict_inequality_converse(x2, low2 + wide2, pu);
    } else {
        lemma_mul_equality_converse(pu, x2, low2);
    }
}

/// Whether a quotient `n` with remainder `rem` out of `2 * half` goes up to
/// `n + 1`: above the middle always, in the middle when `n` is odd.
pub open spec fn rounds_up(n: nat, rem: nat, half: nat, sticky: bool) -> bool {
    rem > half || (rem == half && (sticky || n % 2 == 1))
}

/// The rounding of a bracketed number whose low `s` bits are cut off.
pub(crate) proof fn lemma_round_cut(
    m: nat,
    q: nat,
    s: nat,
    sticky: bool,
    num: nat,
    den: nat,
    n: nat,
    rem: nat,
)
    requires
        den > 0,
        s >= 1,
        bracket(m, q, s, sticky, num, den),
        m == n * pow2(s) + rem,
        rem < pow2(s),
        n < 2 * HIDDEN,
        q == 0 || n >= HIDDEN,
        q <= MAX_STEP,
    ensures
        packed(q, n) < INFINITY,
        is_nearest(
            num,
            den,
            (packed(q, n) + if rounds_up(n, rem, pow2((s - 1) as nat), sticky) {
                1nat
            } else {
                0nat
            }) as u64,
        ),
{
    lemma_units_packed(q, n);
    let k0 = packed(q, n) as u64;
    let pq = pow2(q) as int;
    let b = pow2(s) as int;
    let half = pow2((s - 1) as nat) as int;
    let a = pq * den;
    lemma_pow2_pos(q);
    lemma_pow2_pos(s);
    lemma_pow2_unfold(s);
    lemma_units_next(k0);
    assert(a > 0) by (nonlinear_arith)
        requires
            a == pq * den,
            pq > 0,
            den > 0,
    ;
    let mn = m as int;
    let nn = n as int;
    let x = num * b;
    assert(m * pow2(q) * den == mn * a) by (nonlinear_arith)
        requires
            a == pq * den,
            pq == pow2(q),
            mn == m,
    ;
    assert(mn * a <= x && x < mn * a + a && (sticky <==> mn * a < x));
    // the value of the floor and of the magnitude above it
    let lower = units(k0) * den;
    let upper = units((k0 + 1) as u64) * den;
    assert(lower == nn * a) by (nonlinear_arith)
        requires
            lower == units(k0) * den,
            units(k0) == nn * pq,
            a == pq * den,
    ;
    assert(upper == nn * a + a) by (nonlinear_arith)
        requires
            upper == units((k0 + 1) as u64) * den,
            units((k0 + 1) as u64) == nn * pq + pq,
            a == pq * den,
    ;
    assert((units(k0) + units((k0 + 1) as u64)) * den == lower + upper) by (nonlinear_arith)
        requires
            lower == units(k0) * den,
            upper == units((k0 + 1) as u64) * den,
    ;
    assert(num >= nn * a) by (nonlinear_arith)
        requires
            num * b >= mn * a,
            mn == nn * b + rem,
            rem >= 0,
            a > 0,
            b > 0,
    ;
    assert(num < nn * a + a) by (nonlinear_arith)
        requires
            num * b < mn * a + a,
            mn == nn * b + rem,
            rem < b,
            a > 0,
            b > 0,
    ;
    if rem < half {
        assert(2 * num < 2 * (nn * a) + a) by (nonlinear_arith)
            requires
                num * b < mn * a + a,
                mn == nn * b + rem,
                rem < half,
                b == 2 * half,
                a > 0,
                b > 0,
        ;
    }
    if rem > half {
        assert(2 * num > 2 * (nn * a) + a) by (nonlinear_arith)
            requires
                num * b >= mn * a,
                mn == nn * b + rem,
                rem > half,
                b == 2 * half,
                a > 0,
                b > 0,
        ;
    }
    if rem == half {
        if sticky {
            assert(2 * num > 2 * (nn * a) + a) by (nonlinear_arith)
                requires
                    num * b > mn * a,
                    mn == nn * b + half,
                    b == 2 * half,
                    a > 0,
                    b > 0,
            ;
        } else {
            assert(2 * num == 2 * (nn * a) + a) by (nonlinear_arith)
                requires
                    num * b == mn * a,
                    mn == nn * b + half,
                    b == 2 * half,
                    a > 0,
                    b > 0,
            ;
        }
    }
    if rounds_up(n, rem, half as nat, sticky) {
        let k = (k0 + 1) as u64;
        if k < INFINITY {
            lemma_units_increase(k, (k + 1) as u64);
            let above = units((k + 1) as u64) * den;
            lemma_mul_strict_inequality(
                units(k) as int,
                units((k + 1) as u64) as int,
                den as int,
            );
            assert((units(k) + units((k + 1) as u64)) * den == upper + above)
                by (nonlinear_arith)
                requires
                    upper == units(k) * den,
                    above == units((k + 1) as u64) * den,
            ;
        }
        assert(is_nearest(num, den, k));
    } else {
        if k0 > 0 {
            lemma_units_increase((k0 - 1) as u64, k0);
            let below = units((k0 - 1) as u64) * den;
            lemma_mul_strict_inequality(
                units((k0 - 1) as u64) as int,
                units(k0) as int,
                den as int,
            );
            assert((units((k0 - 1) as u64) + units(k0)) * den == below + lower)
                by (nonlinear_arith)
                requires
                    lower == units(k0) * den,
                    below == units((k0 - 1) as u64) * den,
            ;
        }
        assert(is_nearest(num, den, k0));
    }
}

} // verus!
