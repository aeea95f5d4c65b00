//! Addition and subtraction.
use crate::binary64::encode::encode;
use crate::binary64::fields::{lemma_pow2_values, magnitude_of, power_of_two, split};
use crate::binary64::model::{
    is_infinite, is_nan, is_negative, lemma_units_increase, lemma_units_smallest, magnitude,
    negated, signed_units, units, with_sign, INFINITY, NAN, SIGN,
};
use crate::binary64::model::{is_finite, step};
use crate::binary64::rounding::{bracket, lemma_round_exists, lemma_round_half_gap, round_units};
use vstd::arithmetic::mul::*;
use vstd::arithmetic::power2::*;
use vstd::prelude::*;

verus! {

/// The rounding of an exact sum given in units of 2^-1074. A sum of zero is
/// positive zero, unless both terms were negative.
pub open spec fn round_sum(sum: int, both_negative: bool) -> u64 {
    if sum == 0 {
        if both_negative {
            SIGN
        } else {
            0
        }
    } else if sum < 0 {
        with_sign(true, round_units((-sum) as nat, 1))
    } else {
        with_sign(false, round_units(sum as nat, 1))
    }
}

/// The sum of two binary64 numbers: the exact sum of what they stand for,
/// rounded once.
pub open spec fn add_spec(a: u64, b: u64) -> u64 {
    if is_nan(a) || is_nan(b) {
        NAN
    } else if is_infinite(a) {
        if is_infinite(b) && a != b {
            NAN
        } else {
            a
        }
    } else if is_infinite(b) {
        b
    } else {
        round_sum(signed_units(a) + signed_units(b), is_negative(a) && is_negative(b))
    }
}

/// The difference of two binary64 numbers: the sum of the first and the
/// opposite of the second.
pub open spec fn sub_spec(a: u64, b: u64) -> u64 {
    add_spec(a, negated(b))
}

/// The order of the two terms does not matter.
pub proof fn lemma_add_commutes(a: u64, b: u64)
    ensures
        add_spec(a, b) == add_spec(b, a),
{
}

/// A finite sum lies within half a gap of the exact sum.
pub proof fn lemma_add_half_gap(a: u64, b: u64)
    requires
        is_finite(a),
        is_finite(b),
        is_finite(add_spec(a, b)),
    ensures
        ({
            let r = add_spec(a, b);
            let exact = signed_units(a) + signed_units(b);
            let gap = pow2(step(magnitude(r)));
            2 * (signed_units(r) - exact) <= gap && 2 * (exact - signed_units(r)) <= gap
        }),
{
    let r = add_spec(a, b);
    let exact = signed_units(a) + signed_units(b);
    lemma_units_smallest();
    lemma_pow2_pos(step(magnitude(r)));
    if exact != 0 {
        let size: nat = if exact < 0 {
            (-exact) as nat
        } else {
            exact as nat
        };
        let k = round_units(size, 1);
        lemma_round_exists(size, 1);
        lemma_round_half_gap(size, 1, k);
        assert(units(k) * 1 == units(k));
        assert(pow2(step(k)) * 1 == pow2(step(k)));
    }
}

/// A finite difference lies within half a gap of the exact difference.
pub proof fn lemma_sub_half_gap(a: u64, b: u64)
    requires
        is_finite(a),
        is_finite(b),
        is_finite(sub_spec(a, b)),
    ensures
        ({
            let r = sub_spec(a, b);
            let exact = signed_units(a) - signed_units(b);
            let gap = pow2(step(magnitude(r)));
            2 * (signed_units(r) - exact) <= gap && 2 * (exact - signed_units(r)) <= gap
        }),
{
    lemma_units_smallest();
    lemma_add_half_gap(a, negated(b));
}

/// The value of a magnitude with a sign, in units of 2^-1074.
pub open spec fn signed_value(negative: bool, k: u64) -> int {
    if negative {
        -(units(k) as int)
    } else {
        units(k) as int
    }
}

/// Adds two finite numbers, the one of larger magnitude first.
fn add_ordered(big_negative: bool, big: u64, small_negative: bool, small: u64) -> (r: u64)
    requires
        small <= big < INFINITY,
    ensures
        r == round_sum(
            signed_value(big_negative, big) + signed_value(small_negative, small),
            big_negative && small_negative,
        ),
{
    let (sa, qa) = split(big);
    let (sb, qb) = split(small);
    let same = big_negative == small_negative;
    proof {
        lemma_units_smallest();
        lemma_pow2_values();
        lemma2_to64();
        if small < big {
            lemma_units_increase(small, big);
        }
        if 0 < big {
            lemma_units_increase(0, big);
        }
        if 0 < small {
            lemma_units_increase(0, small);
        }
    }
    if same && big == 0 {
        return if big_negative {
            SIGN
        } else {
            0
        };
    }
    if !same && big == small {
        return 0;
    }
    let d: i32 = qa - qb;
    let ghost ua = units(big);
    let ghost ub = units(small);
    let ghost num: nat = if same {
        ua + ub
    } else {
        (ua - ub) as nat
    };
    let ghost pqa = pow2(qa as nat) as int;
    let ghost pqb = pow2(qb as nat) as int;
    proof {
        lemma_pow2_pos(qa as nat);
        lemma_pow2_pos(qb as nat);
        assert(num > 0);
    }
    if d <= 60 {
        let pd = power_of_two(d as u32);
        proof {
            lemma_pow2_adds(d as nat, qb as nat);
            lemma2_to64_rest();
            if d < 60 {
                lemma_pow2_strictly_increases(d as nat, 60);
            }
            assert(sa * pd < 0x2_0000_0000_0000_0000_0000_0000_0000) by (nonlinear_arith)
                requires
                    sa < 0x20_0000_0000_0000,
                    pd <= 0x1000_0000_0000_0000,
            ;
            assert(ua == (sa * pd) * pqb) by (nonlinear_arith)
                requires
                    ua == sa * pqa,
                    pqa == pd * pqb,
            ;
            if !same {
                lemma_mul_strict_inequality_converse(sb as int, sa * pd, pqb);
            }
        }
        let wide: u128 = (sa as u128) * pd;
        let m: u128 = if same {
            wide + sb as u128
        } else {
            wide - sb as u128
        };
        proof {
            assert(m * pqb == num) by (nonlinear_arith)
                requires
                    ua == wide * pqb,
                    ub == sb * pqb,
                    same ==> m == wide + sb && num == ua + ub,
                    !same ==> m == wide - sb && num == ua - ub,
            ;
            assert(num * pow2(0) == m * pqb * 1) by (nonlinear_arith)
                requires
                    m * pqb == num,
                    pow2(0) == 1,
            ;
        }
        encode(big_negative, m, qb, false, Ghost(qb as nat), Ghost(0), Ghost(num), Ghost(1))
    } else {
        // the small term lies below a quarter of the gap of the large one
        let sticky = sb != 0;
        let m: u128 = if same || !sticky {
            4 * (sa as u128)
        } else {
            4 * (sa as u128) - 1
        };
        let ghost p = pow2((qa - 2) as nat) as int;
        proof {
            lemma_pow2_pos((qa - 2) as nat);
            lemma_pow2_adds(2, (qa - 2) as nat);
            lemma_pow2_adds(53, qb as nat);
            if 53 + qb < qa - 2 {
                lemma_pow2_strictly_increases((53 + qb) as nat, (qa - 2) as nat);
            }
            lemma_mul_strict_inequality(sb as int, pow2(53) as int, pqb);
            assert(ub < p);
            assert(ua == (4 * sa) * p) by (nonlinear_arith)
                requires
                    ua == sa * pqa,
                    pqa == 4 * p,
            ;
            assert(!sticky ==> ub == 0) by (nonlinear_arith)
                requires
                    ub == sb * pqb,
                    sticky == (sb != 0),
            ;
            let low = m * p * 1;
            assert(low == m * p) by (nonlinear_arith)
                requires
                    low == m * p * 1,
            ;
            assert(m * p == (4 * sa) * p - (4 * sa - m) * p) by (nonlinear_arith);
            assert((4 * sa - m) * p == if same || !sticky {
                0
            } else {
                p
            }) by (nonlinear_arith)
                requires
                    same || !sticky ==> m == 4 * sa,
                    !(same || !sticky) ==> m == 4 * sa - 1,
            ;
            assert(num * pow2(0) == num) by (nonlinear_arith)
                requires
                    pow2(0) == 1,
            ;
            assert(p * 1 == p);
            assert(bracket(m as nat, (qa - 2) as nat, 0, sticky, num, 1));
        }
        encode(
            big_negative,
            m,
            qa - 2,
            sticky,
            Ghost((qa - 2) as nat),
            Ghost(0),
            Ghost(num),
            Ghost(1),
        )
    }
}

/// Adds two binary64 numbers.
pub fn add(a: u64, b: u64) -> (r: u64)
    ensures
        r == add_spec(a, b),
{
    let ka = magnitude_of(a);
    let kb = magnitude_of(b);
    if ka > INFINITY || kb > INFINITY {
        return NAN;
    }
    if ka == INFINITY {
        if kb == INFINITY && a != b {
            return NAN;
        }
        return a;
    }
    if kb == INFINITY {
        return b;
    }
    if ka >= kb {
        add_ordered(a >= SIGN, ka, b >= SIGN, kb)
    } else {
        add_ordered(b >= SIGN, kb, a >= SIGN, ka)
    }
}

/// The same number with the opposite sign.
pub fn negate(b: u64) -> (r: u64)
    ensures
        r == negated(b),
{
    if b >= SIGN {
        b - SIGN
    } else {
        b + SIGN
    }
}

/// Subtracts the second binary64 number from the first.
pub fn sub(a: u64, b: u64) -> (r: u64)
    ensures
        r == sub_spec(a, b),
{
    self::add(a, negate(b))
}

} // verus!
