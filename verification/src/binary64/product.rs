//! Multiplication and division.
use crate::binary64::encode::encode;
use crate::binary64::fields::{
    bit_length, lemma_pow2_values, magnitude_of, power_of_two, signed, split,
};
use crate::binary64::model::{
    is_infinite, is_nan, is_negative, is_zero, lemma_units_increase, lemma_units_smallest,
    magnitude, significand, units, with_sign, HIDDEN, INFINITY, NAN, SIGN,
};
use crate::binary64::rounding::{bracket, round_units};
use vstd::arithmetic::div_mod::*;
use vstd::arithmetic::mul::*;
use vstd::arithmetic::power2::*;
use vstd::prelude::*;

verus! {

/// The product of two binary64 numbers: the exact product of what they stand
/// for, rounded once.
pub open spec fn mul_spec(a: u64, b: u64) -> u64 {
    let negative = is_negative(a) != is_negative(b);
    if is_nan(a) || is_nan(b) {
        NAN
    } else if is_infinite(a) || is_infinite(b) {
        if is_zero(a) || is_zero(b) {
            NAN
        } else {
            with_sign(negative, INFINITY)
        }
    } else {
        with_sign(
            negative,
            round_units(units(magnitude(a)) * units(magnitude(b)), pow2(1074)),
        )
    }
}

/// The quotient of two binary64 numbers: the exact quotient of what they stand
/// for, rounded once.
pub open spec fn div_spec(a: u64, b: u64) -> u64 {
    let negative = is_negative(a) != is_negative(b);
    if is_nan(a) || is_nan(b) {
        NAN
    } else if is_infinite(a) {
        if is_infinite(b) {
            NAN
        } else {
            with_sign(negative, INFINITY)
        }
    } else if is_infinite(b) {
        with_sign(negative, 0)
    } else if is_zero(b) {
        if is_zero(a) {
            NAN
        } else {
            with_sign(negative, INFINITY)
        }
    } else {
        with_sign(
            negative,
            round_units(units(magnitude(a)) * pow2(1074), units(magnitude(b))),
        )
    }
}

/// The order of the two factors does not matter.
pub proof fn lemma_mul_commutes(a: u64, b: u64)
    ensures
        mul_spec(a, b) == mul_spec(b, a),
{
    lemma_mul_is_commutative(units(magnitude(a)) as int, units(magnitude(b)) as int);
}

/// Multiplies two binary64 numbers.
pub fn mul(a: u64, b: u64) -> (r: u64)
    ensures
        r == mul_spec(a, b),
{
    let negative = (a >= SIGN) != (b >= SIGN);
    let ka = magnitude_of(a);
    let kb = magnitude_of(b);
    if ka > INFINITY || kb > INFINITY {
        return NAN;
    }
    if ka == INFINITY || kb == INFINITY {
        if ka == 0 || kb == 0 {
            return NAN;
        }
        return signed(negative, INFINITY);
    }
    let (sa, qa) = split(ka);
    let (sb, qb) = split(kb);
    proof {
        lemma_pow2_values();
        assert(sa * sb < 0x400_0000_0000_0000_0000_0000_0000) by (nonlinear_arith)
            requires
                sa < 0x20_0000_0000_0000,
                sb < 0x20_0000_0000_0000,
        ;
    }
    let m: u128 = (sa as u128) * (sb as u128);
    let ghost u = (qa + qb) as nat;
    let ghost num = units(ka) * units(kb);
    let ghost den = pow2(1074);
    proof {
        let pa = pow2(qa as nat) as int;
        let pb = pow2(qb as nat) as int;
        let p = pow2(1074) as int;
        lemma_pow2_pos(1074);
        lemma_pow2_adds(qa as nat, qb as nat);
        assert((sa * pa) * (sb * pb) * p == (sa * sb) * (pa * pb) * p) by (nonlinear_arith);
    }
    encode(negative, m, qa + qb - 1074, false, Ghost(u), Ghost(1074), Ghost(num), Ghost(den))
}

/// How far a significand has to be shifted left for its leading bit to reach
/// position 52.
fn slack(sig: u64) -> (z: u32)
    requires
        0 < sig < 2 * HIDDEN,
    ensures
        z <= 52,
        HIDDEN <= sig * pow2(z as nat) < 2 * HIDDEN,
{
    let len = bit_length(sig as u128);
    proof {
        lemma_pow2_values();
        lemma2_to64();
        if len > 53 {
            lemma_pow2_strictly_increases(53, (len - 1) as nat);
        }
        let z = (53 - len) as nat;
        lemma_pow2_adds(len as nat, z);
        lemma_pow2_adds((len - 1) as nat, z);
        lemma_pow2_pos(z);
        lemma_mul_strict_inequality(sig as int, pow2(len as nat) as int, pow2(z) as int);
        lemma_mul_inequality(pow2((len - 1) as nat) as int, sig as int, pow2(z) as int);
    }
    53 - len
}

/// Divides one binary64 number by another.
pub fn div(a: u64, b: u64) -> (r: u64)
    ensures
        r == div_spec(a, b),
{
    let negative = (a >= SIGN) != (b >= SIGN);
    let ka = magnitude_of(a);
    let kb = magnitude_of(b);
    if ka > INFINITY || kb > INFINITY {
        return NAN;
    }
    if ka == INFINITY {
        if kb == INFINITY {
            return NAN;
        }
        return signed(negative, INFINITY);
    }
    if kb == INFINITY {
        return signed(negative, 0);
    }
    if kb == 0 {
        if ka == 0 {
            return NAN;
        }
        return signed(negative, INFINITY);
    }
    let ghost num = units(ka) * pow2(1074);
    let ghost den = units(kb);
    proof {
        lemma_units_smallest();
        lemma_units_increase(0, kb);
        lemma_pow2_values();
        lemma2_to64();
    }
    if ka == 0 {
        proof {
            assert(0 * pow2(1074) == 0) by (nonlinear_arith);
            assert(0 * pow2(0) * den == 0) by (nonlinear_arith);
            assert(num * pow2(0) == 0) by (nonlinear_arith)
                requires
                    num == 0,
            ;
        }
        return encode(negative, 0, 0, false, Ghost(0), Ghost(0), Ghost(num), Ghost(den));
    }
    let (sa, qa) = split(ka);
    let (sb, qb) = split(kb);
    proof {
        lemma_units_increase(0, ka);
        assert(sa > 0) by (nonlinear_arith)
            requires
                sa * pow2(qa as nat) > 0,
                sa >= 0,
        ;
        assert(sb > 0) by (nonlinear_arith)
            requires
                sb * pow2(qb as nat) > 0,
                sb >= 0,
        ;
    }
    let la = slack(sa);
    let lb = slack(sb);
    let pla = power_of_two(la);
    let plb = power_of_two(lb);
    let top: u128 = (sa as u128) * pla;
    let bottom: u128 = (sb as u128) * plb;
    let p55 = power_of_two(55);
    proof {
        lemma_pow2_adds(52, 3);
        assert(pow2(55) == 0x80_0000_0000_0000);
    }
    let scaled: u128 = top * p55;
    let quot: u128 = scaled / bottom;
    let rest: u128 = scaled % bottom;
    let sticky = rest != 0;
    let ghost u = (qa + lb + 1074) as nat;
    let ghost v = (qb + la + 55) as nat;
    proof {
        lemma_fundamental_div_mod(scaled as int, bottom as int);
        // the quotient has 55 or 56 bits
        assert(quot < 0x100_0000_0000_0000) by (nonlinear_arith)
            requires
                scaled == bottom * quot + rest,
                rest >= 0,
                scaled == top * 0x80_0000_0000_0000,
                top < 0x20_0000_0000_0000,
                bottom >= 0x10_0000_0000_0000,
        ;
        assert(quot >= 0x40_0000_0000_0000) by (nonlinear_arith)
            requires
                scaled == bottom * quot + rest,
                rest < bottom,
                scaled == top * 0x80_0000_0000_0000,
                top >= 0x10_0000_0000_0000,
                bottom < 0x20_0000_0000_0000,
        ;
        // both sides of the bracket share the factor g
        let pqa = pow2(qa as nat) as int;
        let pqb = pow2(qb as nat) as int;
        let p = pow2(1074) as int;
        let g = pqa * p * pqb;
        lemma_pow2_pos(qa as nat);
        lemma_pow2_pos(qb as nat);
        lemma_pow2_pos(1074);
        lemma_pow2_adds((qa + lb) as nat, 1074);
        lemma_pow2_adds(qa as nat, lb as nat);
        lemma_pow2_adds((qb + la) as nat, 55);
        lemma_pow2_adds(qb as nat, la as nat);
        assert(g > 0) by (nonlinear_arith)
            requires
                g == pqa * p * pqb,
                pqa > 0,
                p > 0,
                pqb > 0,
        ;
        let pu = pow2(u) as int;
        let pv = pow2(v) as int;
        assert(pu == pqa * plb * p);
        assert(pv == pqb * pla * p55);
        let x = num * pv;
        assert(x == scaled * g) by (nonlinear_arith)
            requires
                x == num * pv,
                num == sa * pqa * p,
                pv == pqb * pla * p55,
                scaled == sa * pla * p55,
                g == pqa * p * pqb,
        ;
        let wide = pu * den;
        assert(wide == bottom * g) by (nonlinear_arith)
            requires
                wide == pu * den,
                pu == pqa * plb * p,
                den == sb * pqb,
                bottom == sb * plb,
                g == pqa * p * pqb,
        ;
        let low = quot * pu * den;
        assert(low == quot * wide) by (nonlinear_arith)
            requires
                low == quot * pu * den,
                wide == pu * den,
        ;
        assert(x == low + rest * g) by (nonlinear_arith)
            requires
                x == scaled * g,
                scaled == bottom * quot + rest,
                low == quot * wide,
                wide == bottom * g,
        ;
        if sticky {
            lemma_mul_strict_inequality(0, rest as int, g);
            lemma_mul_strict_inequality(rest as int, bottom as int, g);
        } else {
            assert(rest * g == 0) by (nonlinear_arith)
                requires
                    rest == 0,
            ;
        }
        assert(bracket(quot as nat, u, v, sticky, num, den));
    }
    encode(
        negative,
        quot,
        qa + lb as i32 + 1074 - (qb + la as i32 + 55),
        sticky,
        Ghost(u),
        Ghost(v),
        Ghost(num),
        Ghost(den),
    )
}

} // verus!
