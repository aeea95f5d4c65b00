//! From an integer, a binary exponent and a flag to the rounded bit pattern.
use crate::binary64::fields::{bit_length, lemma_pow2_values, power_of_two, signed};
use crate::binary64::model::{
    lemma_units_increase, lemma_units_packed, lemma_units_smallest, units, with_sign, HIDDEN,
    INFINITY, MAX_STEP,
};
use crate::binary64::rounding::{
    bracket, lemma_bracket_rescale, lemma_round_cut, lemma_round_exact, lemma_round_is,
    lemma_round_zero, round_units,
};
use vstd::arithmetic::div_mod::*;
use vstd::arithmetic::mul::*;
use vstd::arithmetic::power2::*;
use vstd::prelude::*;

verus! {

/// The largest integer that `encode` takes, plus one: two to the 126th.
pub(crate) const ENCODE_LIMIT: u128 = 0x4000_0000_0000_0000_0000_0000_0000_0000;

/// A bracketed number that lies below a quarter of the smallest subnormal
/// rounds to zero.
proof fn lemma_round_tiny(m: nat, s: nat, sticky: bool, num: nat, den: nat)
    requires
        den > 0,
        bracket(m, 0, s, sticky, num, den),
        m < pow2(126),
        s >= 128,
    ensures
        round_units(num, den) == 0,
{
    lemma2_to64();
    lemma_pow2_values();
    if s > 128 {
        lemma_pow2_strictly_increases(128, s);
    }
    let b = pow2(s) as int;
    let mn = m as int;
    assert(m * pow2(0) * den == mn * den) by (nonlinear_arith)
        requires
            pow2(0) == 1,
            mn == m,
    ;
    assert(pow2(0) * den == den) by (nonlinear_arith)
        requires
            pow2(0) == 1,
    ;
    assert(num * b < mn * den + den);
    assert(2 * num < den) by (nonlinear_arith)
        requires
            num * b < mn * den + den,
            b >= 4 * (mn + 1),
            mn >= 0,
            den > 0,
            num >= 0,
    ;
    lemma_units_smallest();
    assert((units(0) + units(1)) * den == den) by (nonlinear_arith)
        requires
            units(0) == 0,
            units(1) == 1,
    ;
    lemma_round_is(num, den, 0);
}

/// A bracketed number that reaches two to the 1024th rounds to infinity.
proof fn lemma_round_huge(m: nat, e: nat, len: nat, sticky: bool, num: nat, den: nat)
    requires
        den > 0,
        bracket(m, e, 0, sticky, num, den),
        len >= 1,
        pow2((len - 1) as nat) <= m,
        len + e - 53 > MAX_STEP,
    ensures
        round_units(num, den) == INFINITY,
{
    lemma2_to64();
    lemma_pow2_values();
    let top = units(INFINITY);
    assert(INFINITY / HIDDEN == 2047 && INFINITY % HIDDEN == 0);
    assert(top == HIDDEN * pow2(2046));
    lemma_pow2_adds(52, 2046);
    assert(top == pow2(2098));
    let reach = (len - 1 + e) as nat;
    lemma_pow2_adds((len - 1) as nat, e);
    if reach > 2098 {
        lemma_pow2_strictly_increases(2098, reach);
    }
    let pe = pow2(e) as int;
    let pl = pow2((len - 1) as nat) as int;
    lemma_pow2_pos(e);
    lemma_mul_inequality(pl, m as int, pe);
    assert(m * pe >= top);
    lemma_mul_inequality(top as int, m * pe, den as int);
    assert(num * pow2(0) == num) by (nonlinear_arith)
        requires
            pow2(0) == 1,
    ;
    assert(num >= top * den);
    lemma_units_increase((INFINITY - 1) as u64, INFINITY);
    let under = units((INFINITY - 1) as u64);
    lemma_mul_strict_inequality((under + top) as int, (top + top) as int, den as int);
    assert((top + top) * den == 2 * (top * den)) by (nonlinear_arith);
    lemma_round_is(num, den, INFINITY);
}

/// Rounds a number to the nearest binary64 pattern.
///
/// The number is given by an integer `m`, a binary exponent `e` counted in
/// units of 2^-1074, and a flag: it is `m * 2^e` without the flag, and
/// strictly between that and `(m + 1) * 2^e` with it. With the flag, `m` has
/// to be long enough for the flag to stay below the rounding position.
pub(crate) fn encode(
    negative: bool,
    m: u128,
    e: i32,
    sticky: bool,
    Ghost(u): Ghost<nat>,
    Ghost(v): Ghost<nat>,
    Ghost(num): Ghost<nat>,
    Ghost(den): Ghost<nat>,
) -> (r: u64)
    requires
        m < ENCODE_LIMIT,
        -8192 <= e <= 8192,
        e == u - v,
        den > 0,
        bracket(m as nat, u, v, sticky, num, den),
        sticky ==> m >= 2 * HIDDEN,
    ensures
        r == with_sign(negative, round_units(num, den)),
{
    proof {
        lemma_pow2_values();
        lemma2_to64();
    }
    if m == 0 {
        proof {
            lemma_pow2_pos(v);
            assert(0 * pow2(u) * den == 0) by (nonlinear_arith);
            assert(num == 0) by (nonlinear_arith)
                requires
                    num * pow2(v) == 0,
                    pow2(v) > 0,
            ;
            lemma_round_zero(den);
        }
        return signed(negative, 0);
    }
    let len = bit_length(m);
    proof {
        if len > 126 {
            lemma_pow2_strictly_increases(126, (len - 1) as nat);
        }
        if sticky && len < 53 {
            lemma_pow2_strictly_increases(len as nat, 53);
        }
        assert(sticky ==> len >= 54);
    }
    let t: i32 = len as i32 + e - 53;
    let q: i32 = if t > 0 {
        t
    } else {
        0
    };
    if q > 2045 {
        proof {
            lemma_bracket_rescale(m as nat, u, v, sticky, num, den, e as nat, 0);
            lemma_round_huge(m as nat, e as nat, len as nat, sticky, num, den);
        }
        return signed(negative, INFINITY);
    }
    let s: i32 = q - e;
    let k: u64;
    if s <= 0 {
        let z: u32 = (0 - s) as u32;
        let scale = power_of_two(z);
        proof {
            // m * 2^z stays below two to the 53rd
            lemma_pow2_pos(z as nat);
            lemma_pow2_adds(len as nat, z as nat);
            if len + z < 53 {
                lemma_pow2_strictly_increases((len + z) as nat, 53);
            }
            lemma_mul_strict_inequality(m as int, pow2(len as nat) as int, scale as int);
            if q > 0 {
                lemma_pow2_adds((len - 1) as nat, z as nat);
                lemma_mul_inequality(pow2((len - 1) as nat) as int, m as int, scale as int);
            }
        }
        let n: u128 = m * scale;
        k = (q as u64) * HIDDEN + (n as u64);
        proof {
            lemma_units_packed(q as nat, n as nat);
            lemma_bracket_rescale(m as nat, u, v, sticky, num, den, e as nat, 0);
            lemma_pow2_adds(z as nat, q as nat);
            assert(num * pow2(0) == num) by (nonlinear_arith)
                requires
                    pow2(0) == 1,
            ;
            assert(m * pow2(e as nat) * den == (n * pow2(q as nat)) * den) by (nonlinear_arith)
                requires
                    n == m * pow2(z as nat),
                    pow2(e as nat) == pow2(z as nat) * pow2(q as nat),
            ;
            lemma_round_exact(k, den);
        }
    } else if s >= 128 {
        proof {
            lemma_bracket_rescale(m as nat, u, v, sticky, num, den, 0, s as nat);
            lemma_round_tiny(m as nat, s as nat, sticky, num, den);
        }
        k = 0;
    } else {
        let b = power_of_two(s as u32);
        proof {
            lemma_pow2_pos(s as nat);
        }
        let n: u128 = m / b;
        let rem: u128 = m % b;
        let half: u128 = b / 2;
        proof {
            lemma_pow2_pos(s as nat);
            lemma_pow2_unfold(s as nat);
            lemma_fundamental_div_mod(m as int, b as int);
            assert(m == n * b + rem) by (nonlinear_arith)
                requires
                    m == b * n + rem,
            ;
            // the quotient keeps at most 53 bits, and all 53 above the
            // subnormal range
            lemma_pow2_adds(s as nat, 53);
            if len < s + 53 {
                lemma_pow2_strictly_increases(len as nat, (s + 53) as nat);
            }
            assert(n < 2 * HIDDEN) by (nonlinear_arith)
                requires
                    m == n * b + rem,
                    rem >= 0,
                    m < b * 0x20_0000_0000_0000,
                    b > 0,
            ;
            if q > 0 {
                lemma_pow2_adds(s as nat, 52);
                assert(n >= HIDDEN) by (nonlinear_arith)
                    requires
                        m == n * b + rem,
                        rem < b,
                        m >= b * 0x10_0000_0000_0000,
                        b > 0,
                ;
            }
            lemma_bracket_rescale(m as nat, u, v, sticky, num, den, q as nat, s as nat);
            lemma_round_cut(
                m as nat,
                q as nat,
                s as nat,
                sticky,
                num,
                den,
                n as nat,
                rem as nat,
            );
            lemma_units_packed(q as nat, n as nat);
        }
        let up = rem > half || (rem == half && (sticky || n % 2 == 1));
        let k0: u64 = (q as u64) * HIDDEN + (n as u64);
        k = if up {
            k0 + 1
        } else {
            k0
        };
        proof {
            lemma_round_is(num, den, k);
        }
    }
    signed(negative, k)
}

} // verus!
