//! Integers as binary64 numbers.
use crate::binary64::encode::{encode, ENCODE_LIMIT};
use crate::binary64::fields::{lemma_pow2_values, magnitude_of, power_of_two, split};
use crate::binary64::model::{is_nan, is_negative, magnitude, units, with_sign, INFINITY, SIGN};
use crate::binary64::rounding::nearest_to;
use vstd::arithmetic::div_mod::*;
use vstd::arithmetic::mul::*;
use vstd::arithmetic::power2::*;
use vstd::prelude::*;

verus! {

/// The binary64 number nearest to an integer.
pub open spec fn from_int_spec(n: int) -> u64 {
    if n < 0 {
        with_sign(true, nearest_to((-n) as nat, 1))
    } else {
        with_sign(false, nearest_to(n as nat, 1))
    }
}

/// The binary64 number nearest to `sign * n`.
fn from_parts(negative: bool, n: u128) -> (r: u64)
    ensures
        r == with_sign(negative, nearest_to(n as nat, 1)),
{
    let ghost p = pow2(1074) as int;
    let ghost num: nat = (n * pow2(1074)) as nat;
    proof {
        lemma2_to64();
        lemma_pow2_pos(1074);
    }
    if n < ENCODE_LIMIT {
        proof {
            assert(num * pow2(0) == n * pow2(1074) * 1) by (nonlinear_arith)
                requires
                    num == n * pow2(1074),
                    pow2(0) == 1,
            ;
        }
        encode(negative, n, 1074, false, Ghost(1074), Ghost(0), Ghost(num), Ghost(1))
    } else {
        let m = n / 4;
        let rest = n % 4;
        proof {
            lemma_pow2_values();
            lemma_pow2_adds(2, 1074);
            let wide = pow2(1076) as int;
            assert(wide == 4 * p);
            assert(m * wide * 1 == (4 * m) * p) by (nonlinear_arith)
                requires
                    wide == 4 * p,
            ;
            assert(num * pow2(0) == (4 * m) * p + rest * p) by (nonlinear_arith)
                requires
                    num == n * p,
                    n == 4 * m + rest,
                    pow2(0) == 1,
            ;
            assert(wide * 1 == 4 * p);
            assert(rest != 0 ==> 0 < rest * p < 4 * p) by (nonlinear_arith)
                requires
                    0 <= rest < 4,
                    p > 0,
            ;
            assert(rest == 0 ==> rest * p == 0) by (nonlinear_arith);
        }
        encode(negative, m, 1076, rest != 0, Ghost(1076), Ghost(0), Ghost(num), Ghost(1))
    }
}

/// The binary64 number nearest to an unsigned integer.
pub fn from_u128(n: u128) -> (r: u64)
    ensures
        r == from_int_spec(n as int),
{
    from_parts(false, n)
}

/// The binary64 number nearest to a signed integer.
pub fn from_i128(n: i128) -> (r: u64)
    ensures
        r == from_int_spec(n as int),
{
    if n < 0 {
        let size: u128 = (-(n + 1)) as u128 + 1;
        from_parts(true, size)
    } else {
        from_parts(false, n as u128)
    }
}

/// The whole part of what a magnitude stands for.
pub open spec fn whole_part(k: u64) -> nat {
    units(k) / pow2(1074)
}

/// The signed integer that a binary64 number is cut to: its whole part with
/// its sign, the nearest bound where that lies outside the range of `i128`,
/// and zero for not-a-number.
pub open spec fn to_i128_spec(b: u64) -> i128 {
    let whole = whole_part(magnitude(b));
    if is_nan(b) {
        0
    } else if is_negative(b) {
        if whole > -i128::MIN {
            i128::MIN
        } else {
            (-whole) as i128
        }
    } else {
        if whole > i128::MAX {
            i128::MAX
        } else {
            whole as i128
        }
    }
}

/// The unsigned integer that a binary64 number is cut to: its whole part,
/// the largest `u128` where that is too large, zero for a negative number and
/// for not-a-number.
pub open spec fn to_u128_spec(b: u64) -> u128 {
    let whole = whole_part(magnitude(b));
    if is_nan(b) || is_negative(b) {
        0
    } else if whole > u128::MAX {
        u128::MAX
    } else {
        whole as u128
    }
}

/// A signed integer kept within two bounds: the lower bound where it lies
/// below that, else the upper bound where it lies above that.
pub open spec fn clamped(n: i128, lowest: i128, highest: i128) -> i128 {
    if n < lowest {
        lowest
    } else if n > highest {
        highest
    } else {
        n
    }
}

/// The whole part of a magnitude, where it is below two to the 128th.
fn whole_of(k: u64) -> (r: Option<u128>)
    requires
        k <= INFINITY,
    ensures
        match r {
            Some(n) => n == whole_part(k),
            None => whole_part(k) > u128::MAX,
        },
{
    let (sig, q) = split(k);
    let ghost unit = pow2(1074) as int;
    let ghost gap = pow2(q as nat) as int;
    proof {
        lemma_pow2_values();
        lemma2_to64();
        lemma2_to64_rest();
        lemma_pow2_pos(1074);
        lemma_pow2_pos(q as nat);
    }
    if q >= 1074 {
        let z: i32 = q - 1074;
        proof {
            lemma_pow2_adds(z as nat, 1074);
            lemma_pow2_pos(z as nat);
            assert(sig * gap == (sig * pow2(z as nat)) * unit) by (nonlinear_arith)
                requires
                    gap == pow2(z as nat) * unit,
            ;
            lemma_div_by_multiple(sig * pow2(z as nat), unit);
        }
        if z >= 76 {
            proof {
                lemma_pow2_adds(52, 76);
                if z > 76 {
                    lemma_pow2_strictly_increases(76, z as nat);
                }
                lemma_mul_inequality(pow2(76) as int, pow2(z as nat) as int, sig as int);
                lemma_mul_inequality(
                    0x10_0000_0000_0000,
                    sig as int,
                    pow2(76) as int,
                );
                assert(sig * pow2(z as nat) >= pow2(128)) by (nonlinear_arith)
                    requires
                        pow2(76) * sig <= pow2(z as nat) * sig,
                        0x10_0000_0000_0000 * pow2(76) <= sig * pow2(76),
                        pow2(128) == 0x10_0000_0000_0000 * pow2(76),
                ;
            }
            None
        } else {
            let scale = power_of_two(z as u32);
            proof {
                lemma_pow2_adds(53, 75);
                if z < 75 {
                    lemma_pow2_strictly_increases(z as nat, 75);
                }
                let top = pow2(75) as int;
                lemma_pow2_pos(75);
                lemma_mul_inequality(scale as int, top, sig as int);
                lemma_mul_strict_inequality(sig as int, 0x20_0000_0000_0000, top);
                assert(sig * scale == scale * sig) by (nonlinear_arith);
                assert(sig * scale < pow2(128));
            }
            Some((sig as u128) * scale)
        }
    } else {
        let z: i32 = 1074 - q;
        proof {
            lemma_pow2_adds(q as nat, z as nat);
            lemma_pow2_pos(z as nat);
            lemma_div_by_multiple(sig as int, gap);
            assert(sig * gap == gap * sig) by (nonlinear_arith);
            lemma_div_denominator(sig * gap, gap, pow2(z as nat) as int);
        }
        if z >= 53 {
            proof {
                if z > 53 {
                    lemma_pow2_strictly_increases(53, z as nat);
                }
                lemma_basic_div(sig as int, pow2(z as nat) as int);
            }
            Some(0)
        } else {
            let scale = power_of_two(z as u32);
            Some((sig as u128) / scale)
        }
    }
}

/// Cuts a binary64 number to a signed integer, as a cast does.
pub fn to_i128(b: u64) -> (r: i128)
    ensures
        r == to_i128_spec(b),
{
    let k = magnitude_of(b);
    if k > INFINITY {
        return 0;
    }
    let negative = b >= SIGN;
    match whole_of(k) {
        None => if negative {
            i128::MIN
        } else {
            i128::MAX
        },
        Some(n) => if negative {
            if n > 0x8000_0000_0000_0000_0000_0000_0000_0000 {
                i128::MIN
            } else if n == 0 {
                0
            } else {
                -((n - 1) as i128) - 1
            }
        } else {
            if n > 0x7FFF_FFFF_FFFF_FFFF_FFFF_FFFF_FFFF_FFFF {
                i128::MAX
            } else {
                n as i128
            }
        },
    }
}

/// Cuts a binary64 number to an unsigned integer, as a cast does.
pub fn to_u128(b: u64) -> (r: u128)
    ensures
        r == to_u128_spec(b),
{
    let k = magnitude_of(b);
    if k > INFINITY || b >= SIGN {
        return 0;
    }
    match whole_of(k) {
        None => u128::MAX,
        Some(n) => n,
    }
}

/// Cuts a binary64 number to a signed integer within two bounds.
pub fn to_integer(b: u64, lowest: i128, highest: i128) -> (r: i128)
    ensures
        r == clamped(to_i128_spec(b), lowest, highest),
{
    let n = to_i128(b);
    if n < lowest {
        lowest
    } else if n > highest {
        highest
    } else {
        n
    }
}

} // verus!
