//! The fields of a pattern, and the small tools that the arithmetic shares.
use crate::binary64::model::{magnitude, significand, step, units, with_sign, HIDDEN, SIGN};
use vstd::arithmetic::div_mod::*;
use vstd::arithmetic::power2::*;
use vstd::prelude::*;

verus! {

/// The powers of two that the bounds of the arithmetic are written with.
pub(crate) proof fn lemma_pow2_values()
    ensures
        pow2(52) == 0x10_0000_0000_0000,
        pow2(53) == 0x20_0000_0000_0000,
        pow2(126) == 0x4000_0000_0000_0000_0000_0000_0000_0000,
        pow2(127) == 0x8000_0000_0000_0000_0000_0000_0000_0000,
        pow2(128) == 0x1_0000_0000_0000_0000_0000_0000_0000_0000,
{
    lemma2_to64();
    lemma2_to64_rest();
    lemma_pow2_adds(62, 64);
    lemma_pow2_adds(63, 64);
    lemma_pow2_adds(64, 64);
}

/// The pattern without its sign bit.
pub(crate) fn magnitude_of(b: u64) -> (k: u64)
    ensures
        k == magnitude(b),
        k < SIGN,
{
    if b >= SIGN {
        b - SIGN
    } else {
        b
    }
}

/// The significand of a magnitude and the exponent of its gap.
pub(crate) fn split(k: u64) -> (r: (u64, i32))
    requires
        k < SIGN,
    ensures
        r.0 == significand(k),
        r.1 == step(k),
        r.0 < 2 * HIDDEN,
        0 <= r.1 <= 2046,
        r.1 > 0 ==> r.0 >= HIDDEN,
        units(k) == r.0 * pow2(r.1 as nat),
{
    let e = k / HIDDEN;
    let f = k % HIDDEN;
    if e == 0 {
        (f, 0)
    } else {
        (HIDDEN + f, (e - 1) as i32)
    }
}

/// Puts a sign in front of a magnitude.
pub(crate) fn signed(negative: bool, k: u64) -> (r: u64)
    ensures
        r == with_sign(negative, k),
{
    if negative && k < SIGN {
        k + SIGN
    } else {
        k
    }
}

/// Two to the power `k`.
pub(crate) fn power_of_two(k: u32) -> (p: u128)
    requires
        k < 128,
    ensures
        p == pow2(k as nat),
{
    let mut p: u128 = 1;
    let mut i: u32 = 0;
    proof {
        lemma2_to64();
    }
    while i < k
        invariant
            i <= k,
            k < 128,
            p == pow2(i as nat),
        decreases k - i,
    {
        proof {
            lemma_pow2_values();
            lemma_pow2_unfold((i + 1) as nat);
            if i + 1 < 127 {
                lemma_pow2_strictly_increases((i + 1) as nat, 127);
            }
        }
        p = p * 2;
        i = i + 1;
    }
    p
}

/// The number of bits that `m` takes: zero for zero, else one more than the
/// position of its leading bit.
pub(crate) fn bit_length(m: u128) -> (len: u32)
    ensures
        len <= 128,
        m < pow2(len as nat),
        len > 0 ==> pow2((len - 1) as nat) <= m,
{
    let mut len: u32 = 0;
    let mut rest: u128 = m;
    proof {
        lemma2_to64();
    }
    while rest > 0
        invariant
            len <= 128,
            rest == (m as nat) / pow2(len as nat),
            len > 0 ==> pow2((len - 1) as nat) <= m,
        decreases rest,
    {
        proof {
            let p = pow2(len as nat) as int;
            lemma_pow2_pos(len as nat);
            lemma_pow2_values();
            assert(m >= p) by (nonlinear_arith)
                requires
                    (m as int) / p >= 1,
                    p > 0,
            ;
            if len >= 128 {
                if len > 128 {
                    lemma_pow2_strictly_increases(128, len as nat);
                }
            }
            lemma_pow2_unfold((len + 1) as nat);
            lemma_div_denominator(m as int, p, 2);
            assert(p * 2 == 2 * p);
        }
        rest = rest / 2;
        len = len + 1;
    }
    proof {
        let p = pow2(len as nat) as int;
        lemma_pow2_pos(len as nat);
        assert(m < p) by (nonlinear_arith)
            requires
                (m as int) / p == 0,
                p > 0,
                m >= 0,
        ;
    }
    len
}

} // verus!
