//! The meaning of a binary64 bit pattern.
//!
//! Every finite binary64 number is a whole multiple of 2^-1074, the smallest
//! subnormal. The model measures magnitudes in that unit, which keeps all of
//! the mathematics in the natural numbers.
use vstd::arithmetic::power2::*;
use vstd::prelude::*;

verus! {

/// The sign bit.
pub const SIGN: u64 = 0x8000_0000_0000_0000;

/// Positive infinity.
pub const INFINITY: u64 = 0x7FF0_0000_0000_0000;

/// The quiet not-a-number that every invalid operation returns.
pub const NAN: u64 = 0x7FF8_0000_0000_0000;

/// Two to the 52nd: the weight of the implicit leading bit of a significand.
pub const HIDDEN: u64 = 0x0010_0000_0000_0000;

/// The largest `step` of a finite number: the gap below infinity is two to
/// this power, in units of 2^-1074.
pub const MAX_STEP: u64 = 2045;

/// The pattern without its sign bit.
pub open spec fn magnitude(b: u64) -> u64 {
    if b >= SIGN {
        (b - SIGN) as u64
    } else {
        b
    }
}

/// Whether the sign bit is set. Zero and not-a-number have a sign too.
pub open spec fn is_negative(b: u64) -> bool {
    b >= SIGN
}

/// Whether the pattern is not a number.
pub open spec fn is_nan(b: u64) -> bool {
    magnitude(b) > INFINITY
}

/// Whether the pattern is an infinity.
pub open spec fn is_infinite(b: u64) -> bool {
    magnitude(b) == INFINITY
}

/// Whether the pattern is a number other than an infinity.
pub open spec fn is_finite(b: u64) -> bool {
    magnitude(b) < INFINITY
}

/// Whether the pattern is a zero of either sign.
pub open spec fn is_zero(b: u64) -> bool {
    magnitude(b) == 0
}

/// A magnitude with a sign put in front of it.
pub open spec fn with_sign(negative: bool, k: u64) -> u64 {
    if negative && k < SIGN {
        (k + SIGN) as u64
    } else {
        k
    }
}

/// The same number with the opposite sign.
pub open spec fn negated(b: u64) -> u64 {
    if b >= SIGN {
        (b - SIGN) as u64
    } else {
        (b + SIGN) as u64
    }
}

/// The integer significand of a magnitude: the fraction bits, with the
/// implicit leading bit where the number is normal.
pub open spec fn significand(k: u64) -> nat {
    if k / HIDDEN == 0 {
        (k % HIDDEN) as nat
    } else {
        (HIDDEN + k % HIDDEN) as nat
    }
}

/// The binary logarithm of the gap between a magnitude and the next one,
/// measured in units of 2^-1074.
pub open spec fn step(k: u64) -> nat {
    if k / HIDDEN == 0 {
        0
    } else {
        (k / HIDDEN - 1) as nat
    }
}

/// The value of a magnitude in units of 2^-1074. Infinity counts as 2^1024,
/// one gap above the largest finite number.
pub open spec fn units(k: u64) -> nat {
    significand(k) * pow2(step(k))
}

/// The value of a pattern in units of 2^-1074, with its sign.
pub open spec fn signed_units(b: u64) -> int {
    if is_negative(b) {
        -(units(magnitude(b)) as int)
    } else {
        units(magnitude(b)) as int
    }
}

/// What the two smallest magnitudes stand for.
pub proof fn lemma_units_smallest()
    ensures
        units(0) == 0,
        units(1) == 1,
{
    lemma2_to64();
    assert(significand(0) == 0 && step(0) == 0);
    assert(significand(1) == 1 && step(1) == 0);
    assert(0 * pow2(0) == 0 && 1 * pow2(0) == 1) by (nonlinear_arith)
        requires
            pow2(0) == 1,
    ;
}

/// The next magnitude lies one gap further out.
pub proof fn lemma_units_next(k: u64)
    requires
        k < INFINITY,
    ensures
        units((k + 1) as u64) == units(k) + pow2(step(k)),
{
    let e = k / HIDDEN;
    let f = k % HIDDEN;
    let p = pow2(step(k));
    let s = significand(k);
    if f + 1 < HIDDEN {
        assert((k + 1) / (HIDDEN as int) == e);
        assert((k + 1) % (HIDDEN as int) == f + 1);
        assert((s + 1) * p == s * p + p) by (nonlinear_arith);
    } else {
        assert((k + 1) / (HIDDEN as int) == e + 1);
        assert((k + 1) % (HIDDEN as int) == 0);
        if e == 0 {
            lemma2_to64();
            assert(s * 1 + 1 == (s + 1) * 1);
        } else {
            lemma_pow2_unfold(e as nat);
            let h = HIDDEN as nat;
            assert(h * (2 * p) == (h + (h - 1)) * p + p) by (nonlinear_arith);
        }
    }
}

/// A larger magnitude stands for a larger value.
pub proof fn lemma_units_increase(k1: u64, k2: u64)
    requires
        k1 < k2 <= INFINITY,
    ensures
        units(k1) < units(k2),
    decreases k2 - k1,
{
    let below = (k2 - 1) as u64;
    lemma_units_next(below);
    lemma_pow2_pos(step(below));
    if k1 < below {
        lemma_units_increase(k1, below);
    }
}

/// The magnitude whose significand is `n` and whose gap is `2^q`.
pub open spec fn packed(q: nat, n: nat) -> nat {
    (q * HIDDEN + n) as nat
}

/// What `packed` stands for.
pub proof fn lemma_units_packed(q: nat, n: nat)
    requires
        n < 2 * HIDDEN,
        q == 0 || n >= HIDDEN,
        q <= MAX_STEP,
    ensures
        packed(q, n) < INFINITY,
        units(packed(q, n) as u64) == n * pow2(q),
        step(packed(q, n) as u64) == q,
        significand(packed(q, n) as u64) == n,
        packed(q, n) % 2 == n % 2,
{
    let k = packed(q, n);
    let h = HIDDEN as int;
    assert(q * h + n == k);
    if n < HIDDEN {
        assert(k == n);
    } else {
        assert(k == (q + 1) * h + (n - h)) by (nonlinear_arith)
            requires
                k == q * h + n,
        ;
        assert((k as int) / h == q + 1 && (k as int) % h == n - h) by (nonlinear_arith)
            requires
                k == (q + 1) * h + (n - h),
                0 <= n - h < h,
                h > 0,
        ;
    }
    assert(q * h == 2 * (q * 0x8_0000_0000_0000)) by (nonlinear_arith)
        requires
            h == 0x10_0000_0000_0000,
    ;
}

} // verus!
