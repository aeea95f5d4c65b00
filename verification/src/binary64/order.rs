//! The total order of binary64 patterns: negative numbers below positive ones,
//! negative zero below positive zero, and each not-a-number beyond the
//! infinity of its sign.
use crate::binary64::model::{
    is_finite, is_nan, lemma_units_increase, magnitude, signed_units, INFINITY, SIGN,
};
use std::cmp::Ordering;
use vstd::prelude::*;

verus! {

/// The place of a pattern in the total order.
pub open spec fn order_key(b: u64) -> int {
    if b >= SIGN {
        SIGN - 1 - b
    } else {
        b + 0
    }
}

/// How two patterns compare in the total order.
pub open spec fn total_cmp_spec(a: u64, b: u64) -> Ordering {
    if order_key(a) < order_key(b) {
        Ordering::Less
    } else if order_key(a) == order_key(b) {
        Ordering::Equal
    } else {
        Ordering::Greater
    }
}

/// Compares two patterns in the total order.
pub fn total_cmp(a: u64, b: u64) -> (r: Ordering)
    ensures
        r == total_cmp_spec(a, b),
{
    let (low, high) = if a >= SIGN {
        if b >= SIGN {
            (b, a)
        } else {
            return Ordering::Less;
        }
    } else {
        if b >= SIGN {
            return Ordering::Greater;
        } else {
            (a, b)
        }
    };
    if low < high {
        Ordering::Less
    } else if low == high {
        Ordering::Equal
    } else {
        Ordering::Greater
    }
}

/// Whether the first number is greater than the second, as numbers are: zero
/// has one value whatever its sign, and not-a-number is greater than nothing
/// and nothing is greater than it.
pub open spec fn greater_spec(a: u64, b: u64) -> bool {
    !is_nan(a) && !is_nan(b) && signed_units(a) > signed_units(b)
}

/// Whether the first number is greater than the second.
pub fn greater(a: u64, b: u64) -> (r: bool)
    ensures
        r == greater_spec(a, b),
{
    let (ka, kb) = if a >= SIGN {
        (a - SIGN, if b >= SIGN {
            b - SIGN
        } else {
            b
        })
    } else {
        (a, if b >= SIGN {
            b - SIGN
        } else {
            b
        })
    };
    if ka > INFINITY || kb > INFINITY {
        return false;
    }
    proof {
        if ka < kb {
            lemma_units_increase(ka, kb);
        }
        if kb < ka {
            lemma_units_increase(kb, ka);
        }
        if 0 < ka {
            lemma_units_increase(0, ka);
        }
        if 0 < kb {
            lemma_units_increase(0, kb);
        }
        crate::binary64::model::lemma_units_smallest();
    }
    if a >= SIGN {
        b >= SIGN && ka < kb
    } else {
        if b >= SIGN {
            ka > 0 || kb > 0
        } else {
            ka > kb
        }
    }
}

/// Two patterns are equal in the total order exactly when they are the same
/// pattern.
pub proof fn lemma_total_cmp_equal(a: u64, b: u64)
    ensures
        total_cmp_spec(a, b) == Ordering::Equal <==> a == b,
{
}

/// Swapping the two sides reverses the order.
pub proof fn lemma_total_cmp_reverse(a: u64, b: u64)
    ensures
        total_cmp_spec(a, b) == Ordering::Less <==> total_cmp_spec(b, a) == Ordering::Greater,
{
}

/// The order is transitive.
pub proof fn lemma_total_cmp_transitive(a: u64, b: u64, c: u64)
    requires
        total_cmp_spec(a, b) != Ordering::Greater,
        total_cmp_spec(b, c) != Ordering::Greater,
    ensures
        total_cmp_spec(a, c) != Ordering::Greater,
{
}

/// Among finite numbers the total order is the order of their values, with
/// negative zero below positive zero.
pub proof fn lemma_total_cmp_values(a: u64, b: u64)
    requires
        is_finite(a),
        is_finite(b),
    ensures
        signed_units(a) < signed_units(b) ==> total_cmp_spec(a, b) == Ordering::Less,
        total_cmp_spec(a, b) == Ordering::Less ==> signed_units(a) <= signed_units(b),
{
    let ka = magnitude(a);
    let kb = magnitude(b);
    if ka < kb {
        lemma_units_increase(ka, kb);
    }
    if kb < ka {
        lemma_units_increase(kb, ka);
    }
}

} // verus!
