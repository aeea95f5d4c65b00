//! Arithmetic and comparison between a quantity and a raw number. The number
//! is taken in the quantity's own unit, and the unit is kept.
use crate::binary64::integer::{
    clamped, from_i128, from_int_spec, from_u128, to_i128_spec, to_integer, to_u128, to_u128_spec,
};
use crate::binary64::order::{greater, greater_spec, total_cmp, total_cmp_spec};
use crate::binary64::product::{div_spec, lemma_mul_commutes, mul_spec};
use crate::binary64::sum::{add_spec, sub_spec};
use crate::number::RawNumber;
use crate::DefoAble;
use std::cmp::Ordering;
use vstd::prelude::*;

verus! {

/// One of the four arithmetic operators.
#[derive(Debug, Clone, Copy, PartialEq, Eq, Structural)]
pub enum Operator {
    Plus,
    Minus,
    Times,
    Over,
}

impl Operator {
    /// The result of the operator on two magnitudes.
    pub open spec fn apply_spec(&self, a: u64, b: u64) -> u64 {
        match self {
            Operator::Plus => add_spec(a, b),
            Operator::Minus => sub_spec(a, b),
            Operator::Times => mul_spec(a, b),
            Operator::Over => div_spec(a, b),
        }
    }

    /// Applies the operator to two magnitudes.
    pub fn apply(&self, a: u64, b: u64) -> (r: u64)
        ensures
            r == self.apply_spec(a, b),
    {
        match self {
            Operator::Plus => crate::binary64::sum::add(a, b),
            Operator::Minus => crate::binary64::sum::sub(a, b),
            Operator::Times => crate::binary64::product::mul(a, b),
            Operator::Over => crate::binary64::product::div(a, b),
        }
    }
}

/// `quantity (op) number`: the operator on the quantity's magnitude and the
/// number, in the quantity's unit.
pub fn with_number<Q: DefoAble + Copy, N: RawNumber>(
    quantity: &Q,
    op: Operator,
    number: &N,
) -> (r: Q)
    ensures
        r == quantity.set_spec(op.apply_spec(quantity.raw_spec(), number.bits_spec())),
{
    let mut result = *quantity;
    result.set(op.apply(quantity.raw(), number.bits()));
    result
}

/// `number * quantity`: the product of the number and the quantity's
/// magnitude, in the quantity's unit.
pub fn number_times<N: RawNumber, Q: DefoAble + Copy>(number: &N, quantity: &Q) -> (r: Q)
    ensures
        r == quantity.set_spec(mul_spec(number.bits_spec(), quantity.raw_spec())),
{
    let mut result = *quantity;
    result.set(crate::binary64::product::mul(number.bits(), quantity.raw()));
    result
}

/// The magnitude of a quantity cut to a whole number within two bounds, and
/// whether the magnitude lies above the upper bound, so that the cut lost more
/// than the fraction.
pub fn narrowed<Q: DefoAble>(quantity: &Q, lowest: i128, highest: i128) -> (r: (i128, bool))
    ensures
        r.0 == clamped(to_i128_spec(quantity.raw_spec()), lowest, highest),
        r.1 == greater_spec(quantity.raw_spec(), from_int_spec(highest + 0)),
{
    let v = quantity.raw();
    (to_integer(v, lowest, highest), greater(v, from_i128(highest)))
}

/// The magnitude of a quantity cut to an unsigned whole number, and whether
/// the magnitude lies above the largest one.
pub fn narrowed_unsigned<Q: DefoAble>(quantity: &Q) -> (r: (u128, bool))
    ensures
        r.0 == to_u128_spec(quantity.raw_spec()),
        r.1 == greater_spec(quantity.raw_spec(), from_int_spec(u128::MAX + 0)),
{
    let v = quantity.raw();
    (to_u128(v), greater(v, from_u128(u128::MAX)))
}

/// `number * quantity` is `quantity * number`.
pub proof fn lemma_number_times_commutes<N: RawNumber, Q: DefoAble>(number: N, quantity: Q)
    ensures
        quantity.set_spec(mul_spec(number.bits_spec(), quantity.raw_spec())) == quantity.set_spec(
            Operator::Times.apply_spec(quantity.raw_spec(), number.bits_spec()),
        ),
{
    lemma_mul_commutes(number.bits_spec(), quantity.raw_spec());
}

/// How a quantity's magnitude compares with a number.
pub fn cmp_number<Q: DefoAble, N: RawNumber>(quantity: &Q, number: &N) -> (r: Ordering)
    ensures
        r == total_cmp_spec(quantity.raw_spec(), number.bits_spec()),
{
    total_cmp(quantity.raw(), number.bits())
}

/// How a number compares with a quantity's magnitude.
pub fn number_cmp<N: RawNumber, Q: DefoAble>(number: &N, quantity: &Q) -> (r: Ordering)
    ensures
        r == total_cmp_spec(number.bits_spec(), quantity.raw_spec()),
{
    total_cmp(number.bits(), quantity.raw())
}

} // verus!
