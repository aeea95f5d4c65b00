//! What holds of every length, whatever its unit and magnitude.
use crate::binary64::accuracy::{
    close, is_normal, lemma_close_more, lemma_close_self, lemma_div_close, lemma_div_normal,
    lemma_div_then_mul, lemma_mul_then_div, lemma_ratio_there_and_back,
    lemma_scaling_keeps_special_values,
};
use crate::binary64::model::{is_finite, is_nan, is_negative, is_zero, magnitude, units};
use crate::binary64::order::total_cmp_spec;
use crate::binary64::product::{div_spec, mul_spec};
use crate::binary64::rounding::{lemma_nearest_to, nearest_to};
use crate::spatial::iau::{AU_METERS, LY_METERS, PARSEC_METERS, R_EARTH_METERS, R_SUN_METERS};
use crate::scalar::Operator;
use crate::spatial::unit::SpatialUnit;
use crate::DefoAble;
use std::cmp::Ordering;
use vstd::arithmetic::power2::*;
use vstd::prelude::*;

verus! {

/// Replacing the magnitude keeps the unit, and the new magnitude is what was
/// put in.
pub proof fn lemma_set_keeps_unit(quantity: SpatialUnit, value: u64)
    ensures
        quantity.set_spec(value).same_unit(&quantity),
        quantity.set_spec(value).raw_spec() == value,
{
}

/// Converting a quantity to the unit that it already has changes nothing.
pub proof fn lemma_convert_to_own_unit(quantity: SpatialUnit, target: SpatialUnit)
    requires
        quantity.same_unit(&target),
    ensures
        quantity.converted(&target) == quantity,
        quantity.cnv_into_spec(&quantity) == quantity,
{
}

/// A conversion gives the unit of its target.
pub proof fn lemma_convert_gives_target_unit(quantity: SpatialUnit, target: SpatialUnit)
    ensures
        quantity.converted(&target).same_unit(&target),
{
}

/// Unifying two quantities that already share a unit returns them unchanged.
pub proof fn lemma_unify_matching(a: SpatialUnit, b: SpatialUnit)
    requires
        a.same_unit(&b),
    ensures
        a.unify_spec(&b) == (a, b),
{
}

/// Unifying leaves the quantity of higher rank as it is, brings the other to
/// its unit, and unifying the result again changes nothing.
pub proof fn lemma_unify_settles(a: SpatialUnit, b: SpatialUnit)
    ensures
        ({
            let unified = a.unify_spec(&b);
            &&& unified.0.same_unit(&unified.1)
            &&& unified.0.unify_spec(&unified.1) == unified
            &&& a.rank_spec() >= b.rank_spec() ==> unified.0 == a
            &&& b.rank_spec() >= a.rank_spec() ==> unified.1 == b
        }),
{
}

/// Every quantity equals itself.
pub proof fn lemma_equal_to_itself(a: SpatialUnit)
    ensures
        a.compared(&a) == Ordering::Equal,
{
}

/// Swapping the two sides of a comparison reverses its result.
pub proof fn lemma_compared_reverses(a: SpatialUnit, b: SpatialUnit)
    ensures
        a.compared(&b) == Ordering::Less <==> b.compared(&a) == Ordering::Greater,
        a.compared(&b) == Ordering::Equal <==> b.compared(&a) == Ordering::Equal,
{
}

/// Two quantities of one unit compare as their magnitudes do, and the four
/// operators work on their magnitudes as they stand.
pub proof fn lemma_same_unit_works_on_magnitudes(a: SpatialUnit, b: SpatialUnit, op: Operator)
    requires
        a.same_unit(&b),
    ensures
        a.compared(&b) == total_cmp_spec(a.raw_spec(), b.raw_spec()),
        a.combined(op, &b) == a.set_spec(op.apply_spec(a.raw_spec(), b.raw_spec())),
{
}

/// The constants of the conversion table are the binary64 numbers that their
/// decimal values are: each is a whole number of meters that binary64 holds
/// exactly.
pub proof fn lemma_constants()
    ensures
        AU_METERS == nearest_to(149_597_870_700, 1),
        LY_METERS == nearest_to(9_460_700_000_000_000, 1),
        PARSEC_METERS == nearest_to(30_856_775_810_000_000, 1),
        R_SUN_METERS == nearest_to(695_700_000, 1),
        R_EARTH_METERS == nearest_to(6_378_100, 1),
{
    lemma2_to64();
    lemma2_to64_rest();
    lemma_nearest_to(149_597_870_700, 1, AU_METERS, 15, 0);
    lemma_nearest_to(9_460_700_000_000_000, 1, LY_METERS, 0, 1);
    lemma_nearest_to(30_856_775_810_000_000, 1, PARSEC_METERS, 0, 2);
    lemma_nearest_to(695_700_000, 1, R_SUN_METERS, 23, 0);
    lemma_nearest_to(6_378_100, 1, R_EARTH_METERS, 30, 0);
}

/// There and back again: converting a length to another unit and back to its
/// own ends within four roundings of the magnitude it started with, and with
/// its sign, wherever the magnitudes on the way are normal numbers.
pub proof fn lemma_round_trip_within_rounding(start: SpatialUnit, target: SpatialUnit)
    requires
        is_normal(start.raw_spec()),
        is_normal(start.converted(&target).raw_spec()),
        is_normal(start.converted(&target).converted(&start).raw_spec()),
    ensures
        ({
            let back = start.converted(&target).converted(&start);
            &&& back.same_unit(&start)
            &&& is_negative(back.raw_spec()) == is_negative(start.raw_spec())
            &&& close(
                units(magnitude(start.raw_spec())),
                units(magnitude(back.raw_spec())),
                4,
            )
        }),
{
    let v = start.raw_spec();
    let size = units(magnitude(v));
    if start.same_unit(&target) {
        lemma_close_self(size);
        lemma_close_more(size, size, 0, 4);
    } else {
        match (start.meters(), target.meters()) {
            (Some(from), Some(to)) => {
                lemma_div_normal(from, to);
                lemma_div_normal(to, from);
                lemma_ratio_there_and_back(v, from, to);
            },
            (Some(from), None) => {
                lemma_mul_then_div(v, from);
                let back = div_spec(mul_spec(v, from), from);
                lemma_close_more(size, units(magnitude(back)), 2, 2);
            },
            (None, Some(to)) => {
                lemma_div_then_mul(v, to);
                let back = mul_spec(div_spec(v, to), to);
                lemma_close_more(size, units(magnitude(back)), 2, 2);
            },
            (None, None) => {},
        }
    }
}

/// There and back again, for the magnitudes that are no ordinary numbers:
/// zero and the infinities come back as they were, and not-a-number comes
/// back as not-a-number.
pub proof fn lemma_round_trip_of_special_values(start: SpatialUnit, target: SpatialUnit)
    requires
        !is_finite(start.raw_spec()) || is_zero(start.raw_spec()),
    ensures
        ({
            let back = start.converted(&target).converted(&start);
            &&& back.same_unit(&start)
            &&& is_nan(start.raw_spec()) ==> is_nan(back.raw_spec())
            &&& !is_nan(start.raw_spec()) ==> back == start
        }),
{
    let v = start.raw_spec();
    if !start.same_unit(&target) {
        match (start.meters(), target.meters()) {
            (Some(from), Some(to)) => {
                lemma_div_normal(from, to);
                lemma_div_normal(to, from);
                lemma_div_close(from, to);
                lemma_div_close(to, from);
                lemma_scaling_keeps_special_values(v, div_spec(from, to));
                lemma_scaling_keeps_special_values(
                    mul_spec(v, div_spec(from, to)),
                    div_spec(to, from),
                );
            },
            (Some(from), None) => {
                lemma_scaling_keeps_special_values(v, from);
                lemma_scaling_keeps_special_values(mul_spec(v, from), from);
            },
            (None, Some(to)) => {
                lemma_scaling_keeps_special_values(v, to);
                lemma_scaling_keeps_special_values(div_spec(v, to), to);
            },
            (None, None) => {},
        }
    }
}

} // verus!
