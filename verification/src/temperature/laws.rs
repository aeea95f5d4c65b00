//! What holds of every temperature.
use crate::binary64::model::{is_finite, magnitude, signed_units, step};
use crate::binary64::order::total_cmp_spec;
use crate::binary64::sum::{add_spec, lemma_add_half_gap, lemma_sub_half_gap, sub_spec};
use crate::scalar::Operator;
use crate::binary64::rounding::{lemma_nearest_to, lemma_round_zero, nearest_to};
use crate::temperature::k::{ABS_ZERO, K_C_DELTA, NEUTRON_KELVIN, WHITE_DWARF_KELVIN};
use crate::temperature::unit::Temperature;
use crate::DefoAble;
use std::cmp::Ordering;
use vstd::arithmetic::power2::*;
use vstd::prelude::*;

verus! {

/// A black hole has no relation to any temperature, another black hole
/// included: it is neither equal nor unequal to it, and has no order with it.
pub proof fn lemma_black_hole_has_no_relation(t: Temperature)
    ensures
        !Temperature::X.equals(&t),
        !Temperature::X.differs(&t),
        !t.equals(&Temperature::X),
        !t.differs(&Temperature::X),
        Temperature::X.compared(&t) is None,
        t.compared(&Temperature::X) is None,
{
}

/// Any two temperatures without a black hole among them are equal or unequal,
/// and not both.
pub proof fn lemma_equal_or_different(a: Temperature, b: Temperature)
    requires
        !(a is X),
        !(b is X),
    ensures
        a.equals(&b) != a.differs(&b),
        a.compared(&b) is Some,
{
}

/// A neutron star and a white dwarf compare with every temperature as the
/// kelvin that they stand for does.
pub proof fn lemma_remnant_compares_as_its_kelvin(remnant: Temperature, t: Temperature)
    requires
        remnant is N || remnant is D,
    ensures
        remnant.in_kelvin() == Temperature::K(remnant.raw_spec()),
        remnant.compared(&t) == remnant.in_kelvin().compared(&t),
        t.compared(&remnant) == t.compared(&remnant.in_kelvin()),
{
}

/// A neutron star is hotter than a white dwarf, and each equals the kelvin
/// that it stands for.
pub proof fn lemma_remnant_order()
    ensures
        Temperature::N.compared(&Temperature::D) == Some(Ordering::Greater),
        Temperature::D.compared(&Temperature::N) == Some(Ordering::Less),
        Temperature::N.equals(&Temperature::K(NEUTRON_KELVIN)),
        Temperature::D.equals(&Temperature::K(WHITE_DWARF_KELVIN)),
{
}

/// Every temperature but a black hole equals itself.
pub proof fn lemma_equal_to_itself(t: Temperature)
    requires
        !(t is X),
    ensures
        t.equals(&t),
{
}

/// Swapping the two sides of a comparison reverses its result.
pub proof fn lemma_compared_reverses(a: Temperature, b: Temperature)
    ensures
        a.compared(&b) == Some(Ordering::Less) <==> b.compared(&a) == Some(Ordering::Greater),
        a.equals(&b) <==> b.equals(&a),
        a.differs(&b) <==> b.differs(&a),
{
}

/// Converting a temperature to the shape that it already has changes nothing.
pub proof fn lemma_convert_to_own_shape(t: Temperature)
    ensures
        t.converted(&t) == t,
        t.cnv_into_spec(&t) == t,
{
}

/// Replacing the magnitude keeps the variant; a remnant keeps itself whole.
pub proof fn lemma_set_keeps_variant(t: Temperature, value: u64)
    ensures
        t is K ==> t.set_spec(value) == Temperature::K(value),
        t is C ==> t.set_spec(value) == Temperature::C(value),
        t.is_sentinel() ==> t.set_spec(value) == t,
{
}

/// No arithmetic moves a remnant that stands on the left.
pub proof fn lemma_remnant_is_stubborn(remnant: Temperature, other: Temperature, op: Operator)
    requires
        remnant.is_sentinel(),
    ensures
        remnant.combined(op, &other) == remnant,
{
}

/// Two temperatures on one scale compare as their magnitudes do, and the four
/// operators work on their magnitudes as they stand.
pub proof fn lemma_same_scale_works_on_magnitudes(a: Temperature, b: Temperature, op: Operator)
    requires
        (a is K && b is K) || (a is C && b is C),
    ensures
        a.compared(&b) == Some(total_cmp_spec(a.raw_spec(), b.raw_spec())),
        a.combined(op, &b) == a.set_spec(op.apply_spec(a.raw_spec(), b.raw_spec())),
{
}

/// The constants are the binary64 numbers nearest to their decimal values:
/// the offset between the scales is 273.15, a neutron star stands for a
/// million kelvin and a white dwarf for a hundred thousand.
pub proof fn lemma_constants()
    ensures
        K_C_DELTA == nearest_to(27_315, 100),
        NEUTRON_KELVIN == nearest_to(1_000_000, 1),
        WHITE_DWARF_KELVIN == nearest_to(100_000, 1),
        ABS_ZERO == nearest_to(0, 1),
{
    lemma2_to64();
    lemma2_to64_rest();
    lemma_nearest_to(27_315, 100, K_C_DELTA, 44, 0);
    lemma_nearest_to(1_000_000, 1, NEUTRON_KELVIN, 33, 0);
    lemma_nearest_to(100_000, 1, WHITE_DWARF_KELVIN, 36, 0);
    assert(0 * pow2(1074) == 0) by (nonlinear_arith);
    lemma_round_zero(1);
}

/// There and back again between the two scales: the magnitude ends within
/// half a gap of each of the two results of where it started, wherever those
/// results are finite.
pub proof fn lemma_round_trip_within_rounding(start: Temperature, target: Temperature)
    requires
        start is K || start is C,
        target is K || target is C,
        is_finite(start.raw_spec()),
        is_finite(start.converted(&target).raw_spec()),
        is_finite(start.converted(&target).converted(&start).raw_spec()),
    ensures
        ({
            let there = start.converted(&target);
            let back = there.converted(&start);
            let slack = pow2(step(magnitude(there.raw_spec()))) + pow2(
                step(magnitude(back.raw_spec())),
            );
            &&& start is K <==> back is K
            &&& 2 * (signed_units(back.raw_spec()) - signed_units(start.raw_spec())) <= slack
            &&& 2 * (signed_units(start.raw_spec()) - signed_units(back.raw_spec())) <= slack
        }),
{
    let v = start.raw_spec();
    lemma_pow2_pos(step(magnitude(v)));
    if start is K && target is C {
        lemma_add_half_gap(v, K_C_DELTA);
        lemma_sub_half_gap(add_spec(v, K_C_DELTA), K_C_DELTA);
    } else if start is C && target is K {
        lemma_sub_half_gap(v, K_C_DELTA);
        lemma_add_half_gap(sub_spec(v, K_C_DELTA), K_C_DELTA);
    }
}

} // verus!
