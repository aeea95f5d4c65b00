//! The four arithmetic operators on lengths.
//!
//! Between two lengths both are first brought to the unit of higher rank, and
//! the result has that unit. Beside a raw number the unit of the quantity is
//! kept.
use crate::number::{Bits, RawNumber};
use crate::scalar::{number_times, with_number, Operator};
use crate::spatial::unit::SpatialUnit;
use crate::DefoAble;
use vstd::prelude::*;
use vstd::std_specs::ops::{AddSpecImpl, DivSpecImpl, MulSpecImpl, SubSpecImpl};

verus! {

impl SpatialUnit {
    /// `self (op) other`, in the unit of higher rank.
    pub open spec fn combined(&self, op: Operator, other: &SpatialUnit) -> SpatialUnit {
        let unified = self.unify_spec(other);
        unified.0.set_spec(op.apply_spec(unified.0.raw_spec(), unified.1.raw_spec()))
    }

    /// Unifies the two quantities and applies the operator to their
    /// magnitudes.
    pub fn combine(&self, op: Operator, other: &SpatialUnit) -> (r: SpatialUnit)
        ensures
            r == self.combined(op, other),
    {
        let (s, o) = self.unify(other);
        let mut result = s;
        result.set(op.apply(s.raw(), o.raw()));
        result
    }
}

impl core::ops::Add for SpatialUnit {
    type Output = SpatialUnit;

    fn add(self, rhs: SpatialUnit) -> (r: SpatialUnit)
        ensures
            r == self.combined(Operator::Plus, &rhs),
    {
        self.combine(Operator::Plus, &rhs)
    }
}

impl AddSpecImpl for SpatialUnit {
    open spec fn obeys_add_spec() -> bool {
        true
    }

    open spec fn add_req(self, rhs: SpatialUnit) -> bool {
        true
    }

    open spec fn add_spec(self, rhs: SpatialUnit) -> SpatialUnit {
        self.combined(Operator::Plus, &rhs)
    }
}


impl core::ops::Sub for SpatialUnit {
    type Output = SpatialUnit;

    fn sub(self, rhs: SpatialUnit) -> (r: SpatialUnit)
        ensures
            r == self.combined(Operator::Minus, &rhs),
    {
        self.combine(Operator::Minus, &rhs)
    }
}

impl SubSpecImpl for SpatialUnit {
    open spec fn obeys_sub_spec() -> bool {
        true
    }

    open spec fn sub_req(self, rhs: SpatialUnit) -> bool {
        true
    }

    open spec fn sub_spec(self, rhs: SpatialUnit) -> SpatialUnit {
        self.combined(Operator::Minus, &rhs)
    }
}


impl core::ops::Mul for SpatialUnit {
    type Output = SpatialUnit;

    fn mul(self, rhs: SpatialUnit) -> (r: SpatialUnit)
        ensures
            r == self.combined(Operator::Times, &rhs),
    {
        self.combine(Operator::Times, &rhs)
    }
}

impl MulSpecImpl for SpatialUnit {
    open spec fn obeys_mul_spec() -> bool {
        true
    }

    open spec fn mul_req(self, rhs: SpatialUnit) -> bool {
        true
    }

    open spec fn mul_spec(self, rhs: SpatialUnit) -> SpatialUnit {
        self.combined(Operator::Times, &rhs)
    }
}


impl core::ops::Div for SpatialUnit {
    type Output = SpatialUnit;

    fn div(self, rhs: SpatialUnit) -> (r: SpatialUnit)
        ensures
            r == self.combined(Operator::Over, &rhs),
    {
        self.combine(Operator::Over, &rhs)
    }
}

impl DivSpecImpl for SpatialUnit {
    open spec fn obeys_div_spec() -> bool {
        true
    }

    open spec fn div_req(self, rhs: SpatialUnit) -> bool {
        true
    }

    open spec fn div_spec(self, rhs: SpatialUnit) -> SpatialUnit {
        self.combined(Operator::Over, &rhs)
    }
}

impl core::ops::Add<&SpatialUnit> for &SpatialUnit {
    type Output = SpatialUnit;

    fn add(self, rhs: &SpatialUnit) -> (r: SpatialUnit)
        ensures
            r == self.combined(Operator::Plus, rhs),
    {
        self.combine(Operator::Plus, rhs)
    }
}

impl AddSpecImpl<&SpatialUnit> for &SpatialUnit {
    open spec fn obeys_add_spec() -> bool {
        true
    }

    open spec fn add_req(self, rhs: &SpatialUnit) -> bool {
        true
    }

    open spec fn add_spec(self, rhs: &SpatialUnit) -> SpatialUnit {
        self.combined(Operator::Plus, rhs)
    }
}

impl core::ops::Sub<&SpatialUnit> for &SpatialUnit {
    type Output = SpatialUnit;

    fn sub(self, rhs: &SpatialUnit) -> (r: SpatialUnit)
        ensures
            r == self.combined(Operator::Minus, rhs),
    {
        self.combine(Operator::Minus, rhs)
    }
}

impl SubSpecImpl<&SpatialUnit> for &SpatialUnit {
    open spec fn obeys_sub_spec() -> bool {
        true
    }

    open spec fn sub_req(self, rhs: &SpatialUnit) -> bool {
        true
    }

    open spec fn sub_spec(self, rhs: &SpatialUnit) -> SpatialUnit {
        self.combined(Operator::Minus, rhs)
    }
}

impl core::ops::Mul<&SpatialUnit> for &SpatialUnit {
    type Output = SpatialUnit;

    fn mul(self, rhs: &SpatialUnit) -> (r: SpatialUnit)
        ensures
            r == self.combined(Operator::Times, rhs),
    {
        self.combine(Operator::Times, rhs)
    }
}

impl MulSpecImpl<&SpatialUnit> for &SpatialUnit {
    open spec fn obeys_mul_spec() -> bool {
        true
    }

    open spec fn mul_req(self, rhs: &SpatialUnit) -> bool {
        true
    }

    open spec fn mul_spec(self, rhs: &SpatialUnit) -> SpatialUnit {
        self.combined(Operator::Times, rhs)
    }
}

impl core::ops::Div<&SpatialUnit> for &SpatialUnit {
    type Output = SpatialUnit;

    fn div(self, rhs: &SpatialUnit) -> (r: SpatialUnit)
        ensures
            r == self.combined(Operator::Over, rhs),
    {
        self.combine(Operator::Over, rhs)
    }
}

impl DivSpecImpl<&SpatialUnit> for &SpatialUnit {
    open spec fn obeys_div_spec() -> bool {
        true
    }

    open spec fn div_req(self, rhs: &SpatialUnit) -> bool {
        true
    }

    open spec fn div_spec(self, rhs: &SpatialUnit) -> SpatialUnit {
        self.combined(Operator::Over, rhs)
    }
}

impl<N: RawNumber> core::ops::Add<N> for SpatialUnit {
    type Output = SpatialUnit;

    fn add(self, rhs: N) -> (r: SpatialUnit)
        ensures
            r == self.set_spec(Operator::Plus.apply_spec(self.raw_spec(), rhs.bits_spec())),
    {
        with_number(&self, Operator::Plus, &rhs)
    }
}

impl<N: RawNumber> AddSpecImpl<N> for SpatialUnit {
    open spec fn obeys_add_spec() -> bool {
        true
    }

    open spec fn add_req(self, rhs: N) -> bool {
        true
    }

    open spec fn add_spec(self, rhs: N) -> SpatialUnit {
        self.set_spec(Operator::Plus.apply_spec(self.raw_spec(), rhs.bits_spec()))
    }
}

impl<N: RawNumber> core::ops::Sub<N> for SpatialUnit {
    type Output = SpatialUnit;

    fn sub(self, rhs: N) -> (r: SpatialUnit)
        ensures
            r == self.set_spec(Operator::Minus.apply_spec(self.raw_spec(), rhs.bits_spec())),
    {
        with_number(&self, Operator::Minus, &rhs)
    }
}

impl<N: RawNumber> SubSpecImpl<N> for SpatialUnit {
    open spec fn obeys_sub_spec() -> bool {
        true
    }

    open spec fn sub_req(self, rhs: N) -> bool {
        true
    }

    open spec fn sub_spec(self, rhs: N) -> SpatialUnit {
        self.set_spec(Operator::Minus.apply_spec(self.raw_spec(), rhs.bits_spec()))
    }
}

impl<N: RawNumber> core::ops::Mul<N> for SpatialUnit {
    type Output = SpatialUnit;

    fn mul(self, rhs: N) -> (r: SpatialUnit)
        ensures
            r == self.set_spec(Operator::Times.apply_spec(self.raw_spec(), rhs.bits_spec())),
    {
        with_number(&self, Operator::Times, &rhs)
    }
}

impl<N: RawNumber> MulSpecImpl<N> for SpatialUnit {
    open spec fn obeys_mul_spec() -> bool {
        true
    }

    open spec fn mul_req(self, rhs: N) -> bool {
        true
    }

    open spec fn mul_spec(self, rhs: N) -> SpatialUnit {
        self.set_spec(Operator::Times.apply_spec(self.raw_spec(), rhs.bits_spec()))
    }
}

impl<N: RawNumber> core::ops::Div<N> for SpatialUnit {
    type Output = SpatialUnit;

    fn div(self, rhs: N) -> (r: SpatialUnit)
        ensures
            r == self.set_spec(Operator::Over.apply_spec(self.raw_spec(), rhs.bits_spec())),
    {
        with_number(&self, Operator::Over, &rhs)
    }
}

impl<N: RawNumber> DivSpecImpl<N> for SpatialUnit {
    open spec fn obeys_div_spec() -> bool {
        true
    }

    open spec fn div_req(self, rhs: N) -> bool {
        true
    }

    open spec fn div_spec(self, rhs: N) -> SpatialUnit {
        self.set_spec(Operator::Over.apply_spec(self.raw_spec(), rhs.bits_spec()))
    }
}

impl core::ops::Mul<SpatialUnit> for Bits {
    type Output = SpatialUnit;

    fn mul(self, rhs: SpatialUnit) -> (r: SpatialUnit)
        ensures
            r == rhs.set_spec(crate::binary64::product::mul_spec(self.0, rhs.raw_spec())),
    {
        number_times(&self, &rhs)
    }
}

impl MulSpecImpl<SpatialUnit> for Bits {
    open spec fn obeys_mul_spec() -> bool {
        true
    }

    open spec fn mul_req(self, rhs: SpatialUnit) -> bool {
        true
    }

    open spec fn mul_spec(self, rhs: SpatialUnit) -> SpatialUnit {
        rhs.set_spec(crate::binary64::product::mul_spec(self.0, rhs.raw_spec()))
    }
}

} // verus!
