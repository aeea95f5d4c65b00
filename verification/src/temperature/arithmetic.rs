//! The four arithmetic operators on temperatures.
//!
//! Between two temperatures the right-hand side is brought to the unit of the
//! left-hand side, whose unit the result has. Beside a raw number the unit of
//! the temperature is kept. A remnant on the left stays as it is.
use crate::number::{Bits, RawNumber};
use crate::scalar::{number_times, with_number, Operator};
use crate::temperature::unit::Temperature;
use crate::DefoAble;
use vstd::prelude::*;
use vstd::std_specs::ops::{AddSpecImpl, DivSpecImpl, MulSpecImpl, SubSpecImpl};

verus! {

impl Temperature {
    /// `self (op) other`, in the unit of `self`.
    pub open spec fn combined(&self, op: Operator, other: &Temperature) -> Temperature {
        self.set_spec(op.apply_spec(self.raw_spec(), other.converted(self).raw_spec()))
    }

    /// Brings `other` to the unit of `self` and applies the operator to the
    /// two magnitudes.
    pub fn combine(&self, op: Operator, other: &Temperature) -> (r: Temperature)
        ensures
            r == self.combined(op, other),
    {
        let mut result = *self;
        result.set(op.apply(self.raw(), other.cnv_into(self).raw()));
        result
    }
}

impl core::ops::Add for Temperature {
    type Output = Temperature;

    fn add(self, rhs: Temperature) -> (r: Temperature)
        ensures
            r == self.combined(Operator::Plus, &rhs),
    {
        self.combine(Operator::Plus, &rhs)
    }
}

impl AddSpecImpl for Temperature {
    open spec fn obeys_add_spec() -> bool {
        true
    }

    open spec fn add_req(self, rhs: Temperature) -> bool {
        true
    }

    open spec fn add_spec(self, rhs: Temperature) -> Temperature {
        self.combined(Operator::Plus, &rhs)
    }
}

impl core::ops::Sub for Temperature {
    type Output = Temperature;

    fn sub(self, rhs: Temperature) -> (r: Temperature)
        ensures
            r == self.combined(Operator::Minus, &rhs),
    {
        self.combine(Operator::Minus, &rhs)
    }
}

impl SubSpecImpl for Temperature {
    open spec fn obeys_sub_spec() -> bool {
        true
    }

    open spec fn sub_req(self, rhs: Temperature) -> bool {
        true
    }

    open spec fn sub_spec(self, rhs: Temperature) -> Temperature {
        self.combined(Operator::Minus, &rhs)
    }
}

impl core::ops::Mul for Temperature {
    type Output = Temperature;

    fn mul(self, rhs: Temperature) -> (r: Temperature)
        ensures
            r == self.combined(Operator::Times, &rhs),
    {
        self.combine(Operator::Times, &rhs)
    }
}

impl MulSpecImpl for Temperature {
    open spec fn obeys_mul_spec() -> bool {
        true
    }

    open spec fn mul_req(self, rhs: Temperature) -> bool {
        true
    }

    open spec fn mul_spec(self, rhs: Temperature) -> Temperature {
        self.combined(Operator::Times, &rhs)
    }
}

impl core::ops::Div for Temperature {
    type Output = Temperature;

    fn div(self, rhs: Temperature) -> (r: Temperature)
        ensures
            r == self.combined(Operator::Over, &rhs),
    {
        self.combine(Operator::Over, &rhs)
    }
}

impl DivSpecImpl for Temperature {
    open spec fn obeys_div_spec() -> bool {
        true
    }

    open spec fn div_req(self, rhs: Temperature) -> bool {
        true
    }

    open spec fn div_spec(self, rhs: Temperature) -> Temperature {
        self.combined(Operator::Over, &rhs)
    }
}

impl core::ops::Add<&Temperature> for &Temperature {
    type Output = Temperature;

    fn add(self, rhs: &Temperature) -> (r: Temperature)
        ensures
            r == self.combined(Operator::Plus, rhs),
    {
        self.combine(Operator::Plus, rhs)
    }
}

impl AddSpecImpl<&Temperature> for &Temperature {
    open spec fn obeys_add_spec() -> bool {
        true
    }

    open spec fn add_req(self, rhs: &Temperature) -> bool {
        true
    }

    open spec fn add_spec(self, rhs: &Temperature) -> Temperature {
        self.combined(Operator::Plus, rhs)
    }
}

impl core::ops::Sub<&Temperature> for &Temperature {
    type Output = Temperature;

    fn sub(self, rhs: &Temperature) -> (r: Temperature)
        ensures
            r == self.combined(Operator::Minus, rhs),
    {
        self.combine(Operator::Minus, rhs)
    }
}

impl SubSpecImpl<&Temperature> for &Temperature {
    open spec fn obeys_sub_spec() -> bool {
        true
    }

    open spec fn sub_req(self, rhs: &Temperature) -> bool {
        true
    }

    open spec fn sub_spec(self, rhs: &Temperature) -> Temperature {
        self.combined(Operator::Minus, rhs)
    }
}

impl core::ops::Mul<&Temperature> for &Temperature {
    type Output = Temperature;

    fn mul(self, rhs: &Temperature) -> (r: Temperature)
        ensures
            r == self.combined(Operator::Times, rhs),
    {
        self.combine(Operator::Times, rhs)
    }
}

impl MulSpecImpl<&Temperature> for &Temperature {
    open spec fn obeys_mul_spec() -> bool {
        true
    }

    open spec fn mul_req(self, rhs: &Temperature) -> bool {
        true
    }

    open spec fn mul_spec(self, rhs: &Temperature) -> Temperature {
        self.combined(Operator::Times, rhs)
    }
}

impl core::ops::Div<&Temperature> for &Temperature {
    type Output = Temperature;

    fn div(self, rhs: &Temperature) -> (r: Temperature)
        ensures
            r == self.combined(Operator::Over, rhs),
    {
        self.combine(Operator::Over, rhs)
    }
}

impl DivSpecImpl<&Temperature> for &Temperature {
    open spec fn obeys_div_spec() -> bool {
        true
    }

    open spec fn div_req(self, rhs: &Temperature) -> bool {
        true
    }

    open spec fn div_spec(self, rhs: &Temperature) -> Temperature {
        self.combined(Operator::Over, rhs)
    }
}

impl<N: RawNumber> core::ops::Add<N> for Temperature {
    type Output = Temperature;

    fn add(self, rhs: N) -> (r: Temperature)
        ensures
            r == self.set_spec(Operator::Plus.apply_spec(self.raw_spec(), rhs.bits_spec())),
    {
        with_number(&self, Operator::Plus, &rhs)
    }
}

impl<N: RawNumber> AddSpecImpl<N> for Temperature {
    open spec fn obeys_add_spec() -> bool {
        true
    }

    open spec fn add_req(self, rhs: N) -> bool {
        true
    }

    open spec fn add_spec(self, rhs: N) -> Temperature {
        self.set_spec(Operator::Plus.apply_spec(self.raw_spec(), rhs.bits_spec()))
    }
}

impl<N: RawNumber> core::ops::Sub<N> for Temperature {
    type Output = Temperature;

    fn sub(self, rhs: N) -> (r: Temperature)
        ensures
            r == self.set_spec(Operator::Minus.apply_spec(self.raw_spec(), rhs.bits_spec())),
    {
        with_number(&self, Operator::Minus, &rhs)
    }
}

impl<N: RawNumber> SubSpecImpl<N> for Temperature {
    open spec fn obeys_sub_spec() -> bool {
        true
    }

    open spec fn sub_req(self, rhs: N) -> bool {
        true
    }

    open spec fn sub_spec(self, rhs: N) -> Temperature {
        self.set_spec(Operator::Minus.apply_spec(self.raw_spec(), rhs.bits_spec()))
    }
}

impl<N: RawNumber> core::ops::Mul<N> for Temperature {
    type Output = Temperature;

    fn mul(self, rhs: N) -> (r: Temperature)
        ensures
            r == self.set_spec(Operator::Times.apply_spec(self.raw_spec(), rhs.bits_spec())),
    {
        with_number(&self, Operator::Times, &rhs)
    }
}

impl<N: RawNumber> MulSpecImpl<N> for Temperature {
    open spec fn obeys_mul_spec() -> bool {
        true
    }

    open spec fn mul_req(self, rhs: N) -> bool {
        true
    }

    open spec fn mul_spec(self, rhs: N) -> Temperature {
        self.set_spec(Operator::Times.apply_spec(self.raw_spec(), rhs.bits_spec()))
    }
}

impl<N: RawNumber> core::ops::Div<N> for Temperature {
    type Output = Temperature;

    fn div(self, rhs: N) -> (r: Temperature)
        ensures
            r == self.set_spec(Operator::Over.apply_spec(self.raw_spec(), rhs.bits_spec())),
    {
        with_number(&self, Operator::Over, &rhs)
    }
}

impl<N: RawNumber> DivSpecImpl<N> for Temperature {
    open spec fn obeys_div_spec() -> bool {
        true
    }

    open spec fn div_req(self, rhs: N) -> bool {
        true
    }

    open spec fn div_spec(self, rhs: N) -> Temperature {
        self.set_spec(Operator::Over.apply_spec(self.raw_spec(), rhs.bits_spec()))
    }
}

impl core::ops::Mul<Temperature> for Bits {
    type Output = Temperature;

    fn mul(self, rhs: Temperature) -> (r: Temperature)
        ensures
            r == rhs.set_spec(crate::binary64::product::mul_spec(self.0, rhs.raw_spec())),
    {
        number_times(&self, &rhs)
    }
}

impl MulSpecImpl<Temperature> for Bits {
    open spec fn obeys_mul_spec() -> bool {
        true
    }

    open spec fn mul_req(self, rhs: Temperature) -> bool {
        true
    }

    open spec fn mul_spec(self, rhs: Temperature) -> Temperature {
        rhs.set_spec(crate::binary64::product::mul_spec(self.0, rhs.raw_spec()))
    }
}

} // verus!
