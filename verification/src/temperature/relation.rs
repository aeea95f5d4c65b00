//! Equality and order of temperatures.
//!
//! A black hole has no relation to anything, itself included: it is neither
//! equal nor unequal, neither above nor below. A neutron star and a white dwarf
//! compare as the kelvin that they stand for. Kelvin and Celsius compare on the
//! kelvin scale; two Celsius magnitudes compare as they stand. A raw number is
//! compared with the magnitude as it stands.
use crate::binary64::order::{total_cmp, total_cmp_spec};
use crate::number::RawNumber;
use crate::scalar::cmp_number;
use crate::temperature::k::{K_C_DELTA, NEUTRON_KELVIN, WHITE_DWARF_KELVIN};
use crate::temperature::unit::Temperature;
use crate::DefoAble;
use std::cmp::Ordering;
use vstd::prelude::*;
use vstd::std_specs::cmp::{PartialEqSpecImpl, PartialOrdSpecImpl};

verus! {

impl Temperature {
    /// How `self` compares with `other`, where the two have a relation.
    pub open spec fn compared(&self, other: &Temperature) -> Option<Ordering> {
        if *self is X || *other is X {
            None
        } else if *self is C && *other is C {
            Some(total_cmp_spec(self.raw_spec(), other.raw_spec()))
        } else {
            Some(total_cmp_spec(self.in_kelvin().raw_spec(), other.in_kelvin().raw_spec()))
        }
    }

    /// Whether the two are equal.
    pub open spec fn equals(&self, other: &Temperature) -> bool {
        self.compared(other) == Some(Ordering::Equal)
    }

    /// Whether the two are unequal: they have a relation, and it is not
    /// equality.
    pub open spec fn differs(&self, other: &Temperature) -> bool {
        self.compared(other) is Some && !self.equals(other)
    }
}

impl PartialEq for Temperature {
    fn eq(&self, other: &Temperature) -> (r: bool)
        ensures
            r == self.equals(other),
    {
        match self.partial_cmp(other) {
            Some(Ordering::Equal) => true,
            _ => false,
        }
    }

    fn ne(&self, other: &Temperature) -> (r: bool)
        ensures
            r == self.differs(other),
    {
        match (self, other) {
            // Black holes can't be compared.
            (Temperature::X, _) | (_, Temperature::X) => false,
            _ => !self.eq(other),
        }
    }
}

/// `ne` is not the negation of `eq` where a black hole takes part, so equality
/// here follows no law of `==` that generic code could rely on.
impl PartialEqSpecImpl for Temperature {
    open spec fn obeys_eq_spec() -> bool {
        false
    }

    open spec fn eq_spec(&self, other: &Temperature) -> bool {
        self.equals(other)
    }
}

impl PartialOrd for Temperature {
    fn partial_cmp(&self, other: &Temperature) -> (r: Option<Ordering>)
        ensures
            r == self.compared(other),
    {
        match (self, other) {
            // Black hole: impossible to order.
            (Temperature::X, _) | (_, Temperature::X) => None,
            (Temperature::N, Temperature::N) | (Temperature::D, Temperature::D) => Some(
                Ordering::Equal,
            ),
            (Temperature::N, Temperature::D) => Some(Ordering::Greater),
            (Temperature::D, Temperature::N) => Some(Ordering::Less),
            (Temperature::N, x) => Some(total_cmp(NEUTRON_KELVIN, x.k().raw())),
            (x, Temperature::N) => Some(total_cmp(x.k().raw(), NEUTRON_KELVIN)),
            (Temperature::D, x) => Some(total_cmp(WHITE_DWARF_KELVIN, x.k().raw())),
            (x, Temperature::D) => Some(total_cmp(x.k().raw(), WHITE_DWARF_KELVIN)),
            (Temperature::C(a), Temperature::C(b)) | (Temperature::K(a), Temperature::K(b)) => {
                Some(total_cmp(*a, *b))
            },
            (Temperature::C(c), Temperature::K(k)) => Some(
                total_cmp(crate::binary64::sum::sub(*c, K_C_DELTA), *k),
            ),
            (Temperature::K(k), Temperature::C(c)) => Some(
                total_cmp(*k, crate::binary64::sum::sub(*c, K_C_DELTA)),
            ),
        }
    }
}

impl PartialOrdSpecImpl for Temperature {
    open spec fn obeys_partial_cmp_spec() -> bool {
        true
    }

    open spec fn partial_cmp_spec(&self, other: &Temperature) -> Option<Ordering> {
        self.compared(other)
    }
}

impl<N: RawNumber> PartialEq<N> for Temperature {
    fn eq(&self, other: &N) -> (r: bool)
        ensures
            r == (total_cmp_spec(self.raw_spec(), other.bits_spec()) == Ordering::Equal),
    {
        match cmp_number(self, other) {
            Ordering::Equal => true,
            _ => false,
        }
    }
}

impl<N: RawNumber> PartialEqSpecImpl<N> for Temperature {
    open spec fn obeys_eq_spec() -> bool {
        true
    }

    open spec fn eq_spec(&self, other: &N) -> bool {
        total_cmp_spec(self.raw_spec(), other.bits_spec()) == Ordering::Equal
    }
}

impl<N: RawNumber> PartialOrd<N> for Temperature {
    fn partial_cmp(&self, other: &N) -> (r: Option<Ordering>)
        ensures
            r == Some(total_cmp_spec(self.raw_spec(), other.bits_spec())),
    {
        Some(cmp_number(self, other))
    }
}

impl<N: RawNumber> PartialOrdSpecImpl<N> for Temperature {
    open spec fn obeys_partial_cmp_spec() -> bool {
        true
    }

    open spec fn partial_cmp_spec(&self, other: &N) -> Option<Ordering> {
        Some(total_cmp_spec(self.raw_spec(), other.bits_spec()))
    }
}

} // verus!
