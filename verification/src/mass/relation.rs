//! Equality and order of masses, among themselves and against raw numbers.
//!
//! Two masses are first brought to the unit of higher rank; their magnitudes
//! are then compared in the total order of binary64 patterns. A raw number is
//! compared with the magnitude as it stands.
use crate::binary64::order::{total_cmp, total_cmp_spec};
use crate::mass::unit::Mass;
use crate::number::RawNumber;
use crate::scalar::cmp_number;
use crate::DefoAble;
use std::cmp::Ordering;
use vstd::prelude::*;
use vstd::std_specs::cmp::{PartialEqSpecImpl, PartialOrdSpecImpl};

verus! {

impl Mass {
    /// How `self` compares with `other` once both are in one unit.
    pub open spec fn compared(&self, other: &Mass) -> Ordering {
        let unified = self.unify_spec(other);
        total_cmp_spec(unified.0.raw_spec(), unified.1.raw_spec())
    }
}

impl PartialEq for Mass {
    fn eq(&self, other: &Mass) -> (r: bool)
        ensures
            r == (self.compared(other) == Ordering::Equal),
    {
        let (s, o) = self.unify(other);
        match total_cmp(s.raw(), o.raw()) {
            Ordering::Equal => true,
            _ => false,
        }
    }
}

impl PartialEqSpecImpl for Mass {
    open spec fn obeys_eq_spec() -> bool {
        true
    }

    open spec fn eq_spec(&self, other: &Mass) -> bool {
        self.compared(other) == Ordering::Equal
    }
}

impl PartialOrd for Mass {
    fn partial_cmp(&self, other: &Mass) -> (r: Option<Ordering>)
        ensures
            r == Some(self.compared(other)),
    {
        let (s, o) = self.unify(other);
        Some(total_cmp(s.raw(), o.raw()))
    }
}

impl PartialOrdSpecImpl for Mass {
    open spec fn obeys_partial_cmp_spec() -> bool {
        true
    }

    open spec fn partial_cmp_spec(&self, other: &Mass) -> Option<Ordering> {
        Some(self.compared(other))
    }
}

impl<N: RawNumber> PartialEq<N> for Mass {
    fn eq(&self, other: &N) -> (r: bool)
        ensures
            r == (total_cmp_spec(self.raw_spec(), other.bits_spec()) == Ordering::Equal),
    {
        match cmp_number(self, other) {
            Ordering::Equal => true,
            _ => false,
        }
    }
}

impl<N: RawNumber> PartialEqSpecImpl<N> for Mass {
    open spec fn obeys_eq_spec() -> bool {
        true
    }

    open spec fn eq_spec(&self, other: &N) -> bool {
        total_cmp_spec(self.raw_spec(), other.bits_spec()) == Ordering::Equal
    }
}

impl<N: RawNumber> PartialOrd<N> for Mass {
    fn partial_cmp(&self, other: &N) -> (r: Option<Ordering>)
        ensures
            r == Some(total_cmp_spec(self.raw_spec(), other.bits_spec())),
    {
        Some(cmp_number(self, other))
    }
}

impl<N: RawNumber> PartialOrdSpecImpl<N> for Mass {
    open spec fn obeys_partial_cmp_spec() -> bool {
        true
    }

    open spec fn partial_cmp_spec(&self, other: &N) -> Option<Ordering> {
        Some(total_cmp_spec(self.raw_spec(), other.bits_spec()))
    }
}

} // verus!
