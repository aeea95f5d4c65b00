//! The length quantity and its conversion table.
use crate::binary64::product::{div_spec, mul_spec};
use crate::spatial::iau::{AU_METERS, LY_METERS, PARSEC_METERS, R_EARTH_METERS, R_SUN_METERS};
use crate::{ratio, DefoAble};
use vstd::prelude::*;

verus! {

/// A length with its unit.
#[derive(Debug, Clone, Copy)]
pub enum SpatialUnit {
    /// Meters.
    M(u64),
    /// Astronomical units.
    Au(u64),
    /// Light-years.
    Ly(u64),
    /// Earth radii.
    RE(u64),
    /// Solar radii.
    RO(u64),
    /// Parsecs.
    Pc(u64),
}

impl SpatialUnit {
    /// The rank of the unit: the higher of two ranks is the unit that both
    /// quantities are brought to before they are compared or combined.
    pub open spec fn rank_spec(&self) -> nat {
        match self {
            SpatialUnit::M(_) => 1,
            SpatialUnit::RE(_) => 2,
            SpatialUnit::RO(_) => 3,
            SpatialUnit::Au(_) => 4,
            SpatialUnit::Ly(_) => 5,
            SpatialUnit::Pc(_) => 6,
        }
    }

    /// Whether two quantities have the same unit.
    pub open spec fn same_unit(&self, other: &SpatialUnit) -> bool {
        self.rank_spec() == other.rank_spec()
    }

    /// The meters in one of the unit, for every unit but the meter itself.
    pub open spec fn meters(&self) -> Option<u64> {
        match self {
            SpatialUnit::M(_) => None,
            SpatialUnit::RE(_) => Some(R_EARTH_METERS),
            SpatialUnit::RO(_) => Some(R_SUN_METERS),
            SpatialUnit::Au(_) => Some(AU_METERS),
            SpatialUnit::Ly(_) => Some(LY_METERS),
            SpatialUnit::Pc(_) => Some(PARSEC_METERS),
        }
    }

    /// The conversion table. Between two units other than the meter the
    /// magnitude is multiplied by the ratio of their lengths in meters; into
    /// meters it is multiplied by the length of the unit, and out of meters
    /// divided by it.
    pub open spec fn converted(&self, target: &SpatialUnit) -> SpatialUnit {
        let v = self.raw_spec();
        target.set_spec(
            if self.same_unit(target) {
                v
            } else {
                match (self.meters(), target.meters()) {
                    (Some(from), Some(to)) => mul_spec(v, div_spec(from, to)),
                    (Some(from), None) => mul_spec(v, from),
                    (None, Some(to)) => div_spec(v, to),
                    (None, None) => v,
                }
            },
        )
    }

    /// Both quantities in the unit of higher rank.
    pub open spec fn unify_spec(&self, other: &SpatialUnit) -> (SpatialUnit, SpatialUnit) {
        if self.rank_spec() > other.rank_spec() {
            (*self, other.converted(self))
        } else if self.rank_spec() < other.rank_spec() {
            (self.converted(other), *other)
        } else {
            (*self, *other)
        }
    }

    /// The rank of the unit.
    pub fn rank(&self) -> (r: u8)
        ensures
            r == self.rank_spec(),
    {
        match self {
            SpatialUnit::M(_) => 1,
            SpatialUnit::RE(_) => 2,
            SpatialUnit::RO(_) => 3,
            SpatialUnit::Au(_) => 4,
            SpatialUnit::Ly(_) => 5,
            SpatialUnit::Pc(_) => 6,
        }
    }

    /// Elevates the lower-ranked length of the two into the unit of the
    /// higher-ranked one.
    pub fn unify(&self, other: &Self) -> (r: (Self, Self))
        ensures
            r == self.unify_spec(other),
            r.0.same_unit(&r.1),
            self.same_unit(other) ==> r == (*self, *other),
    {
        let mine = self.rank();
        let theirs = other.rank();
        if mine > theirs {
            let other_c = match self {
                SpatialUnit::M(_) => other.m(),
                SpatialUnit::RE(_) => other.re(),
                SpatialUnit::RO(_) => other.ro(),
                SpatialUnit::Au(_) => other.au(),
                SpatialUnit::Ly(_) => other.ly(),
                SpatialUnit::Pc(_) => other.pc(),
            };
            (*self, other_c)
        } else if mine < theirs {
            let self_c = self.cnv_into(other);
            (self_c, *other)
        } else {
            (*self, *other)
        }
    }

    /// The length in meters.
    pub fn m(&self) -> (r: SpatialUnit)
        ensures
            r == self.converted(&SpatialUnit::M(0)),
    {
        match self {
            SpatialUnit::M(_) => *self,
            SpatialUnit::RE(v) => SpatialUnit::M(
                crate::binary64::product::mul(*v, R_EARTH_METERS),
            ),
            SpatialUnit::RO(v) => SpatialUnit::M(crate::binary64::product::mul(*v, R_SUN_METERS)),
            SpatialUnit::Au(v) => SpatialUnit::M(crate::binary64::product::mul(*v, AU_METERS)),
            SpatialUnit::Ly(v) => SpatialUnit::M(crate::binary64::product::mul(*v, LY_METERS)),
            SpatialUnit::Pc(v) => SpatialUnit::M(
                crate::binary64::product::mul(*v, PARSEC_METERS),
            ),
        }
    }

    /// The length in Earth radii.
    pub fn re(&self) -> (r: SpatialUnit)
        ensures
            r == self.converted(&SpatialUnit::RE(0)),
    {
        match self {
            SpatialUnit::M(v) => SpatialUnit::RE(ratio(*v, R_EARTH_METERS)),
            SpatialUnit::RE(_) => *self,
            SpatialUnit::RO(v) => SpatialUnit::RE(
                crate::binary64::product::mul(*v, ratio(R_SUN_METERS, R_EARTH_METERS)),
            ),
            SpatialUnit::Au(v) => SpatialUnit::RE(
                crate::binary64::product::mul(*v, ratio(AU_METERS, R_EARTH_METERS)),
            ),
            SpatialUnit::Ly(v) => SpatialUnit::RE(
                crate::binary64::product::mul(*v, ratio(LY_METERS, R_EARTH_METERS)),
            ),
            SpatialUnit::Pc(v) => SpatialUnit::RE(
                crate::binary64::product::mul(*v, ratio(PARSEC_METERS, R_EARTH_METERS)),
            ),
        }
    }

    /// The length in solar radii.
    pub fn ro(&self) -> (r: SpatialUnit)
        ensures
            r == self.converted(&SpatialUnit::RO(0)),
    {
        match self {
            SpatialUnit::M(v) => SpatialUnit::RO(ratio(*v, R_SUN_METERS)),
            SpatialUnit::RE(v) => SpatialUnit::RO(
                crate::binary64::product::mul(*v, ratio(R_EARTH_METERS, R_SUN_METERS)),
            ),
            SpatialUnit::RO(_) => *self,
            SpatialUnit::Au(v) => SpatialUnit::RO(
                crate::binary64::product::mul(*v, ratio(AU_METERS, R_SUN_METERS)),
            ),
            SpatialUnit::Ly(v) => SpatialUnit::RO(
                crate::binary64::product::mul(*v, ratio(LY_METERS, R_SUN_METERS)),
            ),
            SpatialUnit::Pc(v) => SpatialUnit::RO(
                crate::binary64::product::mul(*v, ratio(PARSEC_METERS, R_SUN_METERS)),
            ),
        }
    }

    /// The length in astronomical units.
    pub fn au(&self) -> (r: SpatialUnit)
        ensures
            r == self.converted(&SpatialUnit::Au(0)),
    {
        match self {
            SpatialUnit::M(v) => SpatialUnit::Au(ratio(*v, AU_METERS)),
            SpatialUnit::RE(v) => SpatialUnit::Au(
                crate::binary64::product::mul(*v, ratio(R_EARTH_METERS, AU_METERS)),
            ),
            SpatialUnit::RO(v) => SpatialUnit::Au(
                crate::binary64::product::mul(*v, ratio(R_SUN_METERS, AU_METERS)),
            ),
            SpatialUnit::Au(_) => *self,
            SpatialUnit::Ly(v) => SpatialUnit::Au(
                crate::binary64::product::mul(*v, ratio(LY_METERS, AU_METERS)),
            ),
            SpatialUnit::Pc(v) => SpatialUnit::Au(
                crate::binary64::product::mul(*v, ratio(PARSEC_METERS, AU_METERS)),
            ),
        }
    }

    /// The length in light-years.
    pub fn ly(&self) -> (r: SpatialUnit)
        ensures
            r == self.converted(&SpatialUnit::Ly(0)),
    {
        match self {
            SpatialUnit::M(v) => SpatialUnit::Ly(ratio(*v, LY_METERS)),
            SpatialUnit::RE(v) => SpatialUnit::Ly(
                crate::binary64::product::mul(*v, ratio(R_EARTH_METERS, LY_METERS)),
            ),
            SpatialUnit::RO(v) => SpatialUnit::Ly(
                crate::binary64::product::mul(*v, ratio(R_SUN_METERS, LY_METERS)),
            ),
            SpatialUnit::Au(v) => SpatialUnit::Ly(
                crate::binary64::product::mul(*v, ratio(AU_METERS, LY_METERS)),
            ),
            SpatialUnit::Ly(_) => *self,
            SpatialUnit::Pc(v) => SpatialUnit::Ly(
                crate::binary64::product::mul(*v, ratio(PARSEC_METERS, LY_METERS)),
            ),
        }
    }

    /// The length in parsecs.
    pub fn pc(&self) -> (r: SpatialUnit)
        ensures
            r == self.converted(&SpatialUnit::Pc(0)),
    {
        match self {
            SpatialUnit::M(v) => SpatialUnit::Pc(
                crate::binary64::product::div(*v, PARSEC_METERS),
            ),
            SpatialUnit::RE(v) => SpatialUnit::Pc(
                crate::binary64::product::mul(*v, ratio(R_EARTH_METERS, PARSEC_METERS)),
            ),
            SpatialUnit::RO(v) => SpatialUnit::Pc(
                crate::binary64::product::mul(*v, ratio(R_SUN_METERS, PARSEC_METERS)),
            ),
            SpatialUnit::Au(v) => SpatialUnit::Pc(
                crate::binary64::product::mul(*v, ratio(AU_METERS, PARSEC_METERS)),
            ),
            SpatialUnit::Ly(v) => SpatialUnit::Pc(
                crate::binary64::product::mul(*v, ratio(LY_METERS, PARSEC_METERS)),
            ),
            SpatialUnit::Pc(_) => *self,
        }
    }
}

impl DefoAble for SpatialUnit {
    open spec fn raw_spec(&self) -> u64 {
        match self {
            SpatialUnit::M(v)
            | SpatialUnit::RE(v)
            | SpatialUnit::RO(v)
            | SpatialUnit::Au(v)
            | SpatialUnit::Ly(v)
            | SpatialUnit::Pc(v) => *v,
        }
    }

    open spec fn set_spec(&self, value: u64) -> SpatialUnit {
        match self {
            SpatialUnit::M(_) => SpatialUnit::M(value),
            SpatialUnit::RE(_) => SpatialUnit::RE(value),
            SpatialUnit::RO(_) => SpatialUnit::RO(value),
            SpatialUnit::Au(_) => SpatialUnit::Au(value),
            SpatialUnit::Ly(_) => SpatialUnit::Ly(value),
            SpatialUnit::Pc(_) => SpatialUnit::Pc(value),
        }
    }

    open spec fn cnv_into_spec(&self, other: &SpatialUnit) -> SpatialUnit {
        self.converted(other)
    }

    fn raw(&self) -> (r: u64) {
        match self {
            SpatialUnit::M(v)
            | SpatialUnit::RE(v)
            | SpatialUnit::RO(v)
            | SpatialUnit::Au(v)
            | SpatialUnit::Ly(v)
            | SpatialUnit::Pc(v) => *v,
        }
    }

    fn set(&mut self, value: u64) {
        match self {
            SpatialUnit::M(v) => *v = value,
            SpatialUnit::RE(v) => *v = value,
            SpatialUnit::RO(v) => *v = value,
            SpatialUnit::Au(v) => *v = value,
            SpatialUnit::Ly(v) => *v = value,
            SpatialUnit::Pc(v) => *v = value,
        }
    }

    fn cnv_into(&self, other: &SpatialUnit) -> (r: SpatialUnit) {
        match other {
            SpatialUnit::M(_) => self.m(),
            SpatialUnit::RE(_) => self.re(),
            SpatialUnit::RO(_) => self.ro(),
            SpatialUnit::Au(_) => self.au(),
            SpatialUnit::Ly(_) => self.ly(),
            SpatialUnit::Pc(_) => self.pc(),
        }
    }
}

} // verus!
