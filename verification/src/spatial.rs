//! Length, distance, radii etc.
use vstd::prelude::*;

pub mod arithmetic;
pub mod iau;
pub mod laws;
pub mod megastruct;
pub mod relation;
pub mod unit;

pub use megastruct::{Megastructure, SpatialContained};
pub use unit::SpatialUnit;

use crate::number::RawNumber;

verus! {

/// Trait for converting `self` to some specific [SpatialUnit]-type.
pub trait AsSpatialUnit {
    /// What `m` returns.
    spec fn m_spec(&self) -> SpatialUnit;

    /// What `au` returns.
    spec fn au_spec(&self) -> SpatialUnit;

    /// What `ly` returns.
    spec fn ly_spec(&self) -> SpatialUnit;

    /// What `re` returns.
    spec fn re_spec(&self) -> SpatialUnit;

    /// What `ro` returns.
    spec fn ro_spec(&self) -> SpatialUnit;

    /// What `pc` returns.
    spec fn pc_spec(&self) -> SpatialUnit;

    /// `self` in meters.
    fn m(&self) -> (r: SpatialUnit)
        ensures
            r == self.m_spec(),
    ;

    /// `self` in astronomical units.
    fn au(&self) -> (r: SpatialUnit)
        ensures
            r == self.au_spec(),
    ;

    /// `self` in light-years.
    fn ly(&self) -> (r: SpatialUnit)
        ensures
            r == self.ly_spec(),
    ;

    /// `self` in Earth radii.
    fn re(&self) -> (r: SpatialUnit)
        ensures
            r == self.re_spec(),
    ;

    /// `self` in solar radii.
    fn ro(&self) -> (r: SpatialUnit)
        ensures
            r == self.ro_spec(),
    ;

    /// `self` in parsecs.
    fn pc(&self) -> (r: SpatialUnit)
        ensures
            r == self.pc_spec(),
    ;
}

/// A raw number is taken as a magnitude in the unit asked for.
impl<N: RawNumber> AsSpatialUnit for N {
    open spec fn m_spec(&self) -> SpatialUnit {
        SpatialUnit::M(self.bits_spec())
    }

    open spec fn au_spec(&self) -> SpatialUnit {
        SpatialUnit::Au(self.bits_spec())
    }

    open spec fn ly_spec(&self) -> SpatialUnit {
        SpatialUnit::Ly(self.bits_spec())
    }

    open spec fn re_spec(&self) -> SpatialUnit {
        SpatialUnit::RE(self.bits_spec())
    }

    open spec fn ro_spec(&self) -> SpatialUnit {
        SpatialUnit::RO(self.bits_spec())
    }

    open spec fn pc_spec(&self) -> SpatialUnit {
        SpatialUnit::Pc(self.bits_spec())
    }

    fn m(&self) -> (r: SpatialUnit) {
        SpatialUnit::M(self.bits())
    }

    fn au(&self) -> (r: SpatialUnit) {
        SpatialUnit::Au(self.bits())
    }

    fn ly(&self) -> (r: SpatialUnit) {
        SpatialUnit::Ly(self.bits())
    }

    fn re(&self) -> (r: SpatialUnit) {
        SpatialUnit::RE(self.bits())
    }

    fn ro(&self) -> (r: SpatialUnit) {
        SpatialUnit::RO(self.bits())
    }

    fn pc(&self) -> (r: SpatialUnit) {
        SpatialUnit::Pc(self.bits())
    }
}

} // verus!
