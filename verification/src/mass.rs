//! Mass: grams, kilograms, and the masses of Earth, Jupiter and the Sun.
use vstd::prelude::*;

pub mod arithmetic;
pub mod laws;
pub mod relation;
pub mod unit;

pub use unit::Mass;

use crate::number::RawNumber;

verus! {

/// Trait for converting `self` to some specific [Mass]-type.
pub trait AsMass {
    /// What `mo` returns.
    spec fn mo_spec(&self) -> Mass;

    /// What `mj` returns.
    spec fn mj_spec(&self) -> Mass;

    /// What `me` returns.
    spec fn me_spec(&self) -> Mass;

    /// What `kg` returns.
    spec fn kg_spec(&self) -> Mass;

    /// What `g` returns.
    spec fn g_spec(&self) -> Mass;

    /// `self` in solar masses.
    fn mo(&self) -> (r: Mass)
        ensures
            r == self.mo_spec(),
    ;

    /// `self` in Jupiter masses.
    fn mj(&self) -> (r: Mass)
        ensures
            r == self.mj_spec(),
    ;

    /// `self` in Earth masses.
    fn me(&self) -> (r: Mass)
        ensures
            r == self.me_spec(),
    ;

    /// `self` in kilograms.
    fn kg(&self) -> (r: Mass)
        ensures
            r == self.kg_spec(),
    ;

    /// `self` in grams.
    fn g(&self) -> (r: Mass)
        ensures
            r == self.g_spec(),
    ;
}

/// A raw number is taken as a magnitude in the unit asked for.
impl<N: RawNumber> AsMass for N {
    open spec fn mo_spec(&self) -> Mass {
        Mass::MO(self.bits_spec())
    }

    open spec fn mj_spec(&self) -> Mass {
        Mass::MJ(self.bits_spec())
    }

    open spec fn me_spec(&self) -> Mass {
        Mass::ME(self.bits_spec())
    }

    open spec fn kg_spec(&self) -> Mass {
        Mass::Kg(self.bits_spec())
    }

    open spec fn g_spec(&self) -> Mass {
        Mass::G(self.bits_spec())
    }

    fn mo(&self) -> (r: Mass) {
        Mass::MO(self.bits())
    }

    fn mj(&self) -> (r: Mass) {
        Mass::MJ(self.bits())
    }

    fn me(&self) -> (r: Mass) {
        Mass::ME(self.bits())
    }

    fn kg(&self) -> (r: Mass) {
        Mass::Kg(self.bits())
    }

    fn g(&self) -> (r: Mass) {
        Mass::G(self.bits())
    }
}

} // verus!
