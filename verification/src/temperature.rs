//! Temperature: kelvin, Celsius, and the special cases of stellar remnants.
use vstd::prelude::*;

pub mod arithmetic;
pub mod k;
pub mod laws;
pub mod relation;
pub mod unit;

pub use k::ABS_ZERO;
pub use unit::Temperature;

use crate::number::RawNumber;

verus! {

/// A trait for anything that could fathomably be represented as
/// [Temperature].
pub trait AsTemperature {
    /// What `k` returns.
    spec fn k_spec(&self) -> Temperature;

    /// What `c` returns.
    spec fn c_spec(&self) -> Temperature;

    /// `self` as kelvin.
    fn k(&self) -> (r: Temperature)
        ensures
            r == self.k_spec(),
    ;

    /// `self` as Celsius.
    fn c(&self) -> (r: Temperature)
        ensures
            r == self.c_spec(),
    ;
}

/// A raw number is taken as a magnitude in the unit asked for.
impl<N: RawNumber> AsTemperature for N {
    open spec fn k_spec(&self) -> Temperature {
        Temperature::K(self.bits_spec())
    }

    open spec fn c_spec(&self) -> Temperature {
        Temperature::C(self.bits_spec())
    }

    fn k(&self) -> (r: Temperature) {
        Temperature::K(self.bits())
    }

    fn c(&self) -> (r: Temperature) {
        Temperature::C(self.bits())
    }
}

} // verus!
