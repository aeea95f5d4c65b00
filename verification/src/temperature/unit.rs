//! The temperature quantity: two scales and three stellar remnants.
//!
//! The two scales lie 273.15 apart: a Celsius magnitude less the offset is the
//! kelvin magnitude, and a kelvin magnitude plus the offset is the Celsius
//! magnitude. A white dwarf and a neutron star stand for fixed temperatures; a
//! black hole stands for none.
use crate::binary64::model::NAN;
use crate::binary64::product::mul_spec;
use crate::binary64::sum::{add_spec, sub_spec};
use crate::number::RawNumber;
use crate::temperature::k::{K_C_DELTA, NEUTRON_KELVIN, WHITE_DWARF_KELVIN};
use crate::{DefoAble, Squared};
use vstd::prelude::*;
use vstd::std_specs::convert::FromSpecImpl;

verus! {

/// Temperature variants.
#[derive(Debug, Clone, Copy)]
pub enum Temperature {
    /// White dwarf: stands for a fixed 100 000 kelvin.
    D,
    /// Neutron star: stands for a fixed 1 000 000 kelvin.
    N,
    /// Black hole: has no temperature that a number could give.
    X,
    /// Kelvin.
    K(u64),
    /// Celsius.
    C(u64),
}

impl Temperature {
    /// Whether the variant carries no magnitude of its own.
    pub open spec fn is_sentinel(&self) -> bool {
        *self is D || *self is N || *self is X
    }

    /// The temperature in kelvin. A remnant gives the temperature that it
    /// stands for, a black hole stays what it is.
    pub open spec fn in_kelvin(&self) -> Temperature {
        match self {
            Temperature::K(v) => Temperature::K(*v),
            Temperature::C(v) => Temperature::K(sub_spec(*v, K_C_DELTA)),
            Temperature::N => Temperature::K(NEUTRON_KELVIN),
            Temperature::D => Temperature::K(WHITE_DWARF_KELVIN),
            Temperature::X => Temperature::X,
        }
    }

    /// The temperature in Celsius. A remnant gives the temperature that it
    /// stands for, a black hole stays what it is.
    pub open spec fn in_celsius(&self) -> Temperature {
        match self {
            Temperature::C(v) => Temperature::C(*v),
            Temperature::K(v) => Temperature::C(add_spec(*v, K_C_DELTA)),
            Temperature::N => Temperature::C(add_spec(NEUTRON_KELVIN, K_C_DELTA)),
            Temperature::D => Temperature::C(add_spec(WHITE_DWARF_KELVIN, K_C_DELTA)),
            Temperature::X => Temperature::X,
        }
    }

    /// The temperature in the shape of `target`. A black hole stays a black
    /// hole whatever the target; any other temperature becomes the remnant that
    /// the target is, save that a neutron star does not cool to a white dwarf.
    pub open spec fn converted(&self, target: &Temperature) -> Temperature {
        match target {
            Temperature::X => Temperature::X,
            Temperature::N => if *self is X {
                Temperature::X
            } else {
                Temperature::N
            },
            Temperature::D => if *self is X {
                Temperature::X
            } else if *self is N {
                Temperature::N
            } else {
                Temperature::D
            },
            Temperature::C(_) => self.in_celsius(),
            Temperature::K(_) => self.in_kelvin(),
        }
    }

    /// `self` as kelvin.
    pub fn k(&self) -> (r: Temperature)
        ensures
            r == self.in_kelvin(),
    {
        match self {
            Temperature::K(_) => *self,
            Temperature::C(v) => Temperature::K(crate::binary64::sum::sub(*v, K_C_DELTA)),
            Temperature::N => Temperature::K(NEUTRON_KELVIN),
            Temperature::D => Temperature::K(WHITE_DWARF_KELVIN),
            Temperature::X => Temperature::X,
        }
    }

    /// `self` as Celsius.
    pub fn c(&self) -> (r: Temperature)
        ensures
            r == self.in_celsius(),
    {
        match self {
            Temperature::C(_) => *self,
            Temperature::K(v) => Temperature::C(crate::binary64::sum::add(*v, K_C_DELTA)),
            Temperature::N => Temperature::C(
                crate::binary64::sum::add(NEUTRON_KELVIN, K_C_DELTA),
            ),
            Temperature::D => Temperature::C(
                crate::binary64::sum::add(WHITE_DWARF_KELVIN, K_C_DELTA),
            ),
            Temperature::X => Temperature::X,
        }
    }
}

impl DefoAble for Temperature {
    /// The magnitude. A remnant gives the kelvin that it stands for; a black
    /// hole gives not-a-number.
    open spec fn raw_spec(&self) -> u64 {
        match self {
            Temperature::C(v) | Temperature::K(v) => *v,
            Temperature::D => WHITE_DWARF_KELVIN,
            Temperature::N => NEUTRON_KELVIN,
            Temperature::X => NAN,
        }
    }

    /// The magnitude replaced where there is one: a remnant stays as it is.
    open spec fn set_spec(&self, value: u64) -> Temperature {
        match self {
            Temperature::C(_) => Temperature::C(value),
            Temperature::K(_) => Temperature::K(value),
            _ => *self,
        }
    }

    open spec fn cnv_into_spec(&self, other: &Temperature) -> Temperature {
        self.converted(other)
    }

    fn raw(&self) -> (r: u64) {
        match self {
            Temperature::C(v) | Temperature::K(v) => *v,
            Temperature::D => WHITE_DWARF_KELVIN,
            Temperature::N => NEUTRON_KELVIN,
            Temperature::X => NAN,
        }
    }

    fn set(&mut self, to: u64) {
        match self {
            Temperature::C(v) => *v = to,
            Temperature::K(v) => *v = to,
            // Stellar remnants stubbornly stay stubborn.
            Temperature::D | Temperature::N | Temperature::X => (),
        }
    }

    fn cnv_into(&self, other: &Temperature) -> (r: Temperature) {
        match other {
            Temperature::X => Temperature::X,
            Temperature::N => match self {
                Temperature::X => Temperature::X,
                _ => Temperature::N,
            },
            Temperature::D => match self {
                Temperature::X => Temperature::X,
                Temperature::N => Temperature::N,
                _ => Temperature::D,
            },
            Temperature::C(_) => self.c(),
            Temperature::K(_) => self.k(),
        }
    }
}

/// A raw number is a temperature in kelvin.
impl<N: RawNumber> From<N> for Temperature {
    fn from(value: N) -> (r: Temperature)
        ensures
            r == Temperature::K(value.bits_spec()),
    {
        Temperature::K(value.bits())
    }
}

impl<N: RawNumber> FromSpecImpl<N> for Temperature {
    open spec fn obeys_from_spec() -> bool {
        true
    }

    open spec fn from_spec(value: N) -> Temperature {
        Temperature::K(value.bits_spec())
    }
}

impl Squared for Temperature {
    /// The magnitude squared, in the same unit; a remnant stays as it is.
    open spec fn sq_spec(&self) -> Temperature {
        self.set_spec(mul_spec(self.raw_spec(), self.raw_spec()))
    }

    /// Self squared.
    ///
    /// Note that squaring temperature values is usually utterly meaningless,
    /// but it is useful in some equations.
    fn sq(&self) -> (r: Temperature) {
        match self {
            Temperature::C(v) => Temperature::C(crate::binary64::product::mul(*v, *v)),
            Temperature::K(v) => Temperature::K(crate::binary64::product::mul(*v, *v)),
            // No point to do anything about these:
            Temperature::D => Temperature::D,
            Temperature::N => Temperature::N,
            Temperature::X => Temperature::X,
        }
    }
}

} // verus!
