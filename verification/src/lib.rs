//! Physical quantities that carry their unit: masses, temperatures and lengths.
//!
//! A quantity is a unit and a magnitude. Quantities of one family convert into
//! each other's units, and they are brought to a common unit before they are
//! compared or combined, so that grams never meet solar masses unconverted.
//!
//! A magnitude is an IEEE 754 binary64 number, held as its bit pattern in a
//! `u64`: `Mass::Kg(1.5f64.to_bits())` is a kilogram and a half. Every
//! conversion, comparison and arithmetic step is an integer computation on
//! such patterns, with the result that IEEE 754 asks for and a proof of it.
//! Whole numbers of any width lift to magnitudes by themselves (`3.kg()`), and
//! [`Bits`] marks a pattern that is a magnitude already.
//!
//! - [`binary64`]: what a pattern stands for, rounding, and the arithmetic.
//! - [`number`]: the raw numbers that can stand beside a quantity.
//! - [`scalar`]: arithmetic and comparison between a quantity and a number.
//! - [`mass`], [`temperature`], [`spatial`]: the three families.
use vstd::prelude::*;

pub mod binary64;
pub mod mass;
pub mod number;
pub mod scalar;
pub mod spatial;
pub mod temperature;

pub use mass::{AsMass, Mass};
pub use number::{Bits, RawNumber};
pub use spatial::iau::{AU_METERS, LY_METERS, PARSEC_METERS, R_EARTH_METERS, R_SUN_METERS};
pub use spatial::{AsSpatialUnit, Megastructure, SpatialContained, SpatialUnit};
pub use temperature::{AsTemperature, Temperature, ABS_ZERO};

use binary64::product::div_spec;

verus! {

/// Generic ratio calc.
pub fn ratio(num: u64, denom: u64) -> (r: u64)
    ensures
        r == div_spec(num, denom),
{
    crate::binary64::product::div(num, denom)
}

/// What every quantity offers: its magnitude, a way to replace it, and
/// conversion into the unit of another quantity of the same family.
pub trait DefoAble: Sized {
    /// The magnitude, as a binary64 pattern.
    spec fn raw_spec(&self) -> u64;

    /// The quantity with its magnitude replaced and its unit kept.
    spec fn set_spec(&self, value: u64) -> Self;

    /// The quantity expressed in the unit of `other`.
    spec fn cnv_into_spec(&self, other: &Self) -> Self;

    /// Get the raw underlying value.
    fn raw(&self) -> (r: u64)
        ensures
            r == self.raw_spec(),
    ;

    /// Set internal value to `value`.
    fn set(&mut self, value: u64)
        ensures
            *final(self) == old(self).set_spec(value),
    ;

    /// Get `self` as the `other` variant.
    fn cnv_into(&self, other: &Self) -> (r: Self)
        ensures
            r == self.cnv_into_spec(other),
    ;
}

/// A trait for anything that can be sensibly squared.
pub trait Squared: Sized {
    /// The square.
    spec fn sq_spec(&self) -> Self;

    /// Self squared.
    fn sq(&self) -> (r: Self)
        ensures
            r == self.sq_spec(),
    ;
}

} // verus!
