//! Raw numbers: what can stand beside a quantity in arithmetic and comparison.
use crate::binary64::integer::{from_i128, from_int_spec, from_u128};
use vstd::prelude::*;

verus! {

/// A number that widens to a binary64 magnitude.
pub trait RawNumber {
    /// The binary64 pattern of the number.
    spec fn bits_spec(&self) -> u64;

    /// The binary64 pattern of the number.
    fn bits(&self) -> (r: u64)
        ensures
            r == self.bits_spec(),
    ;
}

/// A number that already is a binary64 pattern.
#[derive(Debug, Clone, Copy, PartialEq, Eq, Structural)]
pub struct Bits(pub u64);

impl RawNumber for Bits {
    open spec fn bits_spec(&self) -> u64 {
        self.0
    }

    fn bits(&self) -> (r: u64) {
        self.0
    }
}

impl RawNumber for u8 {
    open spec fn bits_spec(&self) -> u64 {
        from_int_spec(*self as int)
    }

    fn bits(&self) -> (r: u64) {
        from_u128(*self as u128)
    }
}

impl RawNumber for u16 {
    open spec fn bits_spec(&self) -> u64 {
        from_int_spec(*self as int)
    }

    fn bits(&self) -> (r: u64) {
        from_u128(*self as u128)
    }
}

impl RawNumber for u32 {
    open spec fn bits_spec(&self) -> u64 {
        from_int_spec(*self as int)
    }

    fn bits(&self) -> (r: u64) {
        from_u128(*self as u128)
    }
}

impl RawNumber for u64 {
    open spec fn bits_spec(&self) -> u64 {
        from_int_spec(*self as int)
    }

    fn bits(&self) -> (r: u64) {
        from_u128(*self as u128)
    }
}

impl RawNumber for u128 {
    open spec fn bits_spec(&self) -> u64 {
        from_int_spec(*self as int)
    }

    fn bits(&self) -> (r: u64) {
        from_u128(*self)
    }
}

impl RawNumber for usize {
    open spec fn bits_spec(&self) -> u64 {
        from_int_spec(*self as int)
    }

    fn bits(&self) -> (r: u64) {
        from_u128(*self as u128)
    }
}

impl RawNumber for i8 {
    open spec fn bits_spec(&self) -> u64 {
        from_int_spec(*self as int)
    }

    fn bits(&self) -> (r: u64) {
        from_i128(*self as i128)
    }
}

impl RawNumber for i16 {
    open spec fn bits_spec(&self) -> u64 {
        from_int_spec(*self as int)
    }

    fn bits(&self) -> (r: u64) {
        from_i128(*self as i128)
    }
}

impl RawNumber for i32 {
    open spec fn bits_spec(&self) -> u64 {
        from_int_spec(*self as int)
    }

    fn bits(&self) -> (r: u64) {
        from_i128(*self as i128)
    }
}

impl RawNumber for i64 {
    open spec fn bits_spec(&self) -> u64 {
        from_int_spec(*self as int)
    }

    fn bits(&self) -> (r: u64) {
        from_i128(*self as i128)
    }
}

impl RawNumber for i128 {
    open spec fn bits_spec(&self) -> u64 {
        from_int_spec(*self as int)
    }

    fn bits(&self) -> (r: u64) {
        from_i128(*self)
    }
}

impl RawNumber for isize {
    open spec fn bits_spec(&self) -> u64 {
        from_int_spec(*self as int)
    }

    fn bits(&self) -> (r: u64) {
        from_i128(*self as i128)
    }
}

} // verus!
