//! IAU nominal conversion constants (2009/2015), as binary64 patterns.
use vstd::prelude::*;

verus! {

/// Astronomical unit in meters (exact, IAU 2012 definition): 149 597 870 700.
pub const AU_METERS: u64 = 0x4241_6A5D_2D36_0000;

/// Light-year in meters: 9.4607e15.
pub const LY_METERS: u64 = 0x4340_CE3A_6F69_CC00;

/// Parsec in meters: 3.085677581e16.
pub const PARSEC_METERS: u64 = 0x435B_6804_BE44_6920;

/// Nominal solar radius in meters (IAU 2015 Resolution B3): 695 700 000.
pub const R_SUN_METERS: u64 = 0x41C4_BBC5_1000_0000;

/// Nominal Earth equatorial radius in meters (IAU 2015 Resolution B3):
/// 6 378 100.
pub const R_EARTH_METERS: u64 = 0x4158_549D_0000_0000;

} // verus!
