//! Kelvin specific stuff: absolute zero and the offset to Celsius.
use vstd::prelude::*;

verus! {

/// Absolute zero: the magnitude of zero kelvin.
pub const ABS_ZERO: u64 = 0;

/// The offset between the kelvin and the Celsius scale: 273.15.
pub const K_C_DELTA: u64 = 0x4071_1266_6666_6666;

/// The temperature that a neutron star stands for, in kelvin: 1 000 000.
pub const NEUTRON_KELVIN: u64 = 0x412E_8480_0000_0000;

/// The temperature that a white dwarf stands for, in kelvin: 100 000.
pub const WHITE_DWARF_KELVIN: u64 = 0x40F8_6A00_0000_0000;

} // verus!
