//! Megastructures: regions made of nested ranges of length.
use crate::number::Bits;
use crate::spatial::unit::SpatialUnit;
use crate::spatial::AsSpatialUnit;
use std::cmp::Ordering;
use std::ops::RangeInclusive;
use vstd::prelude::*;
use vstd::std_specs::convert::FromSpecImpl;
use vstd::std_specs::range::RangeInclusiveView;

verus! {

/// Spatials for megastructures (e.g. galaxies).
#[derive(Debug)]
pub enum Megastructure {
    /// Galactic radii. The three ranges may overlap.
    GR {
        visible_disk: RangeInclusive<SpatialUnit>,
        arms: RangeInclusive<SpatialUnit>,
        halo: RangeInclusive<SpatialUnit>,
    },
}

/// For e.g. [`Megastructure::contains()`].
#[derive(Debug, Clone, Copy, PartialEq, Eq, Structural)]
pub enum SpatialContained {
    VisibleDisk,
    Arms,
    Halo,
}

/// Whether a length lies within a range, both ends included. Each end is
/// compared with the length after the two are brought to one unit.
pub open spec fn within(range: RangeInclusiveView<SpatialUnit>, s: &SpatialUnit) -> bool {
    range.start.compared(s) != Ordering::Greater && if range.exhausted {
        s.compared(&range.end) == Ordering::Less
    } else {
        s.compared(&range.end) != Ordering::Greater
    }
}

impl Megastructure {
    /// The first of disk, arms and halo that holds the length.
    pub open spec fn contains_spec(&self, s: &SpatialUnit) -> Option<SpatialContained> {
        match self {
            Megastructure::GR { visible_disk, arms, halo } => {
                if within(visible_disk@, s) {
                    Some(SpatialContained::VisibleDisk)
                } else if within(arms@, s) {
                    Some(SpatialContained::Arms)
                } else if within(halo@, s) {
                    Some(SpatialContained::Halo)
                } else {
                    None
                }
            },
        }
    }

    /// Check which range contains `s`, if any do.
    pub fn contains(&self, s: &SpatialUnit) -> (r: Option<SpatialContained>)
        ensures
            r == self.contains_spec(s),
    {
        match self {
            Megastructure::GR { visible_disk, arms, halo } => {
                if visible_disk.contains(s) {
                    Some(SpatialContained::VisibleDisk)
                } else if arms.contains(s) {
                    Some(SpatialContained::Arms)
                } else if halo.contains(s) {
                    Some(SpatialContained::Halo)
                } else {
                    None
                }
            },
        }
    }
}

/// The two ends of a range of length.
pub type Span = (SpatialUnit, SpatialUnit);

impl From<(Span, Span, Span)> for Megastructure {
    fn from(value: (Span, Span, Span)) -> (r: Megastructure)
        ensures
            r matches Megastructure::GR { visible_disk, arms, halo } && {
                &&& visible_disk@ == (RangeInclusiveView {
                    start: value.0.0,
                    end: value.0.1,
                    exhausted: false,
                })
                &&& arms@ == (RangeInclusiveView {
                    start: value.1.0,
                    end: value.1.1,
                    exhausted: false,
                })
                &&& halo@ == (RangeInclusiveView {
                    start: value.2.0,
                    end: value.2.1,
                    exhausted: false,
                })
            },
    {
        Megastructure::GR {
            visible_disk: RangeInclusive::new(value.0.0, value.0.1),
            arms: RangeInclusive::new(value.1.0, value.1.1),
            halo: RangeInclusive::new(value.2.0, value.2.1),
        }
    }
}

impl FromSpecImpl<(Span, Span, Span)> for Megastructure {
    open spec fn obeys_from_spec() -> bool {
        false
    }

    open spec fn from_spec(value: (Span, Span, Span)) -> Megastructure {
        arbitrary()
    }
}

/// The two ends of a range as raw numbers.
pub type RawSpan = (Bits, Bits);

/// Raw numbers are light-years.
impl From<(RawSpan, RawSpan, RawSpan)> for Megastructure {
    fn from(value: (RawSpan, RawSpan, RawSpan)) -> (r: Megastructure)
        ensures
            r matches Megastructure::GR { visible_disk, arms, halo } && {
                &&& visible_disk@ == (RangeInclusiveView {
                    start: SpatialUnit::Ly(value.0.0.0),
                    end: SpatialUnit::Ly(value.0.1.0),
                    exhausted: false,
                })
                &&& arms@ == (RangeInclusiveView {
                    start: SpatialUnit::Ly(value.1.0.0),
                    end: SpatialUnit::Ly(value.1.1.0),
                    exhausted: false,
                })
                &&& halo@ == (RangeInclusiveView {
                    start: SpatialUnit::Ly(value.2.0.0),
                    end: SpatialUnit::Ly(value.2.1.0),
                    exhausted: false,
                })
            },
    {
        Megastructure::GR {
            visible_disk: RangeInclusive::new(value.0.0.ly(), value.0.1.ly()),
            arms: RangeInclusive::new(value.1.0.ly(), value.1.1.ly()),
            halo: RangeInclusive::new(value.2.0.ly(), value.2.1.ly()),
        }
    }
}

impl FromSpecImpl<(RawSpan, RawSpan, RawSpan)> for Megastructure {
    open spec fn obeys_from_spec() -> bool {
        false
    }

    open spec fn from_spec(value: (RawSpan, RawSpan, RawSpan)) -> Megastructure {
        arbitrary()
    }
}

} // verus!
