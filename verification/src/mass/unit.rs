//! The mass quantity and its conversion table.
use crate::binary64::product::{div_spec, mul_spec};
use crate::{ratio, DefoAble};
use vstd::prelude::*;

verus! {

/// The mass of the Sun in kilograms: 1.98847e30.
pub const SOL_KG: u64 = 0x4639_1917_D528_1CD0;

/// The mass of Jupiter in kilograms: 1.89813e27.
pub const JUP_KG: u64 = 0x4598_8862_A5EE_9661;

/// The mass of Earth in kilograms: 5.9722e24.
pub const EARTH_KG: u64 = 0x4513_C2A6_7162_2121;

/// The grams in a kilogram: 1000.
pub const GRAMS_PER_KG: u64 = 0x408F_4000_0000_0000;

/// Some mass "magnitudes".
#[derive(Debug, Clone, Copy)]
pub enum Mass {
    /// Grams.
    G(u64),
    /// Kilograms.
    Kg(u64),
    /// Earth masses.
    ME(u64),
    /// Jupiter masses.
    MJ(u64),
    /// Solar masses.
    MO(u64),
}

/// Grams to kilograms.
pub fn g_to_kg(g: u64) -> (r: u64)
    ensures
        r == div_spec(g, GRAMS_PER_KG),
{
    crate::binary64::product::div(g, GRAMS_PER_KG)
}

/// Kilograms to grams.
pub fn kg_to_g(kg: u64) -> (r: u64)
    ensures
        r == mul_spec(kg, GRAMS_PER_KG),
{
    crate::binary64::product::mul(kg, GRAMS_PER_KG)
}

impl Mass {
    /// The rank of the unit: the higher of two ranks is the unit that both
    /// quantities are brought to before they are compared or combined.
    pub open spec fn rank_spec(&self) -> nat {
        match self {
            Mass::G(_) => 1,
            Mass::Kg(_) => 2,
            Mass::ME(_) => 3,
            Mass::MJ(_) => 4,
            Mass::MO(_) => 5,
        }
    }

    /// Whether two quantities have the same unit.
    pub open spec fn same_unit(&self, other: &Mass) -> bool {
        self.rank_spec() == other.rank_spec()
    }

    /// The kilograms in one of the unit, for the units that are the mass of a
    /// body.
    pub open spec fn body_kg(&self) -> Option<u64> {
        match self {
            Mass::ME(_) => Some(EARTH_KG),
            Mass::MJ(_) => Some(JUP_KG),
            Mass::MO(_) => Some(SOL_KG),
            _ => None,
        }
    }

    /// The conversion table. Between two bodies the magnitude is multiplied by
    /// the ratio of their masses; between a body and kilograms or grams it is
    /// multiplied or divided by the body's mass in that unit.
    pub open spec fn converted(&self, target: &Mass) -> Mass {
        let v = self.raw_spec();
        target.set_spec(
            if self.same_unit(target) {
                v
            } else {
                match (self.body_kg(), target.body_kg()) {
                    (Some(from), Some(to)) => mul_spec(v, div_spec(from, to)),
                    (Some(from), None) => if target is Kg {
                        mul_spec(v, from)
                    } else {
                        mul_spec(v, mul_spec(from, GRAMS_PER_KG))
                    },
                    (None, Some(to)) => if self is Kg {
                        div_spec(v, to)
                    } else {
                        div_spec(v, mul_spec(to, GRAMS_PER_KG))
                    },
                    (None, None) => if self is Kg {
                        mul_spec(v, GRAMS_PER_KG)
                    } else {
                        div_spec(v, GRAMS_PER_KG)
                    },
                }
            },
        )
    }

    /// Both quantities in the unit of higher rank.
    pub open spec fn unify_spec(&self, other: &Mass) -> (Mass, Mass) {
        if self.rank_spec() > other.rank_spec() {
            (*self, other.converted(self))
        } else if self.rank_spec() < other.rank_spec() {
            (self.converted(other), *other)
        } else {
            (*self, *other)
        }
    }

    /// The rank of the unit.
    pub fn rank(&self) -> (r: u8)
        ensures
            r == self.rank_spec(),
    {
        match self {
            Mass::G(_) => 1,
            Mass::Kg(_) => 2,
            Mass::ME(_) => 3,
            Mass::MJ(_) => 4,
            Mass::MO(_) => 5,
        }
    }

    /// Elevates the lower-ranked mass of the two into the unit of the
    /// higher-ranked one.
    pub fn unify(&self, other: &Self) -> (r: (Self, Self))
        ensures
            r == self.unify_spec(other),
            r.0.same_unit(&r.1),
            self.same_unit(other) ==> r == (*self, *other),
    {
        let mine = self.rank();
        let theirs = other.rank();
        if mine > theirs {
            let other_c = match self {
                Mass::MO(_) => other.mo(),
                Mass::MJ(_) => other.mj(),
                Mass::ME(_) => other.me(),
                Mass::Kg(_) => other.kg(),
                Mass::G(_) => other.g(),
            };
            (*self, other_c)
        } else if mine < theirs {
            let self_c = self.cnv_into(other);
            (self_c, *other)
        } else {
            (*self, *other)
        }
    }
}

impl DefoAble for Mass {
    open spec fn raw_spec(&self) -> u64 {
        match self {
            Mass::MO(v) | Mass::MJ(v) | Mass::ME(v) | Mass::Kg(v) | Mass::G(v) => *v,
        }
    }

    open spec fn set_spec(&self, value: u64) -> Mass {
        match self {
            Mass::G(_) => Mass::G(value),
            Mass::Kg(_) => Mass::Kg(value),
            Mass::ME(_) => Mass::ME(value),
            Mass::MJ(_) => Mass::MJ(value),
            Mass::MO(_) => Mass::MO(value),
        }
    }

    open spec fn cnv_into_spec(&self, other: &Mass) -> Mass {
        self.converted(other)
    }

    fn raw(&self) -> (r: u64) {
        match self {
            Mass::MO(v) | Mass::MJ(v) | Mass::ME(v) | Mass::Kg(v) | Mass::G(v) => *v,
        }
    }

    fn set(&mut self, to: u64) {
        match self {
            Mass::MO(v) => *v = to,
            Mass::MJ(v) => *v = to,
            Mass::ME(v) => *v = to,
            Mass::Kg(v) => *v = to,
            Mass::G(v) => *v = to,
        }
    }

    fn cnv_into(&self, other: &Mass) -> (r: Mass) {
        match other {
            Mass::G(_) => self.g(),
            Mass::Kg(_) => self.kg(),
            Mass::ME(_) => self.me(),
            Mass::MJ(_) => self.mj(),
            Mass::MO(_) => self.mo(),
        }
    }
}

impl Mass {
    /// The mass in solar masses.
    pub fn mo(&self) -> (r: Mass)
        ensures
            r == self.converted(&Mass::MO(0)),
    {
        match self {
            Mass::MO(_) => *self,
            Mass::MJ(v) => Mass::MO(crate::binary64::product::mul(*v, ratio(JUP_KG, SOL_KG))),
            Mass::ME(v) => Mass::MO(crate::binary64::product::mul(*v, ratio(EARTH_KG, SOL_KG))),
            Mass::Kg(v) => Mass::MO(crate::binary64::product::div(*v, SOL_KG)),
            Mass::G(v) => Mass::MO(crate::binary64::product::div(*v, kg_to_g(SOL_KG))),
        }
    }

    /// The mass in Jupiter masses.
    pub fn mj(&self) -> (r: Mass)
        ensures
            r == self.converted(&Mass::MJ(0)),
    {
        match self {
            Mass::MO(v) => Mass::MJ(crate::binary64::product::mul(*v, ratio(SOL_KG, JUP_KG))),
            Mass::MJ(_) => *self,
            Mass::ME(v) => Mass::MJ(crate::binary64::product::mul(*v, ratio(EARTH_KG, JUP_KG))),
            Mass::Kg(v) => Mass::MJ(crate::binary64::product::div(*v, JUP_KG)),
            Mass::G(v) => Mass::MJ(crate::binary64::product::div(*v, kg_to_g(JUP_KG))),
        }
    }

    /// The mass in Earth masses.
    pub fn me(&self) -> (r: Mass)
        ensures
            r == self.converted(&Mass::ME(0)),
    {
        match self {
            Mass::MO(v) => Mass::ME(crate::binary64::product::mul(*v, ratio(SOL_KG, EARTH_KG))),
            Mass::MJ(v) => Mass::ME(crate::binary64::product::mul(*v, ratio(JUP_KG, EARTH_KG))),
            Mass::ME(_) => *self,
            Mass::Kg(v) => Mass::ME(crate::binary64::product::div(*v, EARTH_KG)),
            Mass::G(v) => Mass::ME(crate::binary64::product::div(*v, kg_to_g(EARTH_KG))),
        }
    }

    /// The mass in kilograms.
    pub fn kg(&self) -> (r: Mass)
        ensures
            r == self.converted(&Mass::Kg(0)),
    {
        match self {
            Mass::MO(v) => Mass::Kg(crate::binary64::product::mul(*v, SOL_KG)),
            Mass::MJ(v) => Mass::Kg(crate::binary64::product::mul(*v, JUP_KG)),
            Mass::ME(v) => Mass::Kg(crate::binary64::product::mul(*v, EARTH_KG)),
            Mass::Kg(_) => *self,
            Mass::G(v) => Mass::Kg(g_to_kg(*v)),
        }
    }

    /// The mass in grams.
    pub fn g(&self) -> (r: Mass)
        ensures
            r == self.converted(&Mass::G(0)),
    {
        match self {
            Mass::MO(v) => Mass::G(crate::binary64::product::mul(*v, kg_to_g(SOL_KG))),
            Mass::MJ(v) => Mass::G(crate::binary64::product::mul(*v, kg_to_g(JUP_KG))),
            Mass::ME(v) => Mass::G(crate::binary64::product::mul(*v, kg_to_g(EARTH_KG))),
            Mass::Kg(v) => Mass::G(kg_to_g(*v)),
            Mass::G(_) => *self,
        }
    }
}

} // verus!
