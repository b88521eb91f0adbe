//! The damage tiers of a ship.

use vstd::prelude::*;

verus! {

/// How badly a ship is damaged, from untouched to sunk.
#[derive(Clone, Copy, Debug, PartialEq, Eq, Structural, PartialOrd)]
pub enum DamagedLevel {
    NoDamage,
    Minor,
    Moderate,
    Heavy,
    Sunk,
}

/// Tier of a ship with `hp` of `max_hp` hit points: `NoDamage` above 75%,
/// `Minor` above 50%, `Moderate` above 25%, `Heavy` above zero, `Sunk` at zero.
pub open spec fn damaged_level_of(hp: u16, max_hp: u16) -> DamagedLevel {
    if hp == 0 {
        DamagedLevel::Sunk
    } else if 4 * hp <= max_hp {
        DamagedLevel::Heavy
    } else if 2 * hp <= max_hp {
        DamagedLevel::Moderate
    } else if 4 * hp <= 3 * max_hp {
        DamagedLevel::Minor
    } else {
        DamagedLevel::NoDamage
    }
}

impl DamagedLevel {
    /// Position of the tier in the order `NoDamage < Minor < Moderate < Heavy < Sunk`.
    pub open spec fn severity(self) -> nat {
        match self {
            DamagedLevel::NoDamage => 0,
            DamagedLevel::Minor => 1,
            DamagedLevel::Moderate => 2,
            DamagedLevel::Heavy => 3,
            DamagedLevel::Sunk => 4,
        }
    }

    /// Firepower multiplier of the tier in tenths: 1.0, 1.0, 0.7, 0.4 and 0.0.
    pub open spec fn spec_fp_factor(self) -> nat {
        match self {
            DamagedLevel::NoDamage => 10,
            DamagedLevel::Minor => 10,
            DamagedLevel::Moderate => 7,
            DamagedLevel::Heavy => 4,
            DamagedLevel::Sunk => 0,
        }
    }

    /// Tier of a ship with `hp` of `max_hp` hit points.
    pub fn of(hp: u16, max_hp: u16) -> (r: DamagedLevel)
        ensures
            r == damaged_level_of(hp, max_hp),
    {
        let hp4: u32 = 4 * (hp as u32);
        let max: u32 = max_hp as u32;
        if hp == 0 {
            DamagedLevel::Sunk
        } else if hp4 <= max {
            DamagedLevel::Heavy
        } else if 2 * (hp as u32) <= max {
            DamagedLevel::Moderate
        } else if hp4 <= 3 * max {
            DamagedLevel::Minor
        } else {
            DamagedLevel::NoDamage
        }
    }

    /// Firepower multiplier of the tier, in tenths.
    pub fn fp_factor(&self) -> (r: u32)
        ensures
            r == self.spec_fp_factor(),
    {
        match self {
            DamagedLevel::NoDamage => 10,
            DamagedLevel::Minor => 10,
            DamagedLevel::Moderate => 7,
            DamagedLevel::Heavy => 4,
            DamagedLevel::Sunk => 0,
        }
    }

    /// Whether the tier is `Moderate` or worse.
    pub fn at_least_moderate(&self) -> (b: bool)
        ensures
            b == (self.severity() >= 2),
    {
        match self {
            DamagedLevel::NoDamage => false,
            DamagedLevel::Minor => false,
            _ => true,
        }
    }
}

} // verus!
