//! The direction in which the fleets meet.

use crate::dice::random_unit;
use vstd::prelude::*;

verus! {

/// How the two fleets meet. It is drawn once, when the battle starts.
#[derive(Clone, Copy, Debug, PartialEq, Eq, Structural)]
pub enum BattleDirection {
    Same,
    Against,
    TAdvantage,
    TDisadvantage,
}

/// The direction that a draw `r = roll / 2^32` from the unit interval stands for:
/// `Same` below 0.45, `Against` below 0.75, `TAdvantage` below 0.9, else
/// `TDisadvantage`.
pub open spec fn direction_of(roll: u32) -> BattleDirection {
    if 100 * roll < 45 * 0x1_0000_0000 {
        BattleDirection::Same
    } else if 100 * roll < 75 * 0x1_0000_0000 {
        BattleDirection::Against
    } else if 100 * roll < 90 * 0x1_0000_0000 {
        BattleDirection::TAdvantage
    } else {
        BattleDirection::TDisadvantage
    }
}

impl BattleDirection {
    /// Firepower multiplier of the direction in tenths: 1.0, 0.8, 1.2 and 0.6.
    pub open spec fn spec_fp_factor(self) -> nat {
        match self {
            BattleDirection::Same => 10,
            BattleDirection::Against => 8,
            BattleDirection::TAdvantage => 12,
            BattleDirection::TDisadvantage => 6,
        }
    }

    /// Firepower multiplier of the direction, in tenths.
    pub fn fp_factor(&self) -> (r: u32)
        ensures
            r == self.spec_fp_factor(),
    {
        match self {
            BattleDirection::Same => 10,
            BattleDirection::Against => 8,
            BattleDirection::TAdvantage => 12,
            BattleDirection::TDisadvantage => 6,
        }
    }

    /// The direction for a given draw from the unit interval.
    pub fn from_roll(roll: u32) -> (r: BattleDirection)
        ensures
            r == direction_of(roll),
    {
        let scaled: u64 = 100 * (roll as u64);
        if scaled < 45 * 0x1_0000_0000 {
            BattleDirection::Same
        } else if scaled < 75 * 0x1_0000_0000 {
            BattleDirection::Against
        } else if scaled < 90 * 0x1_0000_0000 {
            BattleDirection::TAdvantage
        } else {
            BattleDirection::TDisadvantage
        }
    }

    /// Draws a direction: 45% `Same`, 30% `Against`, 15% `TAdvantage`, 10%
    /// `TDisadvantage`.
    pub fn random() -> (r: BattleDirection)
        ensures
            exists|roll: u32| r == direction_of(roll),
    {
        let roll = random_unit();
        BattleDirection::from_roll(roll)
    }

    /// Name of the direction.
    pub open spec fn spec_label(self) -> Seq<char> {
        match self {
            BattleDirection::Same => "同航戦"@,
            BattleDirection::Against => "反航戦"@,
            BattleDirection::TAdvantage => "Ｔ字有利"@,
            BattleDirection::TDisadvantage => "Ｔ字不利"@,
        }
    }

    /// Name of the direction, as it is shown.
    pub fn label(&self) -> (r: String)
        ensures
            r@ == self.spec_label(),
    {
        match self {
            BattleDirection::Same => "同航戦".to_owned(),
            BattleDirection::Against => "反航戦".to_owned(),
            BattleDirection::TAdvantage => "Ｔ字有利".to_owned(),
            BattleDirection::TDisadvantage => "Ｔ字不利".to_owned(),
        }
    }
}

} // verus!
