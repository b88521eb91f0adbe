//! The current hit points of a ship.

use crate::ship::Ship;
use vstd::prelude::*;

verus! {

/// The part of a ship that changes during a battle: its current hit points.
#[derive(Clone, Copy, Debug, PartialEq, Eq)]
pub struct ShipSnapshot {
    hp: u16,
}

impl View for ShipSnapshot {
    type V = u16;

    closed spec fn view(&self) -> u16 {
        self.hp
    }
}

impl ShipSnapshot {
    /// A snapshot with the given hit points.
    pub fn new(hp: u16) -> (r: Self)
        ensures
            r@ == hp,
    {
        ShipSnapshot { hp }
    }

    /// The snapshot of a ship as it enters the battle.
    pub fn from(ship: &Ship) -> (r: Self)
        ensures
            r@ == ship@.hp(),
    {
        ShipSnapshot { hp: ship.hp() }
    }

    /// Current hit points.
    pub fn hp(&self) -> (r: u16)
        ensures
            r == self@,
    {
        self.hp
    }

    /// Whether the ship is afloat.
    pub fn is_alive(&self) -> (b: bool)
        ensures
            b == (self@ > 0),
    {
        self.hp > 0
    }

    /// Takes `damage` hit points away, stopping at zero.
    pub fn apply_damage(&mut self, damage: u16)
        ensures
            final(self)@ == remaining_hp(old(self)@, damage),
    {
        if damage >= self.hp {
            self.hp = 0;
        } else {
            self.hp = self.hp - damage;
        }
    }
}

/// Hit points left after a hit: `hp - damage`, and zero where the hit is larger.
pub open spec fn remaining_hp(hp: u16, damage: u16) -> u16 {
    if damage >= hp {
        0
    } else {
        (hp - damage) as u16
    }
}

} // verus!
