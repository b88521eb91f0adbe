//! What is fixed when a battle starts.

use crate::direction::BattleDirection;
use crate::fleet::{EnemyFleet, Fleet, FleetLike};
use crate::ship::{Ship, ShipView};
use vstd::prelude::*;

verus! {

/// Some ship of the sequence is of a battleship class.
pub open spec fn any_battleship(ships: Seq<ShipView>) -> bool {
    exists|i: int| 0 <= i < ships.len() && (#[trigger] ships[i]).is_battleship_class()
}

/// Whether some ship of the slice is of a battleship class.
pub fn has_battleship(ships: &[Ship]) -> (b: bool)
    ensures
        b == any_battleship(crate::fleet::ship_views(ships@)),
{
    let ghost views = crate::fleet::ship_views(ships@);
    let mut i: usize = 0;
    while i < ships.len()
        invariant
            i <= ships.len(),
            views == crate::fleet::ship_views(ships@),
            forall|j: int| 0 <= j < i ==> !(#[trigger] views[j]).is_battleship_class(),
        decreases ships.len() - i,
    {
        if ships[i].is_battleship_class() {
            assert(views[i as int].is_battleship_class());
            return true;
        }
        i = i + 1;
    }
    false
}

/// What is fixed when a battle starts and stays as it is until the battle ends:
/// the direction of the engagement and a copy of both fleets.
#[derive(Debug)]
pub struct BattleSetup {
    pub direction: BattleDirection,
    pub friend_fleet: Fleet,
    pub enemy_fleet: EnemyFleet,
}

impl BattleSetup {
    /// Draws the direction and copies both fleets.
    pub fn new(friend: &Fleet, enemy: &EnemyFleet) -> (r: Self)
        ensures
            r.friend_fleet@ == friend@,
            r.enemy_fleet@ == enemy@,
    {
        BattleSetup::with_direction(friend, enemy, BattleDirection::random())
    }

    /// Copies both fleets and takes the direction as given.
    pub fn with_direction(
        friend: &Fleet,
        enemy: &EnemyFleet,
        direction: BattleDirection,
    ) -> (r: Self)
        ensures
            r.direction == direction,
            r.friend_fleet@ == friend@,
            r.enemy_fleet@ == enemy@,
    {
        BattleSetup { direction, friend_fleet: friend.clone(), enemy_fleet: enemy.clone() }
    }

    /// The direction of the engagement.
    pub fn direction(&self) -> (r: BattleDirection)
        ensures
            r == self.direction,
    {
        self.direction
    }

    /// Whether either fleet holds a ship of a battleship class.
    pub fn includes_battleship_class(&self) -> (b: bool)
        ensures
            b == (any_battleship(self.friend_fleet@.ships) || any_battleship(self.enemy_fleet@.ships)),
    {
        has_battleship(self.friend_fleet.ships()) || has_battleship(self.enemy_fleet.ships())
    }
}

} // verus!
