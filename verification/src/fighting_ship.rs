//! A ship together with its place in the battle and its current hit points.

use crate::damage::{adjust_damage, applied_damage};
use crate::damaged_level::{damaged_level_of, DamagedLevel};
use crate::dice::random_unit;
use crate::direction::BattleDirection;
use crate::firepower::{
    basic_fp, basic_firepower, capped_firepower, fp_capping, fp_postcap_correction,
    fp_precap_correction, postcap_firepower, precap_firepower,
};
use crate::range::Range;
use crate::ship::{Ship, ShipView};
use crate::snapshot::{remaining_hp, ShipSnapshot};
use vstd::prelude::*;

verus! {

/// A `FightingShip` as plain values.
pub struct FightingShipView {
    pub ship: ShipView,
    pub is_friend: bool,
    pub index_in_fleet: usize,
    pub hp: u16,
}

/// A ship in battle: the ship as it entered, its side and position, and the hit
/// points it has now.
#[derive(Debug)]
pub struct FightingShip {
    ship: Ship,
    is_friend: bool,
    index_in_fleet: usize,
    snapshot: ShipSnapshot,
}

impl View for FightingShip {
    type V = FightingShipView;

    closed spec fn view(&self) -> FightingShipView {
        FightingShipView {
            ship: self.ship@,
            is_friend: self.is_friend,
            index_in_fleet: self.index_in_fleet,
            hp: self.snapshot@,
        }
    }
}

impl Clone for FightingShip {
    fn clone(&self) -> (r: Self)
        ensures
            r@ == self@,
    {
        FightingShip {
            ship: self.ship.clone(),
            is_friend: self.is_friend,
            index_in_fleet: self.index_in_fleet,
            snapshot: self.snapshot,
        }
    }
}

impl FightingShipView {
    /// Firepower with which the ship attacks, in hundredths of a point, under a
    /// cap given in hundredths of a point.
    pub open spec fn firepower_under(self, direction: BattleDirection, cap: int) -> int {
        postcap_firepower(
            capped_firepower(
                precap_firepower(
                    basic_firepower(self.ship),
                    direction,
                    damaged_level_of(self.hp, self.ship.max_hp()),
                ),
                cap,
            ),
        )
    }

    /// The ship after a hit of `diff` points; `roll` is the draw for the damage
    /// that replaces a hit which would sink the player's flagship.
    pub open spec fn hit(self, diff: u16, roll: u32) -> FightingShipView {
        let damage = applied_damage(self.is_friend, self.index_in_fleet == 0, self.hp, diff as int, roll);
        FightingShipView { hp: remaining_hp(self.hp, damage as u16), ..self }
    }
}

impl FightingShip {
    /// A ship that enters the battle, with the hit points it brings.
    pub fn new(ship: Ship, is_friend: bool, index_in_fleet: usize) -> (r: Self)
        ensures
            r@ == (FightingShipView { ship: ship@, is_friend, index_in_fleet, hp: ship@.hp() }),
    {
        let snapshot = ShipSnapshot::from(&ship);
        FightingShip { ship, is_friend, index_in_fleet, snapshot }
    }

    /// A copy of the ship as it entered the battle.
    pub fn ship(&self) -> (r: Ship)
        ensures
            r@ == self@.ship,
    {
        self.ship.clone()
    }

    /// Position of the ship in its fleet; the flagship is at zero.
    pub fn index_in_fleet(&self) -> (r: usize)
        ensures
            r == self@.index_in_fleet,
    {
        self.index_in_fleet
    }

    /// The current snapshot of the ship.
    pub fn snapshot(&self) -> (r: ShipSnapshot)
        ensures
            r@ == self@.hp,
    {
        self.snapshot
    }

    /// Name of the ship.
    pub fn name(&self) -> (r: String)
        ensures
            r@ == self@.ship.name,
    {
        self.ship.name()
    }

    /// Hit points with which the ship entered the battle.
    pub fn hp_before(&self) -> (r: u16)
        ensures
            r == self@.ship.hp(),
    {
        self.ship.hp()
    }

    /// Hit points that the ship has now.
    pub fn hp_now(&self) -> (r: u16)
        ensures
            r == self@.hp,
    {
        self.snapshot.hp()
    }

    /// Firepower stat.
    pub fn firepower(&self) -> (r: u16)
        ensures
            r == self@.ship.firepower(),
    {
        self.ship.firepower()
    }

    /// Armor stat.
    pub fn armor(&self) -> (r: u16)
        ensures
            r == self@.ship.armor(),
    {
        self.ship.armor()
    }

    /// Torpedo stat.
    pub fn torpedo(&self) -> (r: u16)
        ensures
            r == self@.ship.torpedo(),
    {
        self.ship.torpedo()
    }

    /// Bombing stat: the sum over the equipment.
    pub fn bombing(&self) -> (r: u16)
        requires
            self@.ship.wf(),
        ensures
            r == self@.ship.bombing(),
    {
        self.ship.bombing()
    }

    /// Effective range of the ship.
    pub fn range(&self) -> (r: Range)
        ensures
            r == self@.ship.range(),
    {
        self.ship.range()
    }

    /// Whether the ship belongs to the player's fleet.
    pub fn is_friend(&self) -> (b: bool)
        ensures
            b == self@.is_friend,
    {
        self.is_friend
    }

    /// Whether the ship is afloat.
    pub fn is_alive(&self) -> (b: bool)
        ensures
            b == (self@.hp > 0),
    {
        self.snapshot.hp() > 0
    }

    /// Damage tier of the ship at its current hit points.
    pub fn damaged_level(&self) -> (r: DamagedLevel)
        ensures
            r == damaged_level_of(self@.hp, self@.ship.max_hp()),
    {
        self.ship.damaged_level(&self.snapshot)
    }

    /// Whether the ship is of a battleship class.
    pub fn is_battleship_class(&self) -> (b: bool)
        ensures
            b == self@.ship.is_battleship_class(),
    {
        self.ship.is_battleship_class()
    }

    /// Whether the ship carries an aircraft that can attack.
    pub fn has_attack_aircraft(&self) -> (b: bool)
        requires
            self@.ship.wf(),
        ensures
            b == self@.ship.has_attack_aircraft(),
    {
        self.ship.has_attack_aircraft(&self.snapshot)
    }

    /// Firepower with which the ship attacks, in hundredths of a point; `cap` is
    /// the firepower cap in hundredths of a point.
    pub fn calculate_firepower(&self, direction: &BattleDirection, cap: u64) -> (r: u64)
        requires
            self@.ship.wf(),
        ensures
            r == self@.firepower_under(*direction, cap as int),
    {
        let basic = basic_fp(&self.ship, &self.snapshot);
        let pre = fp_precap_correction(basic, *direction, self.damaged_level());
        let capped = fp_capping(pre, cap);
        fp_postcap_correction(capped)
    }

    /// Takes a hit of `diff` points with the draw given: see
    /// `FightingShipView::hit`.
    pub fn apply_damage_with(&mut self, diff: u16, roll: u32)
        requires
            old(self)@.is_friend && old(self)@.index_in_fleet != 0 ==> old(self)@.hp > 0,
        ensures
            final(self)@ == old(self)@.hit(diff, roll),
    {
        let hp = self.snapshot.hp();
        let damage = adjust_damage(self.is_friend, self.index_in_fleet == 0, hp, diff as u32, roll);
        self.snapshot.apply_damage(damage as u16);
    }

    /// Takes a hit of `diff` points. One of the player's ships is not sunk by it:
    /// the flagship takes a damage drawn afresh in place of a hit that would sink
    /// it, any other ship is left with one hit point. An enemy ship takes the hit
    /// as it is. The outcome is that of `FightingShipView::hit` for some draw.
    pub fn apply_damage(&mut self, diff: u16)
        requires
            old(self)@.is_friend && old(self)@.index_in_fleet != 0 ==> old(self)@.hp > 0,
        ensures
            exists|roll: u32| final(self)@ == #[trigger] old(self)@.hit(diff, roll),
    {
        let roll = if self.is_friend && self.index_in_fleet == 0 && diff >= self.snapshot.hp() {
            random_unit()
        } else {
            0
        };
        self.apply_damage_with(diff, roll);
    }
}

} // verus!
