//! The battle: its state as plain values, the turn of one ship, the gunnery
//! passes, and the report at the end.

use crate::battle_log::{
    initial_hps, log_views, ActionLog, ActionLogView, AttackLog, AttackType, BattleLog, Phase,
};
use crate::battle_result::{grade, gradable, tally_of, BattleResult};
use crate::battle_setup::{any_battleship, BattleSetup};
use crate::damage::{
    adjust_damage, applied_damage, calculate_armor, calculate_damage, calculated_damage,
    effective_armor, lemma_scratch_damage_bounds,
};
use crate::damaged_level::damaged_level_of;
use crate::dice::{random_below, random_unit};
use crate::direction::BattleDirection;
use crate::firepower::{attack_firepower, calculate_firepower};
use crate::fleet::{
    ships_wf, snapshot_hps, with_hps, EnemyFleet, EnemyFleetView, Fleet, FleetLike, FleetView,
};
use crate::ship::{Ship, ShipView};
use crate::snapshot::{remaining_hp, ShipSnapshot};
use crate::turn_order::{
    alive_indices, filter_alive, index_order, lemma_alive_upto, order_by_index, order_by_range,
    range_order, Turn,
};
use vstd::prelude::*;

verus! {

/// The draws that one attack may need. `target` is the position, in its fleet,
/// of the ship that is fired at. The others are numerators of fractions over
/// 2^32, draws from the unit interval: `armor` for the armor of the target,
/// `scratch` for the damage of a hit that does not get through, `protect` for
/// the damage that replaces a hit which would sink the player's flagship.
#[derive(Clone, Copy, Debug, PartialEq, Eq)]
pub struct AttackRolls {
    pub target: usize,
    pub armor: u32,
    pub scratch: u32,
    pub protect: u32,
}

/// The reasons for which a ship's turn is skipped.
pub open spec fn reason_sunk() -> Seq<char> {
    "Sunk"@
}

/// The reason for which a carrier with a damaged flight deck does not fire.
pub open spec fn reason_flight_deck() -> Seq<char> {
    "Flight Deck is too Damaged"@
}

/// The reason for which a ship without a target afloat does not fire.
pub open spec fn reason_no_target() -> Seq<char> {
    "No Target"@
}

/// The reason for which a turn at a position without a ship is skipped.
pub open spec fn reason_no_actor() -> Seq<char> {
    "No Actor"@
}

/// The reason for which the second pass is skipped.
pub open spec fn reason_no_battleship() -> Seq<char> {
    "No Battleship"@
}

/// A battle as plain values: the direction, both fleets as they entered the
/// battle, the current hit points of each ship at the ship's position, and the
/// log, oldest entry first.
pub struct BattleView {
    pub direction: BattleDirection,
    pub friend: FleetView,
    pub enemy: EnemyFleetView,
    pub friend_hp: Seq<u16>,
    pub enemy_hp: Seq<u16>,
    pub log: Seq<ActionLogView>,
}

impl BattleView {
    /// Each side has one hit-point entry for each ship, no ship has more hit points
    /// than it entered the battle with, and every ship is well formed.
    pub open spec fn wf(self) -> bool {
        &&& self.friend.ships.len() == self.friend_hp.len()
        &&& self.enemy.ships.len() == self.enemy_hp.len()
        &&& self.friend.ships.len() <= usize::MAX
        &&& self.enemy.ships.len() <= usize::MAX
        &&& ships_wf(self.friend.ships)
        &&& ships_wf(self.enemy.ships)
        &&& forall|i: int| 0 <= i < self.friend.ships.len() ==> #[trigger] self.friend_hp[i] <= self.friend.ships[i].hp()
        &&& forall|i: int| 0 <= i < self.enemy.ships.len() ==> #[trigger] self.enemy_hp[i] <= self.enemy.ships[i].hp()
    }

    /// The ships of one side.
    pub open spec fn ships(self, is_friend: bool) -> Seq<ShipView> {
        if is_friend {
            self.friend.ships
        } else {
            self.enemy.ships
        }
    }

    /// The current hit points of one side.
    pub open spec fn hps(self, is_friend: bool) -> Seq<u16> {
        if is_friend {
            self.friend_hp
        } else {
            self.enemy_hp
        }
    }

    /// The battle with one more entry at the end of its log.
    pub open spec fn logged(self, entry: ActionLogView) -> BattleView {
        BattleView { log: self.log.push(entry), ..self }
    }

    /// The battle with a skipped turn at the end of its log.
    pub open spec fn skipped(
        self,
        is_friend: bool,
        ship_idx: usize,
        reason: Seq<char>,
    ) -> BattleView {
        self.logged(ActionLogView::TurnSkip { is_friend, ship_idx, reason })
    }

    /// The battle in which the ship at `idx` of one side has `hp` hit points.
    pub open spec fn with_hp(self, is_friend: bool, idx: int, hp: u16) -> BattleView {
        if is_friend {
            BattleView { friend_hp: self.friend_hp.update(idx, hp), ..self }
        } else {
            BattleView { enemy_hp: self.enemy_hp.update(idx, hp), ..self }
        }
    }

    /// The ships that an actor of the given side can fire at: those of the other
    /// side that are afloat, by position.
    pub open spec fn targets(self, actor_is_friend: bool) -> Seq<usize> {
        alive_indices(self.hps(!actor_is_friend))
    }

    /// `pick` is the position of one of the targets, where there is any.
    pub open spec fn pick_ok(self, actor_is_friend: bool, pick: usize) -> bool {
        self.targets(actor_is_friend).len() > 0 ==> self.targets(actor_is_friend).contains(pick)
    }

    /// Why the ship at `actor` of the given side does not take its turn, where it
    /// does not: there is no such ship, it has sunk, or it carries attack aircraft
    /// and is at least moderately damaged. `None` where it takes its turn.
    pub open spec fn skip_reason(self, actor_is_friend: bool, actor: usize) -> Option<Seq<char>> {
        let ships = self.ships(actor_is_friend);
        let hps = self.hps(actor_is_friend);
        if actor >= ships.len() {
            Some(reason_no_actor())
        } else if hps[actor as int] == 0 {
            Some(reason_sunk())
        } else if ships[actor as int].has_attack_aircraft() && damaged_level_of(
            hps[actor as int],
            ships[actor as int].max_hp(),
        ).severity() >= 2 {
            Some(reason_flight_deck())
        } else {
            None
        }
    }

    /// The record of the attack of the ship at `actor` on the ship at `target` of
    /// the other side, with the given draws.
    pub open spec fn attack(
        self,
        actor_is_friend: bool,
        actor: int,
        target: int,
        rolls: AttackRolls,
    ) -> AttackLog {
        let firepower = attack_firepower(
            self.ships(actor_is_friend)[actor],
            self.hps(actor_is_friend)[actor],
            self.direction,
        );
        let armor = effective_armor(self.ships(!actor_is_friend)[target].armor(), rolls.armor);
        let hp = self.hps(!actor_is_friend)[target];
        let calculated = calculated_damage(firepower, armor, hp, rolls.scratch);
        let applied = applied_damage(!actor_is_friend, target == 0, hp, calculated, rolls.protect);
        AttackLog {
            to_enemy: actor_is_friend,
            actor_idx: actor as usize,
            target_idx: target as usize,
            attack_type: AttackType::Artillery,
            firepower: (firepower / 100) as u16,
            armor: if armor / 100 > u16::MAX {
                u16::MAX
            } else {
                (armor / 100) as u16
            },
            calculated_damage: calculated as u16,
            applied_damage: applied as u16,
            is_critical: false,
            is_miss: false,
        }
    }

    /// The battle after the turn of the ship at `actor` of the given side. The turn
    /// is skipped, with an entry in the log, where there is no such ship, where it
    /// cannot fire, or where no target is afloat. Else the ship fires at the ship
    /// at `rolls.target`: the target loses the damage applied, and the
    /// attack is logged.
    pub open spec fn turn(
        self,
        actor_is_friend: bool,
        actor: usize,
        rolls: AttackRolls,
    ) -> BattleView {
        let targets = self.targets(actor_is_friend);
        match self.skip_reason(actor_is_friend, actor) {
            Some(reason) => self.skipped(actor_is_friend, actor, reason),
            None => if targets.len() == 0 {
                self.skipped(actor_is_friend, actor, reason_no_target())
            } else {
                let target = rolls.target as int;
                let attack = self.attack(actor_is_friend, actor as int, target, rolls);
                let hp = remaining_hp(self.hps(!actor_is_friend)[target], attack.applied_damage);
                self.with_hp(!actor_is_friend, target, hp).logged(ActionLogView::Attack(attack))
            },
        }
    }

    /// `rolls` holds draws for each turn of `order`, and each names a target of its
    /// turn.
    pub open spec fn rolls_ok(self, order: Seq<Turn>, rolls: Seq<AttackRolls>) -> bool
        decreases order.len(),
    {
        &&& rolls.len() == order.len()
        &&& order.len() > 0 ==> {
            &&& self.rolls_ok(order.drop_last(), rolls.drop_last())
            &&& self.run(order.drop_last(), rolls.drop_last()).pick_ok(order.last().0, rolls.last().target)
        }
    }

    /// The battle after the turns of `order`, one after the other, each with its
    /// draws from `rolls`.
    pub open spec fn run(self, order: Seq<Turn>, rolls: Seq<AttackRolls>) -> BattleView
        decreases order.len(),
    {
        if order.len() == 0 {
            self
        } else {
            self.run(order.drop_last(), rolls.drop_last()).turn(
                order.last().0,
                order.last().1,
                rolls.last(),
            )
        }
    }

    /// Firing order of the first pass, as the battle stands.
    pub open spec fn ordered_by_range(self) -> Seq<Turn> {
        range_order(self.friend.ships, self.friend_hp, self.enemy.ships, self.enemy_hp)
    }

    /// Firing order of the second pass, as the battle stands.
    pub open spec fn ordered_by_index(self) -> Seq<Turn> {
        index_order(self.friend_hp, self.enemy_hp)
    }

    /// Whether either fleet holds a ship of a battleship class.
    pub open spec fn includes_battleship_class(self) -> bool {
        any_battleship(self.friend.ships) || any_battleship(self.enemy.ships)
    }

    /// The battle at the start of a gunnery pass: the start is logged.
    pub open spec fn pass_started(self) -> BattleView {
        self.logged(ActionLogView::PhaseStart(Phase::Artillery))
    }

    /// The battle after the first gunnery pass: the start of the pass is logged,
    /// and the ships afloat at that moment take their turns in range order.
    pub open spec fn first_pass(self, rolls: Seq<AttackRolls>) -> BattleView {
        self.pass_started().run(self.pass_started().ordered_by_range(), rolls)
    }

    /// The battle after the second gunnery pass. With a ship of a battleship class
    /// in either fleet, the start of the pass is logged and the ships afloat at
    /// that moment take their turns in the order of their positions. Without one
    /// the pass is skipped, which is logged as a skipped turn of the player's
    /// flagship.
    pub open spec fn second_pass(self, rolls: Seq<AttackRolls>) -> BattleView {
        if self.includes_battleship_class() {
            self.pass_started().run(self.pass_started().ordered_by_index(), rolls)
        } else {
            self.skipped(true, 0, reason_no_battleship())
        }
    }

    /// The battle after both gunnery passes.
    pub open spec fn artillery(
        self,
        first: Seq<AttackRolls>,
        second: Seq<AttackRolls>,
    ) -> BattleView {
        self.first_pass(first).second_pass(second)
    }

    /// `first` and `second` hold draws for each turn of the two passes, and each
    /// names a target of its turn.
    pub open spec fn artillery_rolls_ok(
        self,
        first: Seq<AttackRolls>,
        second: Seq<AttackRolls>,
    ) -> bool {
        let middle = self.first_pass(first);
        &&& self.pass_started().rolls_ok(self.pass_started().ordered_by_range(), first)
        &&& middle.includes_battleship_class() ==> middle.pass_started().rolls_ok(
            middle.pass_started().ordered_by_index(),
            second,
        )
    }
}

/// A battle between two fleets: what was fixed at its start, and what has
/// happened since.
#[derive(Debug)]
pub struct Battle {
    setup: BattleSetup,
    log: BattleLog,
}

impl View for Battle {
    type V = BattleView;

    closed spec fn view(&self) -> BattleView {
        BattleView {
            direction: self.setup.direction,
            friend: self.setup.friend_fleet@,
            enemy: self.setup.enemy_fleet@,
            friend_hp: snapshot_hps(self.log.friend_snapshots@),
            enemy_hp: snapshot_hps(self.log.enemy_snapshots@),
            log: log_views(self.log.action_logs@),
        }
    }
}

impl Battle {
    /// Whether the battle is well formed: see `BattleView::wf`.
    pub open spec fn wf(&self) -> bool {
        self@.wf()
    }

    /// Starts a battle: the direction is drawn, both fleets are copied, every ship
    /// has the hit points it brings, and the log is empty.
    pub fn new(friend: &Fleet, enemy: &EnemyFleet) -> (r: Self)
        requires
            ships_wf(friend@.ships),
            ships_wf(enemy@.ships),
        ensures
            r.wf(),
            r@.friend == friend@,
            r@.enemy == enemy@,
            r@.friend_hp == initial_hps(friend@.ships),
            r@.enemy_hp == initial_hps(enemy@.ships),
            r@.log == Seq::<ActionLogView>::empty(),
    {
        Battle::with_direction(friend, enemy, BattleDirection::random())
    }

    /// Starts a battle in a given direction.
    pub fn with_direction(
        friend: &Fleet,
        enemy: &EnemyFleet,
        direction: BattleDirection,
    ) -> (r: Self)
        requires
            ships_wf(friend@.ships),
            ships_wf(enemy@.ships),
        ensures
            r.wf(),
            r@ == (BattleView {
                direction,
                friend: friend@,
                enemy: enemy@,
                friend_hp: initial_hps(friend@.ships),
                enemy_hp: initial_hps(enemy@.ships),
                log: Seq::empty(),
            }),
    {
        let setup = BattleSetup::with_direction(friend, enemy, direction);
        let log = BattleLog::new(friend, enemy);
        let battle = Battle { setup, log };
        let friend_count = friend.ships().len();
        let enemy_count = enemy.ships().len();
        proof {
            assert(battle@.log =~= Seq::empty());
            assert(battle@.friend.ships.len() == friend_count);
            assert(battle@.enemy.ships.len() == enemy_count);
            assert(battle@.friend_hp == initial_hps(battle@.friend.ships));
            assert(battle@.enemy_hp == initial_hps(battle@.enemy.ships));
            assert forall|i: int| 0 <= i < battle@.friend.ships.len() implies #[trigger] battle@.friend_hp[i]
                <= battle@.friend.ships[i].hp() by {}
            assert forall|i: int| 0 <= i < battle@.enemy.ships.len() implies #[trigger] battle@.enemy_hp[i]
                <= battle@.enemy.ships[i].hp() by {}
        }
        battle
    }

    /// The direction of the engagement.
    pub fn direction(&self) -> (r: BattleDirection)
        ensures
            r == self@.direction,
    {
        self.setup.direction
    }

    /// The player's fleet as it entered the battle.
    pub fn friend_fleet(&self) -> (r: &Fleet)
        ensures
            r@ == self@.friend,
    {
        &self.setup.friend_fleet
    }

    /// The enemy fleet as it entered the battle.
    pub fn enemy_fleet(&self) -> (r: &EnemyFleet)
        ensures
            r@ == self@.enemy,
    {
        &self.setup.enemy_fleet
    }

    /// The current snapshots of the player's ships, by position.
    pub fn friend_snapshots(&self) -> (r: &[ShipSnapshot])
        ensures
            snapshot_hps(r@) == self@.friend_hp,
    {
        self.log.friend_snapshots.as_slice()
    }

    /// The current snapshots of the enemy's ships, by position.
    pub fn enemy_snapshots(&self) -> (r: &[ShipSnapshot])
        ensures
            snapshot_hps(r@) == self@.enemy_hp,
    {
        self.log.enemy_snapshots.as_slice()
    }

    /// The log so far, oldest entry first.
    pub fn action_logs(&self) -> (r: &[ActionLog])
        ensures
            log_views(r@) == self@.log,
    {
        self.log.action_logs.as_slice()
    }

    /// Whether either fleet holds a ship of a battleship class.
    pub fn includes_battleship_class(&self) -> (b: bool)
        ensures
            b == self@.includes_battleship_class(),
    {
        self.setup.includes_battleship_class()
    }

    /// Firing order of the first pass, as the battle stands.
    pub fn ordered_by_range(&self) -> (r: Vec<Turn>)
        requires
            self.wf(),
        ensures
            r@ == self@.ordered_by_range(),
    {
        order_by_range(
            self.setup.friend_fleet.ships(),
            self.log.friend_snapshots.as_slice(),
            self.setup.enemy_fleet.ships(),
            self.log.enemy_snapshots.as_slice(),
        )
    }

    /// Firing order of the second pass, as the battle stands.
    pub fn ordered_by_index(&self) -> (r: Vec<Turn>)
        ensures
            r@ == self@.ordered_by_index(),
    {
        order_by_index(self.log.friend_snapshots.as_slice(), self.log.enemy_snapshots.as_slice())
    }

    /// The ship at `actor_idx` of the given side.
    pub fn actor(&self, is_friend: bool, actor_idx: usize) -> (r: &Ship)
        requires
            actor_idx < self@.ships(is_friend).len(),
        ensures
            r@ == self@.ships(is_friend)[actor_idx as int],
    {
        if is_friend {
            &self.setup.friend_fleet.ships()[actor_idx]
        } else {
            &self.setup.enemy_fleet.ships()[actor_idx]
        }
    }

    /// The ship at `actor_idx` of the given side if it takes its turn, else the
    /// reason for which it does not: see `BattleView::skip_reason`.
    pub fn get_actor(&self, is_friend: bool, actor_idx: usize) -> (r: Result<&Ship, String>)
        requires
            self.wf(),
        ensures
            (match r {
                Ok(ship) => self@.skip_reason(is_friend, actor_idx).is_none() && ship@ == self@.ships(
                    is_friend,
                )[actor_idx as int],
                Err(reason) => self@.skip_reason(is_friend, actor_idx) == Some(reason@),
            }),
    {
        let count = if is_friend {
            self.log.friend_snapshots.len()
        } else {
            self.log.enemy_snapshots.len()
        };
        if actor_idx >= count {
            return Err("No Actor".to_owned());
        }
        let snapshot = if is_friend {
            self.log.friend_snapshots[actor_idx]
        } else {
            self.log.enemy_snapshots[actor_idx]
        };
        if !snapshot.is_alive() {
            return Err("Sunk".to_owned());
        }
        let actor = self.actor(is_friend, actor_idx);
        assert(actor@.wf());
        if actor.has_attack_aircraft(&snapshot) && actor.damaged_level(&snapshot).at_least_moderate() {
            return Err("Flight Deck is too Damaged".to_owned());
        }
        Ok(actor)
    }

    /// Draws a target for an actor of the given side: one of the other side's ships
    /// afloat, each as likely as the other. `None` where none is afloat.
    pub fn get_target(&self, actor_is_friend: bool) -> (r: Option<usize>)
        ensures
            (match r {
                Some(target) => self@.targets(actor_is_friend).contains(target),
                None => self@.targets(actor_is_friend).len() == 0,
            }),
    {
        let alive = if actor_is_friend {
            filter_alive(self.log.enemy_snapshots.as_slice())
        } else {
            filter_alive(self.log.friend_snapshots.as_slice())
        };
        if alive.len() == 0 {
            None
        } else {
            let pick = random_below(alive.len());
            Some(alive[pick])
        }
    }

    /// Logs that the turn of the ship at `ship_idx` is skipped.
    fn skip_turn(&mut self, is_friend: bool, ship_idx: usize, reason: String)
        requires
            old(self).wf(),
        ensures
            final(self).wf(),
            final(self)@ == old(self)@.skipped(is_friend, ship_idx, reason@),
    {
        let ghost text = reason@;
        self.log.push(ActionLog::TurnSkip { is_friend, ship_idx, reason });
        proof {
            assert(final(self)@.log =~= old(self)@.log.push(
                ActionLogView::TurnSkip { is_friend, ship_idx, reason: text },
            ));
        }
    }

    /// The turn of the ship at `actor_idx` of the given side, with the draws given:
    /// see `BattleView::turn`.
    pub fn resolve_turn(&mut self, actor_is_friend: bool, actor_idx: usize, rolls: AttackRolls)
        requires
            old(self).wf(),
            old(self)@.pick_ok(actor_is_friend, rolls.target),
        ensures
            final(self).wf(),
            final(self)@ == old(self)@.turn(actor_is_friend, actor_idx, rolls),
    {
        let fired = match self.get_actor(actor_is_friend, actor_idx) {
            Ok(actor) => {
                let snapshot = if actor_is_friend {
                    self.log.friend_snapshots[actor_idx]
                } else {
                    self.log.enemy_snapshots[actor_idx]
                };
                Ok(calculate_firepower(actor, &snapshot, self.setup.direction))
            },
            Err(reason) => Err(reason),
        };
        let firepower = match fired {
            Ok(firepower) => firepower,
            Err(reason) => {
                self.skip_turn(actor_is_friend, actor_idx, reason);
                return ;
            },
        };
        let alive = if actor_is_friend {
            filter_alive(self.log.enemy_snapshots.as_slice())
        } else {
            filter_alive(self.log.friend_snapshots.as_slice())
        };
        if alive.len() == 0 {
            self.skip_turn(actor_is_friend, actor_idx, "No Target".to_owned());
            return ;
        }
        let target_idx = rolls.target;
        proof {
            let hps = self@.hps(!actor_is_friend);
            lemma_alive_upto(hps, hps.len());
            let k = choose|k: int| 0 <= k < alive@.len() && alive@[k] == target_idx;
            assert(alive@[k] < hps.len());
        }
        let (target_hp, target_armor) = if actor_is_friend {
            (self.log.enemy_snapshots[target_idx].hp(), self.setup.enemy_fleet.ships()[target_idx].armor())
        } else {
            (self.log.friend_snapshots[target_idx].hp(), self.setup.friend_fleet.ships()[target_idx].armor())
        };
        let armor = calculate_armor(target_armor, rolls.armor);
        let calculated = calculate_damage(firepower, armor, target_hp, rolls.scratch);
        proof {
            lemma_scratch_damage_bounds(target_hp, rolls.scratch);
        }
        let applied = adjust_damage(!actor_is_friend, target_idx == 0, target_hp, calculated, rolls.protect);
        let attack = AttackLog {
            to_enemy: actor_is_friend,
            actor_idx,
            target_idx,
            attack_type: AttackType::Artillery,
            firepower: (firepower / 100) as u16,
            armor: if armor / 100 > u16::MAX as u32 {
                u16::MAX
            } else {
                (armor / 100) as u16
            },
            calculated_damage: calculated as u16,
            applied_damage: applied as u16,
            is_critical: false,
            is_miss: false,
        };
        assert(attack == old(self)@.attack(actor_is_friend, actor_idx as int, target_idx as int, rolls));
        if actor_is_friend {
            self.log.enemy_snapshots[target_idx].apply_damage(attack.applied_damage);
        } else {
            self.log.friend_snapshots[target_idx].apply_damage(attack.applied_damage);
        }
        self.log.push(ActionLog::Attack(attack));
        proof {
            let before = old(self)@;
            let hp = remaining_hp(before.hps(!actor_is_friend)[target_idx as int], attack.applied_damage);
            let after = before.with_hp(!actor_is_friend, target_idx as int, hp).logged(
                ActionLogView::Attack(attack),
            );
            assert(final(self)@.log =~= after.log);
            assert(final(self)@.friend_hp =~= after.friend_hp);
            assert(final(self)@.enemy_hp =~= after.enemy_hp);
        }
    }

    /// The turn of the ship at `actor_idx` of the given side, with fresh draws. A
    /// target is drawn among the ships of the other side that are afloat, and the
    /// three fractions are drawn whether or not the turn comes to use them. The
    /// outcome is that of `resolve_turn` for these draws, which are returned.
    pub fn take_turn(&mut self, actor_is_friend: bool, actor_idx: usize) -> (rolls: AttackRolls)
        requires
            old(self).wf(),
        ensures
            final(self).wf(),
            old(self)@.pick_ok(actor_is_friend, rolls.target),
            final(self)@ == old(self)@.turn(actor_is_friend, actor_idx, rolls),
    {
        let target = match self.get_target(actor_is_friend) {
            Some(t) => t,
            None => 0,
        };
        let rolls = AttackRolls {
            target,
            armor: random_unit(),
            scratch: random_unit(),
            protect: random_unit(),
        };
        self.resolve_turn(actor_is_friend, actor_idx, rolls);
        rolls
    }

    /// Logs the start of a gunnery pass.
    fn start_pass(&mut self)
        requires
            old(self).wf(),
        ensures
            final(self).wf(),
            final(self)@ == old(self)@.pass_started(),
    {
        self.log.push(ActionLog::PhaseStart(Phase::Artillery));
        proof {
            assert(final(self)@.log =~= old(self)@.log.push(ActionLogView::PhaseStart(Phase::Artillery)));
        }
    }

    /// One gunnery pass: the ships of `fire_order` take their turns one after the
    /// other, each with fresh draws. The order is not made anew while the pass
    /// runs: a ship that has sunk in the meantime finds its turn skipped. The
    /// outcome is that of `BattleView::run` for some draws.
    pub fn artillery_phase_helper(&mut self, fire_order: Vec<Turn>)
        requires
            old(self).wf(),
        ensures
            final(self).wf(),
            exists|rolls: Seq<AttackRolls>| #[trigger]
                old(self)@.rolls_ok(fire_order@, rolls) && final(self)@ == old(self)@.run(
                    fire_order@,
                    rolls,
                ),
    {
        let ghost start = self@;
        let ghost mut used: Seq<AttackRolls> = Seq::empty();
        let mut i: usize = 0;
        while i < fire_order.len()
            invariant
                i <= fire_order.len(),
                self.wf(),
                start.rolls_ok(fire_order@.take(i as int), used),
                self@ == start.run(fire_order@.take(i as int), used),
            decreases fire_order.len() - i,
        {
            let turn = fire_order[i];
            let rolls = self.take_turn(turn.0, turn.1);
            proof {
                let done = fire_order@.take(i as int);
                let next = fire_order@.take(i + 1);
                assert(next.drop_last() =~= done);
                assert(next.last() == turn);
                assert(used.push(rolls).drop_last() =~= used);
                used = used.push(rolls);
            }
            i = i + 1;
        }
        proof {
            assert(fire_order@.take(fire_order.len() as int) =~= fire_order@);
        }
    }

    /// The gunnery of a battle. The first pass always runs, in range order. The
    /// second runs, in the order of positions, if either fleet holds a ship of a
    /// battleship class; else it is skipped with an entry in the log. The outcome
    /// is that of `BattleView::artillery` for some draws.
    pub fn artillery_phase(&mut self)
        requires
            old(self).wf(),
        ensures
            final(self).wf(),
            exists|first: Seq<AttackRolls>, second: Seq<AttackRolls>| #[trigger]
                old(self)@.artillery_rolls_ok(first, second) && final(self)@ == old(self)@.artillery(
                    first,
                    second,
                ),
    {
        let ghost start = self@;
        self.start_pass();
        let fire_order = self.ordered_by_range();
        let ghost started = self@;
        self.artillery_phase_helper(fire_order);
        let ghost first = choose|rolls: Seq<AttackRolls>| #[trigger]
            started.rolls_ok(fire_order@, rolls) && self@ == started.run(fire_order@, rolls);
        let ghost middle = self@;
        assert(middle == start.first_pass(first));
        if self.includes_battleship_class() {
            self.start_pass();
            let fire_order = self.ordered_by_index();
            let ghost restarted = self@;
            self.artillery_phase_helper(fire_order);
            proof {
                let second = choose|rolls: Seq<AttackRolls>| #[trigger]
                    restarted.rolls_ok(fire_order@, rolls) && self@ == restarted.run(fire_order@, rolls);
                assert(start.artillery_rolls_ok(first, second));
                assert(self@ == start.artillery(first, second));
            }
        } else {
            self.skip_turn(true, 0, "No Battleship".to_owned());
            proof {
                let second = Seq::<AttackRolls>::empty();
                assert(start.artillery_rolls_ok(first, second));
                assert(self@ == start.artillery(first, second));
            }
        }
    }

    /// Ends the battle: the grade, and both fleets with the hit points that their
    /// ships are left with.
    pub fn to_battle_report(self) -> (r: BattleReport)
        requires
            self.wf(),
            gradable(self@),
        ensures
            r.result == grade(tally_of(self@)),
            r.friend_fleet@ == (FleetView {
                ships: with_hps(self@.friend.ships, self@.friend_hp),
                ..self@.friend
            }),
            r.enemy_fleet@ == (EnemyFleetView {
                ships: with_hps(self@.enemy.ships, self@.enemy_hp),
                ..self@.enemy
            }),
    {
        let result = BattleResult::calculate(&self);
        let friend_fleet = self.setup.friend_fleet.apply_snapshot(self.log.friend_snapshots.as_slice());
        let enemy_fleet = self.setup.enemy_fleet.apply_snapshot(self.log.enemy_snapshots.as_slice());
        BattleReport { result, friend_fleet, enemy_fleet }
    }
}

/// How a battle ended.
#[derive(Debug)]
pub struct BattleReport {
    pub result: BattleResult,
    pub friend_fleet: Fleet,
    pub enemy_fleet: EnemyFleet,
}

} // verus!
