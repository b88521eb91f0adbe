//! What changes during a battle: the snapshots of the ships and the log.

use crate::fleet::{snapshot_hps, EnemyFleet, Fleet, FleetLike};
use crate::ship::{Ship, ShipView};
use crate::snapshot::ShipSnapshot;
use vstd::prelude::*;

verus! {

/// The passes of a battle.
#[derive(Clone, Copy, Debug, PartialEq, Eq, Structural)]
pub enum Phase {
    AirCombat,
    Artillery,
    Torpedo,
}

/// The kinds of attack.
#[derive(Clone, Copy, Debug, PartialEq, Eq, Structural)]
pub enum AttackType {
    Artillery,
    Torpedo,
    AirStrike,
}

/// Record of one attack. `firepower` and `armor` are in whole points, rounded
/// down, `armor` no more than the largest 16-bit number. `calculated_damage` is
/// the damage that the formulas give, `applied_damage` what was taken from the
/// target after the rule that keeps the player's ships afloat.
#[derive(Clone, Copy, Debug, PartialEq, Eq, Structural)]
pub struct AttackLog {
    pub to_enemy: bool,
    pub actor_idx: usize,
    pub target_idx: usize,
    pub attack_type: AttackType,
    pub firepower: u16,
    pub armor: u16,
    pub calculated_damage: u16,
    pub applied_damage: u16,
    pub is_critical: bool,
    pub is_miss: bool,
}

/// One entry of the battle's log.
#[derive(Debug)]
pub enum ActionLog {
    PhaseStart(Phase),
    Attack(AttackLog),
    TurnSkip { is_friend: bool, ship_idx: usize, reason: String },
    Sunk { is_friend: bool, ship_idx: usize },
}

/// An entry of the log as plain values.
pub enum ActionLogView {
    PhaseStart(Phase),
    Attack(AttackLog),
    TurnSkip { is_friend: bool, ship_idx: usize, reason: Seq<char> },
    Sunk { is_friend: bool, ship_idx: usize },
}

impl View for ActionLog {
    type V = ActionLogView;

    open spec fn view(&self) -> ActionLogView {
        match *self {
            ActionLog::PhaseStart(phase) => ActionLogView::PhaseStart(phase),
            ActionLog::Attack(attack) => ActionLogView::Attack(attack),
            ActionLog::TurnSkip { is_friend, ship_idx, reason } => ActionLogView::TurnSkip {
                is_friend,
                ship_idx,
                reason: reason@,
            },
            ActionLog::Sunk { is_friend, ship_idx } => ActionLogView::Sunk { is_friend, ship_idx },
        }
    }
}

/// The entries of a log as plain values.
pub open spec fn log_views(entries: Seq<ActionLog>) -> Seq<ActionLogView> {
    entries.map_values(|e: ActionLog| e@)
}

/// Hit points with which the ships enter the battle.
pub open spec fn initial_hps(ships: Seq<ShipView>) -> Seq<u16> {
    ships.map_values(|s: ShipView| s.hp())
}

/// What changes during a battle: one snapshot for each ship of each side, at the
/// ship's position in its fleet, and the log of what happened, oldest entry first.
#[derive(Debug)]
pub struct BattleLog {
    pub action_logs: Vec<ActionLog>,
    pub friend_snapshots: Vec<ShipSnapshot>,
    pub enemy_snapshots: Vec<ShipSnapshot>,
}

/// Snapshots of the ships as they enter the battle.
pub fn initial_snapshots(ships: &[Ship]) -> (r: Vec<ShipSnapshot>)
    ensures
        snapshot_hps(r@) == initial_hps(crate::fleet::ship_views(ships@)),
{
    let mut out: Vec<ShipSnapshot> = Vec::new();
    let mut i: usize = 0;
    while i < ships.len()
        invariant
            i <= ships.len(),
            out.len() == i,
            forall|j: int| 0 <= j < i ==> (#[trigger] out[j])@ == ships[j]@.hp(),
        decreases ships.len() - i,
    {
        out.push(ShipSnapshot::from(&ships[i]));
        i = i + 1;
    }
    assert(snapshot_hps(out@) =~= initial_hps(crate::fleet::ship_views(ships@)));
    out
}

impl BattleLog {
    /// The log of a battle that is about to start: no entries, and every ship at the
    /// hit points it brings.
    pub fn new(friend: &Fleet, enemy: &EnemyFleet) -> (r: Self)
        ensures
            r.action_logs@.len() == 0,
            snapshot_hps(r.friend_snapshots@) == initial_hps(friend@.ships),
            snapshot_hps(r.enemy_snapshots@) == initial_hps(enemy@.ships),
    {
        BattleLog {
            action_logs: Vec::new(),
            friend_snapshots: initial_snapshots(friend.ships()),
            enemy_snapshots: initial_snapshots(enemy.ships()),
        }
    }

    /// Adds an entry at the end of the log.
    pub fn push(&mut self, log: ActionLog)
        ensures
            final(self).action_logs@ == old(self).action_logs@.push(log),
            final(self).friend_snapshots == old(self).friend_snapshots,
            final(self).enemy_snapshots == old(self).enemy_snapshots,
    {
        self.action_logs.push(log);
    }
}

} // verus!
