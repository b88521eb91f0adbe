//! One naval skirmish between the player's fleet and an enemy fleet: the order
//! in which the ships fire, the gunnery formulas, the rule that keeps the
//! player's ships afloat, the two gunnery passes and the grade of the outcome.
//!
//! Points of firepower, armor and damage are counted exactly, in hundredths where
//! a formula has fractions, and a draw from the unit interval is a 32-bit
//! numerator over 2^32.

pub mod arith;
pub mod battle;
pub mod battle_log;
pub mod battle_result;
pub mod battle_setup;
pub mod damage;
pub mod damaged_level;
mod dice;
pub mod direction;
pub mod equipment;
pub mod fighting_ship;
pub mod firepower;
pub mod fleet;
pub mod laws;
pub mod range;
pub mod ship;
pub mod snapshot;
pub mod turn_order;

pub use battle::{AttackRolls, Battle, BattleReport, BattleView};
pub use battle_log::{ActionLog, ActionLogView, AttackLog, AttackType, BattleLog, Phase};
pub use battle_result::{BattleResult, BattleTally, Tally};
pub use battle_setup::BattleSetup;
pub use damaged_level::DamagedLevel;
pub use direction::BattleDirection;
pub use equipment::{Equipment, EquipmentStatus, EquipmentView};
pub use fighting_ship::{FightingShip, FightingShipView};
pub use fleet::{EnemyFleet, EnemyFleetView, Fleet, FleetLike, FleetView, Formation};
pub use range::Range;
pub use ship::{Ship, ShipStatus, ShipStatusView, ShipView};
pub use snapshot::ShipSnapshot;
