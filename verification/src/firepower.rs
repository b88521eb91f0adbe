//! The formulas for the firepower of a gunnery attack.

use crate::arith::{
    floor_sqrt, is_floor_sqrt, isqrt, lemma_floor_sqrt_below, lemma_floor_sqrt_exists,
};
use crate::damaged_level::{damaged_level_of, DamagedLevel};
use crate::direction::BattleDirection;
use crate::ship::{lemma_bombing_upto_monotonic, Ship, ShipView};
use crate::snapshot::ShipSnapshot;
use vstd::prelude::*;

verus! {

/// The firepower cap of a gunnery attack, in hundredths of a point.
pub const FIREPOWER_CAP: u64 = 22000;

/// Basic firepower of a gunnery attack, in whole points. A ship with attack
/// aircraft fires with `floor((firepower + torpedo + bombing) * 1.5) + 55`, any
/// other with `firepower + 5`.
pub open spec fn basic_firepower(ship: ShipView) -> int {
    if ship.has_attack_aircraft() {
        (ship.firepower() + ship.torpedo() + ship.bombing()) * 3 / 2 + 55
    } else {
        ship.firepower() + 5
    }
}

/// Firepower before the cap, in hundredths of a point: the basic firepower times
/// the factors of the direction and of the damage tier, each given in tenths.
pub open spec fn precap_firepower(
    basic: int,
    direction: BattleDirection,
    level: DamagedLevel,
) -> int {
    basic * direction.spec_fp_factor() * level.spec_fp_factor()
}

/// Firepower after the cap, both in hundredths of a point:
/// `min(fp, cap) + floor(sqrt(max(fp - cap, 0)))`.
pub open spec fn capped_firepower(firepower: int, cap: int) -> int {
    if firepower <= cap {
        firepower
    } else {
        cap + 100 * floor_sqrt((firepower - cap) / 100)
    }
}

/// Firepower after the cap has been applied. It stands for corrections that are
/// made there; none is made so far.
pub open spec fn postcap_firepower(firepower: int) -> int {
    firepower
}

/// Firepower with which a ship at `hp` hit points attacks, in hundredths of a
/// point.
pub open spec fn attack_firepower(ship: ShipView, hp: u16, direction: BattleDirection) -> int {
    postcap_firepower(
        capped_firepower(
            precap_firepower(
                basic_firepower(ship),
                direction,
                damaged_level_of(hp, ship.max_hp()),
            ),
            FIREPOWER_CAP as int,
        ),
    )
}

/// The cap leaves firepower up to the cap as it is, and firepower above the cap
/// between the cap and what it was.
pub proof fn lemma_capped_firepower_bounds(firepower: int, cap: int)
    requires
        0 <= cap,
    ensures
        firepower <= cap ==> capped_firepower(firepower, cap) == firepower,
        firepower > cap ==> cap <= capped_firepower(firepower, cap) <= firepower,
{
    if firepower > cap {
        let excess = (firepower - cap) / 100;
        lemma_floor_sqrt_exists(excess);
        let root = floor_sqrt(excess);
        assert(root <= excess) by (nonlinear_arith)
            requires
                is_floor_sqrt(excess, root),
        {
            assert(root * root >= root);
        }
    }
}

/// The firepower of an attack stays below 820 points, whatever the ship.
pub proof fn lemma_attack_firepower_bounds(ship: ShipView, hp: u16, direction: BattleDirection)
    requires
        ship.wf(),
    ensures
        0 <= attack_firepower(ship, hp, direction) < 82000,
{
    let basic = basic_firepower(ship);
    let level = damaged_level_of(hp, ship.max_hp());
    let pre = precap_firepower(basic, direction, level);
    lemma_bombing_upto_monotonic(ship.equips, 0, ship.equips.len());
    assert(0 <= basic <= 294962);
    assert(0 <= pre <= 294962 * 120) by (nonlinear_arith)
        requires
            0 <= basic <= 294962,
            pre == basic * direction.spec_fp_factor() * level.spec_fp_factor(),
            0 <= direction.spec_fp_factor() <= 12,
            0 <= level.spec_fp_factor() <= 10,
    ;
    if pre > FIREPOWER_CAP {
        let excess = (pre - FIREPOWER_CAP) / 100;
        lemma_floor_sqrt_exists(excess);
        lemma_floor_sqrt_below(excess, floor_sqrt(excess), 600);
    }
}

/// Basic firepower of a gunnery attack, in whole points.
pub fn basic_fp(ship: &Ship, snapshot: &ShipSnapshot) -> (r: u32)
    requires
        ship@.wf(),
    ensures
        r == basic_firepower(ship@),
{
    if ship.has_attack_aircraft(snapshot) {
        let sum: u32 = ship.firepower() as u32 + ship.torpedo() as u32 + ship.bombing() as u32;
        sum * 3 / 2 + 55
    } else {
        ship.firepower() as u32 + 5
    }
}

/// Firepower before the cap, in hundredths of a point.
pub fn fp_precap_correction(
    firepower: u32,
    direction: BattleDirection,
    level: DamagedLevel,
) -> (r: u64)
    ensures
        r == precap_firepower(firepower as int, direction, level),
{
    let d = direction.fp_factor() as u64;
    let l = level.fp_factor() as u64;
    assert(firepower * d <= 0xffff_ffff * 12) by (nonlinear_arith)
        requires
            0 <= firepower <= 0xffff_ffff,
            0 <= d <= 12,
    ;
    let step: u64 = (firepower as u64) * d;
    assert(step * l <= 0xffff_ffff * 12 * 10) by (nonlinear_arith)
        requires
            0 <= step <= 0xffff_ffff * 12,
            0 <= l <= 10,
    ;
    step * l
}

/// Firepower after the cap; `firepower` and `cap` are in hundredths of a point,
/// and so is the result.
pub fn fp_capping(firepower: u64, cap: u64) -> (r: u64)
    ensures
        r == capped_firepower(firepower as int, cap as int),
{
    if firepower <= cap {
        firepower
    } else {
        let root = isqrt((firepower - cap) / 100);
        proof {
            lemma_capped_firepower_bounds(firepower as int, cap as int);
        }
        cap + 100 * root
    }
}

/// Firepower after the corrections that follow the cap.
pub fn fp_postcap_correction(firepower: u64) -> (r: u64)
    ensures
        r == postcap_firepower(firepower as int),
{
    firepower
}

/// Firepower with which `ship` attacks at the hit points of `snapshot`, in
/// hundredths of a point.
pub fn calculate_firepower(
    ship: &Ship,
    snapshot: &ShipSnapshot,
    direction: BattleDirection,
) -> (r: u32)
    requires
        ship@.wf(),
    ensures
        r == attack_firepower(ship@, snapshot@, direction),
        r < 82000,
{
    let basic = basic_fp(ship, snapshot);
    let level = ship.damaged_level(snapshot);
    let pre = fp_precap_correction(basic, direction, level);
    let capped = fp_capping(pre, FIREPOWER_CAP);
    let fp = fp_postcap_correction(capped);
    proof {
        lemma_attack_firepower_bounds(ship@, snapshot@, direction);
    }
    fp as u32
}

} // verus!
