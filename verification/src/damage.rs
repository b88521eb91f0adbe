//! The formulas for armor and damage, and the rule that keeps the player's
//! ships afloat.

use crate::arith::{lemma_scaled_bounds, scale, scaled};
use crate::snapshot::remaining_hp;
use vstd::prelude::*;

verus! {

/// Armor that a hit has to overcome, in hundredths of a point:
/// `armor * 0.7 + floor(armor * r) * 0.6` for the draw `r = roll / 2^32`.
pub open spec fn effective_armor(armor: u16, roll: u32) -> int {
    70 * armor + 60 * scaled(armor as int, roll)
}

/// Damage of a hit before any rule is applied: `floor(firepower - armor)`, both
/// given in hundredths of a point. It may be zero or negative.
pub open spec fn raw_damage(firepower: int, armor: int) -> int {
    (firepower - armor) / 100
}

/// Damage of a hit that does not get through the armor, rounded down to whole
/// points: `floor(hp * 0.06) + floor(hp * r) * 0.08` for the draw
/// `r = roll / 2^32`, where `hp` is what the target has before the hit.
pub open spec fn scratch_damage(hp: u16, roll: u32) -> int {
    (6 * hp) / 100 + (8 * scaled(hp as int, roll)) / 100
}

/// Damage that the formulas give: the raw damage where it is positive, else the
/// scratch damage.
pub open spec fn calculated_damage(firepower: int, armor: int, hp: u16, roll: u32) -> int {
    if raw_damage(firepower, armor) > 0 {
        raw_damage(firepower, armor)
    } else {
        scratch_damage(hp, roll)
    }
}

/// Damage that takes the place of a hit which would sink one of the player's
/// ships. The flagship takes `floor(hp * 0.5 + floor(hp * r) * 0.3)` for the draw
/// `r = roll / 2^32`, any other ship `hp - 1`.
pub open spec fn protected_damage(is_flagship: bool, hp: u16, roll: u32) -> int {
    if is_flagship {
        (5 * hp + 3 * scaled(hp as int, roll)) / 10
    } else {
        hp - 1
    }
}

/// Damage that is taken from the target. A hit on one of the player's ships that
/// would sink it is replaced; every other hit counts as calculated.
pub open spec fn applied_damage(
    target_is_friend: bool,
    is_flagship: bool,
    hp: u16,
    calculated: int,
    roll: u32,
) -> int {
    if target_is_friend && calculated >= hp {
        protected_damage(is_flagship, hp, roll)
    } else {
        calculated
    }
}

/// Scratch damage is less than the hit points of a ship afloat.
pub proof fn lemma_scratch_damage_bounds(hp: u16, roll: u32)
    ensures
        0 <= scratch_damage(hp, roll),
        hp > 0 ==> scratch_damage(hp, roll) < hp,
        hp == 0 ==> scratch_damage(hp, roll) == 0,
{
    lemma_scaled_bounds(hp as int, roll);
}

/// The damage that replaces a sinking hit leaves a ship afloat.
pub proof fn lemma_protected_damage_bounds(is_flagship: bool, hp: u16, roll: u32)
    requires
        hp > 0,
    ensures
        0 <= protected_damage(is_flagship, hp, roll) < hp,
{
    lemma_scaled_bounds(hp as int, roll);
}

/// A flagship with at least two hit points that is saved from sinking keeps at
/// most `floor(hp * 0.8)` of them.
pub proof fn lemma_flagship_protection(hp: u16, roll: u32)
    requires
        hp >= 2,
    ensures
        0 < hp - protected_damage(true, hp, roll) <= (8 * hp) / 10,
{
    lemma_scaled_bounds(hp as int, roll);
}

/// A hit that would sink one of the player's ships other than the flagship leaves
/// the ship with one hit point.
pub proof fn lemma_escort_keeps_one_hit_point(hp: u16, roll: u32)
    requires
        hp > 0,
    ensures
        remaining_hp(hp, protected_damage(false, hp, roll) as u16) == 1,
{
}

/// A hit that would sink the player's flagship leaves it afloat, with
/// `hp - floor(hp * 0.5 + floor(hp * r) * 0.3)` hit points.
pub proof fn lemma_flagship_keeps_afloat(hp: u16, roll: u32)
    requires
        hp > 0,
    ensures
        remaining_hp(hp, protected_damage(true, hp, roll) as u16) == hp - protected_damage(true, hp, roll),
        remaining_hp(hp, protected_damage(true, hp, roll) as u16) > 0,
{
    lemma_protected_damage_bounds(true, hp, roll);
}

/// The damage taken from one of the player's ships afloat never sinks it.
pub proof fn lemma_friend_survives(is_flagship: bool, hp: u16, calculated: int, roll: u32)
    requires
        hp > 0,
        0 <= calculated,
    ensures
        0 <= applied_damage(true, is_flagship, hp, calculated, roll) < hp,
{
    lemma_protected_damage_bounds(is_flagship, hp, roll);
}

/// Armor that a hit has to overcome, in hundredths of a point.
pub fn calculate_armor(armor: u16, roll: u32) -> (r: u32)
    ensures
        r == effective_armor(armor, roll),
{
    let part = scale(armor, roll);
    70 * (armor as u32) + 60 * (part as u32)
}

/// Damage that the formulas give for a hit with `firepower` on `armor`, both in
/// hundredths of a point, on a target with `hp` hit points.
pub fn calculate_damage(firepower: u32, armor: u32, hp: u16, roll: u32) -> (r: u32)
    ensures
        r == calculated_damage(firepower as int, armor as int, hp, roll),
{
    if firepower >= armor && firepower - armor >= 100 {
        (firepower - armor) / 100
    } else {
        let part = scale(hp, roll);
        (6 * (hp as u32)) / 100 + (8 * (part as u32)) / 100
    }
}

/// Damage that is taken from a target with `hp` hit points, given what the
/// formulas calculated.
pub fn adjust_damage(
    target_is_friend: bool,
    is_flagship: bool,
    hp: u16,
    calculated: u32,
    roll: u32,
) -> (r: u32)
    requires
        target_is_friend && !is_flagship ==> hp > 0,
    ensures
        r == applied_damage(target_is_friend, is_flagship, hp, calculated as int, roll),
        target_is_friend && hp > 0 ==> r < hp,
{
    if target_is_friend && calculated >= hp as u32 {
        proof {
            lemma_scaled_bounds(hp as int, roll);
        }
        if is_flagship {
            let part = scale(hp, roll);
            (5 * (hp as u32) + 3 * (part as u32)) / 10
        } else {
            (hp - 1) as u32
        }
    } else {
        calculated
    }
}

} // verus!
