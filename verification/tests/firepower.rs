use fleet_battle::arith::{isqrt, scale};
use fleet_battle::firepower::{
    basic_fp, calculate_firepower, fp_capping, fp_postcap_correction, fp_precap_correction,
    FIREPOWER_CAP,
};
use fleet_battle::{
    BattleDirection, DamagedLevel, Equipment, EquipmentStatus, Range, Ship, ShipSnapshot, ShipStatus,
};

fn status(max_hp: u16, now_hp: u16, firepower: u16, torpedo: u16) -> ShipStatus {
    ShipStatus {
        max_hp,
        now_hp,
        firepower,
        armor: 0,
        torpedo,
        anti_aircraft: 0,
        condition: 49,
        evasion: None,
        airplane_slots: None,
        anti_submarine_warfare: None,
        speed: None,
        scouting: None,
        range: None,
        luck: None,
    }
}

fn bomber(bombing: u16) -> Equipment {
    let mut stats = EquipmentStatus::default();
    stats.bombing = bombing;
    stats.range = Range::NoRange;
    Equipment::new(7, Some("bomber".to_string()), Some(vec![3, 5, 7, 7, 0]), Some(stats))
}

fn gunboat(firepower: u16) -> Ship {
    Ship::new(1, "gunboat".to_string(), Some(2), None, status(100, 100, firepower, 30), Vec::new())
}

fn carrier(firepower: u16, torpedo: u16, bombing: u16) -> Ship {
    Ship::new(
        2,
        "carrier".to_string(),
        Some(11),
        None,
        status(100, 100, firepower, torpedo),
        vec![bomber(bombing)],
    )
}

#[test]
fn test_fp_capping() {
    assert_eq!(fp_capping(20000, 22000), 20000);
    assert!(fp_capping(23000, 22000) > 22000);
}

#[test]
fn capping_adds_the_square_root_of_the_excess() {
    // 230 under a cap of 220: 220 + floor(sqrt(10)) = 223.
    assert_eq!(fp_capping(23000, 22000), 22300);
    // 220.99 is above the cap by less than one point: the root of 0.99 is 0.
    assert_eq!(fp_capping(22099, 22000), 22000);
    // 221 is above the cap by exactly one point.
    assert_eq!(fp_capping(22100, 22000), 22100);
    // 320 under a cap of 220: 220 + sqrt(100) = 230.
    assert_eq!(fp_capping(32000, 22000), 23000);
    // 319.99: the root of 99.99 is 9.
    assert_eq!(fp_capping(31999, 22000), 22900);
}

#[test]
fn capping_leaves_firepower_at_or_below_the_cap_alone() {
    assert_eq!(fp_capping(0, 22000), 0);
    assert_eq!(fp_capping(5880, 22000), 5880);
    assert_eq!(fp_capping(22000, 22000), 22000);
    assert_eq!(FIREPOWER_CAP, 22000);
}

#[test]
fn postcap_correction_changes_nothing() {
    assert_eq!(fp_postcap_correction(22300), 22300);
    assert_eq!(fp_postcap_correction(0), 0);
}

#[test]
fn precap_correction_multiplies_both_factors() {
    // 105 * 1.0 * 1.0
    assert_eq!(fp_precap_correction(105, BattleDirection::Same, DamagedLevel::NoDamage), 10500);
    // 105 * 0.8 * 0.7 = 58.8
    assert_eq!(fp_precap_correction(105, BattleDirection::Against, DamagedLevel::Moderate), 5880);
    // 105 * 1.2 * 0.4 = 50.4
    assert_eq!(fp_precap_correction(105, BattleDirection::TAdvantage, DamagedLevel::Heavy), 5040);
    // 105 * 0.6 * 1.0 = 63
    assert_eq!(fp_precap_correction(105, BattleDirection::TDisadvantage, DamagedLevel::Minor), 6300);
    assert_eq!(fp_precap_correction(105, BattleDirection::Same, DamagedLevel::Sunk), 0);
}

#[test]
fn direction_and_damage_factors_are_in_tenths() {
    assert_eq!(BattleDirection::Same.fp_factor(), 10);
    assert_eq!(BattleDirection::Against.fp_factor(), 8);
    assert_eq!(BattleDirection::TAdvantage.fp_factor(), 12);
    assert_eq!(BattleDirection::TDisadvantage.fp_factor(), 6);
    assert_eq!(DamagedLevel::NoDamage.fp_factor(), 10);
    assert_eq!(DamagedLevel::Minor.fp_factor(), 10);
    assert_eq!(DamagedLevel::Moderate.fp_factor(), 7);
    assert_eq!(DamagedLevel::Heavy.fp_factor(), 4);
    assert_eq!(DamagedLevel::Sunk.fp_factor(), 0);
}

#[test]
fn direction_thresholds() {
    // 0.45 * 2^32 = 1932735283.2, 0.75 * 2^32 = 3221225472, 0.9 * 2^32 = 3865470566.4
    assert_eq!(BattleDirection::from_roll(0), BattleDirection::Same);
    assert_eq!(BattleDirection::from_roll(1932735283), BattleDirection::Same);
    assert_eq!(BattleDirection::from_roll(1932735284), BattleDirection::Against);
    assert_eq!(BattleDirection::from_roll(3221225471), BattleDirection::Against);
    assert_eq!(BattleDirection::from_roll(3221225472), BattleDirection::TAdvantage);
    assert_eq!(BattleDirection::from_roll(3865470566), BattleDirection::TAdvantage);
    assert_eq!(BattleDirection::from_roll(3865470567), BattleDirection::TDisadvantage);
    assert_eq!(BattleDirection::from_roll(u32::MAX), BattleDirection::TDisadvantage);
}

#[test]
fn random_direction_is_one_of_the_four() {
    for _ in 0..200 {
        let d = BattleDirection::random();
        assert!(matches!(
            d,
            BattleDirection::Same
                | BattleDirection::Against
                | BattleDirection::TAdvantage
                | BattleDirection::TDisadvantage
        ));
    }
}

#[test]
fn basic_firepower_of_a_gunboat_adds_five() {
    let ship = gunboat(100);
    let snapshot = ShipSnapshot::from(&ship);
    assert_eq!(basic_fp(&ship, &snapshot), 105);
}

#[test]
fn basic_firepower_of_a_carrier_uses_the_aircraft_formula() {
    // floor((40 + 0 + 11) * 1.5) + 55 = floor(76.5) + 55 = 131
    let ship = carrier(40, 0, 11);
    let snapshot = ShipSnapshot::from(&ship);
    assert!(ship.has_attack_aircraft(&snapshot));
    assert_eq!(basic_fp(&ship, &snapshot), 131);
    // floor((50 + 20 + 10) * 1.5) + 55 = 175
    let ship = carrier(50, 20, 10);
    let snapshot = ShipSnapshot::from(&ship);
    assert_eq!(basic_fp(&ship, &snapshot), 175);
}

#[test]
fn attack_firepower_follows_the_damage_tier() {
    let ship = gunboat(100);
    // 105 at full health, 105 * 0.7 = 73.5 at 45 of 100, 105 * 0.4 = 42 at 25 of 100.
    assert_eq!(calculate_firepower(&ship, &ShipSnapshot::new(100), BattleDirection::Same), 10500);
    assert_eq!(calculate_firepower(&ship, &ShipSnapshot::new(51), BattleDirection::Same), 10500);
    assert_eq!(calculate_firepower(&ship, &ShipSnapshot::new(45), BattleDirection::Same), 7350);
    assert_eq!(calculate_firepower(&ship, &ShipSnapshot::new(25), BattleDirection::Same), 4200);
    assert_eq!(calculate_firepower(&ship, &ShipSnapshot::new(100), BattleDirection::Against), 8400);
}

#[test]
fn attack_firepower_is_capped() {
    // 250 + 5 = 255, times 1.2 = 306: 220 + floor(sqrt(86)) = 229.
    let ship = gunboat(250);
    assert_eq!(calculate_firepower(&ship, &ShipSnapshot::new(100), BattleDirection::TAdvantage), 22900);
}

#[test]
fn damaged_level_tiers() {
    assert_eq!(DamagedLevel::of(100, 100), DamagedLevel::NoDamage);
    assert_eq!(DamagedLevel::of(76, 100), DamagedLevel::NoDamage);
    assert_eq!(DamagedLevel::of(75, 100), DamagedLevel::Minor);
    assert_eq!(DamagedLevel::of(51, 100), DamagedLevel::Minor);
    assert_eq!(DamagedLevel::of(50, 100), DamagedLevel::Moderate);
    assert_eq!(DamagedLevel::of(26, 100), DamagedLevel::Moderate);
    assert_eq!(DamagedLevel::of(25, 100), DamagedLevel::Heavy);
    assert_eq!(DamagedLevel::of(1, 100), DamagedLevel::Heavy);
    assert_eq!(DamagedLevel::of(0, 100), DamagedLevel::Sunk);
    assert_eq!(DamagedLevel::of(1, 3), DamagedLevel::Moderate);
    assert_eq!(DamagedLevel::of(2, 3), DamagedLevel::Minor);
    assert_eq!(DamagedLevel::of(3, 3), DamagedLevel::NoDamage);
    assert!(DamagedLevel::Moderate.at_least_moderate());
    assert!(DamagedLevel::Heavy.at_least_moderate());
    assert!(DamagedLevel::Sunk.at_least_moderate());
    assert!(!DamagedLevel::Minor.at_least_moderate());
    assert!(!DamagedLevel::NoDamage.at_least_moderate());
    assert_eq!(gunboat(1).damaged_level(&ShipSnapshot::new(50)), DamagedLevel::Moderate);
}

#[test]
fn integer_square_roots() {
    assert_eq!(isqrt(0), 0);
    assert_eq!(isqrt(1), 1);
    assert_eq!(isqrt(3), 1);
    assert_eq!(isqrt(4), 2);
    assert_eq!(isqrt(10), 3);
    assert_eq!(isqrt(99), 9);
    assert_eq!(isqrt(100), 10);
    assert_eq!(isqrt(u64::MAX), 4294967295);
}

#[test]
fn scaling_by_a_fraction_rounds_down() {
    assert_eq!(scale(50, 0), 0);
    assert_eq!(scale(50, 0x8000_0000), 25);
    assert_eq!(scale(50, u32::MAX), 49);
    assert_eq!(scale(0, u32::MAX), 0);
    assert_eq!(scale(3, 0x5555_5555), 0);
    assert_eq!(scale(3, 0x5555_5556), 1);
    assert_eq!(scale(u16::MAX, u32::MAX), u16::MAX - 1);
}
