use fleet_battle::{
    BattleDirection, DamagedLevel, Equipment, EquipmentStatus, FightingShip, Range, Ship, ShipStatus,
};

fn ship(max_hp: u16, now_hp: u16, firepower: u16, equips: Vec<Equipment>) -> Ship {
    let status = ShipStatus {
        max_hp,
        now_hp,
        firepower,
        armor: 40,
        torpedo: 20,
        anti_aircraft: 0,
        condition: 49,
        evasion: None,
        airplane_slots: None,
        anti_submarine_warfare: None,
        speed: None,
        scouting: None,
        range: Some(Range::Medium),
        luck: None,
    };
    Ship::new(4, "Kongou".to_string(), Some(8), None, status, equips)
}

fn bomber() -> Equipment {
    let mut stats = EquipmentStatus::default();
    stats.bombing = 10;
    Equipment::new(1, None, Some(vec![3, 5, 7]), Some(stats))
}

#[test]
fn a_fighting_ship_reads_ship_and_snapshot() {
    let fs = FightingShip::new(ship(100, 80, 90, Vec::new()), true, 2);
    assert_eq!(fs.ship().name(), "Kongou".to_string());
    assert_eq!(fs.index_in_fleet(), 2);
    assert_eq!(fs.snapshot().hp(), 80);
    assert_eq!(fs.name(), "Kongou".to_string());
    assert_eq!(fs.hp_before(), 80);
    assert_eq!(fs.hp_now(), 80);
    assert_eq!(fs.firepower(), 90);
    assert_eq!(fs.armor(), 40);
    assert_eq!(fs.torpedo(), 20);
    assert_eq!(fs.bombing(), 0);
    assert_eq!(fs.range(), Range::Medium);
    assert!(fs.is_friend());
    assert!(fs.is_alive());
    assert_eq!(fs.damaged_level(), DamagedLevel::NoDamage);
    assert!(fs.is_battleship_class());
    assert!(!fs.has_attack_aircraft());
    let copy = fs.clone();
    assert_eq!(copy.hp_now(), 80);
    assert_eq!(copy.index_in_fleet(), 2);
}

#[test]
fn a_fighting_ship_calculates_its_firepower() {
    let fs = FightingShip::new(ship(100, 100, 100, Vec::new()), true, 0);
    assert_eq!(fs.calculate_firepower(&BattleDirection::Same, 22000), 10500);
    assert_eq!(fs.calculate_firepower(&BattleDirection::Against, 22000), 8400);
    // 105 * 1.2 = 126 under a cap of 90: 90 + floor(sqrt(36)) = 96
    assert_eq!(fs.calculate_firepower(&BattleDirection::TAdvantage, 9000), 9600);

    // floor((100 + 20 + 10) * 1.5) + 55 = 250; 250 * 0.6 = 150
    let carrier = FightingShip::new(ship(100, 100, 100, vec![bomber()]), false, 1);
    assert!(carrier.has_attack_aircraft());
    assert_eq!(carrier.bombing(), 10);
    assert_eq!(carrier.calculate_firepower(&BattleDirection::TDisadvantage, 22000), 15000);
    // 250 under the cap of 220: 220 + floor(sqrt(30)) = 225
    assert_eq!(carrier.calculate_firepower(&BattleDirection::Same, 22000), 22500);
}

#[test]
fn damage_lowers_the_firepower_of_a_fighting_ship() {
    let mut fs = FightingShip::new(ship(100, 100, 100, Vec::new()), false, 0);
    fs.apply_damage(60);
    assert_eq!(fs.hp_now(), 40);
    assert_eq!(fs.hp_before(), 100);
    assert_eq!(fs.damaged_level(), DamagedLevel::Moderate);
    // 105 * 0.7 = 73.5
    assert_eq!(fs.calculate_firepower(&BattleDirection::Same, 22000), 7350);
}

#[test]
fn an_enemy_fighting_ship_can_be_sunk() {
    let mut fs = FightingShip::new(ship(100, 30, 10, Vec::new()), false, 0);
    fs.apply_damage(30);
    assert_eq!(fs.hp_now(), 0);
    assert!(!fs.is_alive());
    assert_eq!(fs.damaged_level(), DamagedLevel::Sunk);
    fs.apply_damage(5);
    assert_eq!(fs.hp_now(), 0);
}

#[test]
fn a_friendly_escort_is_left_with_one_hit_point() {
    let mut fs = FightingShip::new(ship(100, 30, 10, Vec::new()), true, 3);
    fs.apply_damage(29);
    assert_eq!(fs.hp_now(), 1);
    let mut fs = FightingShip::new(ship(100, 30, 10, Vec::new()), true, 3);
    fs.apply_damage(30);
    assert_eq!(fs.hp_now(), 1);
    fs.apply_damage(500);
    assert_eq!(fs.hp_now(), 1);
}

#[test]
fn a_friendly_flagship_takes_the_drawn_damage() {
    let mut fs = FightingShip::new(ship(100, 10, 10, Vec::new()), true, 0);
    // floor(10 * 0.5 + floor(10 * 0.5) * 0.3) = 6
    fs.apply_damage_with(200, 0x8000_0000);
    assert_eq!(fs.hp_now(), 4);
    // a hit that does not sink counts as it is
    fs.apply_damage_with(3, 0);
    assert_eq!(fs.hp_now(), 1);

    for _ in 0..100 {
        let mut fs = FightingShip::new(ship(100, 10, 10, Vec::new()), true, 0);
        fs.apply_damage(10);
        assert!((3..=5).contains(&fs.hp_now()));
    }
}
