use fleet_battle::fleet::{all_valid, ships_with_snapshots};
use fleet_battle::{
    BattleDirection, EnemyFleet, Equipment, EquipmentStatus, Fleet, FleetLike, Formation, Range, Ship,
    ShipSnapshot, ShipStatus,
};

fn status(max_hp: u16, now_hp: u16) -> ShipStatus {
    ShipStatus {
        max_hp,
        now_hp,
        firepower: 12,
        armor: 34,
        torpedo: 56,
        anti_aircraft: 7,
        condition: 49,
        evasion: Some(8),
        airplane_slots: Some(vec![18, 18, 27]),
        anti_submarine_warfare: None,
        speed: Some(10),
        scouting: None,
        range: Some(Range::Short),
        luck: Some(9),
    }
}

fn stats() -> EquipmentStatus {
    EquipmentStatus {
        firepower: 1,
        armor: 2,
        torpedo: 3,
        anti_aircraft: Some(4),
        anti_submarine_warfare: None,
        evasion: 6,
        aiming: 7,
        range: Range::Long,
        scouting: 8,
        speed: 9,
        bombing: 10,
        aircraft_range: 11,
        aircraft_cost: 12,
    }
}

fn ship(name: &str, hp: u16, equips: Vec<Equipment>) -> Ship {
    Ship::new(5, name.to_string(), Some(3), Some("light cruiser".to_string()), status(hp, hp), equips)
}

#[test]
fn equipment_status_defaults_when_missing_fields() {
    let e = EquipmentStatus::default();

    assert_eq!(e.firepower, 0);
    assert_eq!(e.armor, 0);
    assert_eq!(e.torpedo, 0);
    assert_eq!(e.anti_aircraft, Some(0));
    assert_eq!(e.anti_submarine_warfare, Some(0));
    assert_eq!(e.evasion, 0);
    assert_eq!(e.aiming, 0);
    assert_eq!(e.range, Range::NoRange);
    assert_eq!(e.scouting, 0);
    assert_eq!(e.speed, 0);
    assert_eq!(e.bombing, 0);
    assert_eq!(e.aircraft_range, 0);
    assert_eq!(e.aircraft_cost, 0);
}

#[test]
fn equipment_reads_its_stats() {
    let e = Equipment::new(1617, Some("night fighter".to_string()), Some(vec![3, 5, 6]), Some(stats()));
    assert_eq!(e.firepower(), 1);
    assert_eq!(e.armor(), 2);
    assert_eq!(e.torpedo(), 3);
    assert_eq!(e.anti_aircraft(), 4);
    assert_eq!(e.anti_submarine_warfare(), 0);
    assert_eq!(e.evasion(), 6);
    assert_eq!(e.aiming(), 7);
    assert_eq!(e.range(), Range::Long);
    assert_eq!(e.scouting(), 8);
    assert_eq!(e.bombing(), 10);
    assert_eq!(e.aircraft_range(), 11);
    assert_eq!(e.aircraft_cost(), 12);
    assert!(e.is_valid());
    assert!(!e.is_attack_aircraft());
}

#[test]
fn equipment_without_stats_reads_zero() {
    let e = Equipment::default();
    assert_eq!(e.firepower(), 0);
    assert_eq!(e.armor(), 0);
    assert_eq!(e.torpedo(), 0);
    assert_eq!(e.anti_aircraft(), 0);
    assert_eq!(e.anti_submarine_warfare(), 0);
    assert_eq!(e.evasion(), 0);
    assert_eq!(e.aiming(), 0);
    assert_eq!(e.range(), Range::NoRange);
    assert_eq!(e.scouting(), 0);
    assert_eq!(e.bombing(), 0);
    assert_eq!(e.aircraft_range(), 0);
    assert_eq!(e.aircraft_cost(), 0);
    assert!(e.is_valid());
    assert!(!e.is_attack_aircraft());
}

#[test]
fn attack_aircraft_have_the_category_7_or_8() {
    for category in 0u16..12 {
        let e = Equipment::new(1, None, Some(vec![3, 5, category, 0]), None);
        assert_eq!(e.is_attack_aircraft(), category == 7 || category == 8);
    }
    let short = Equipment::new(1, None, Some(vec![7, 8]), None);
    assert!(!short.is_valid());
}

#[test]
fn ship_reads_its_stats() {
    let bomber = Equipment::new(1, None, Some(vec![3, 5, 7]), Some(stats()));
    let radar = Equipment::new(2, None, Some(vec![5, 8, 12]), None);
    let mut five = stats();
    five.bombing = 5;
    five.range = Range::Medium;
    let gun = Equipment::new(3, None, None, Some(five));
    let s = Ship::new(
        100,
        "Akagi".to_string(),
        Some(11),
        Some("Carrier".to_string()),
        status(77, 70),
        vec![bomber, radar, gun],
    );
    assert_eq!(s.max_hp(), 77);
    assert_eq!(s.hp(), 70);
    assert_eq!(s.firepower(), 12);
    assert_eq!(s.armor(), 34);
    assert_eq!(s.torpedo(), 56);
    assert_eq!(s.bombing(), 15);
    assert_eq!(s.range(), Range::Long);
    assert_eq!(s.name(), "Akagi".to_string());
    assert_eq!(s.ship_type_id(), 11);
    assert!(!s.is_battleship_class());
    assert!(s.has_attack_aircraft(&ShipSnapshot::new(70)));
    assert!(s.is_valid());
}

#[test]
fn ship_without_equipment() {
    let s = ship("bare", 20, Vec::new());
    assert_eq!(s.bombing(), 0);
    assert_eq!(s.range(), Range::Short);
    assert!(!s.has_attack_aircraft(&ShipSnapshot::new(20)));
    assert!(s.is_valid());
}

#[test]
fn ship_checks_what_it_carries() {
    let short_list = Equipment::new(1, None, Some(vec![1]), None);
    assert!(!ship("bad", 20, vec![short_list]).is_valid());

    let mut heavy = stats();
    heavy.bombing = 40000;
    let a = Equipment::new(1, None, None, Some(heavy));
    let b = Equipment::new(2, None, None, Some(heavy));
    assert!(ship("one", 20, vec![a.clone()]).is_valid());
    assert!(!ship("two", 20, vec![a, b]).is_valid());

    let good = ship("good", 20, Vec::new());
    let bad = ship("bad", 20, vec![Equipment::new(1, None, Some(Vec::new()), None)]);
    assert!(all_valid(&[good.clone(), good.clone()]));
    assert!(!all_valid(&[good, bad]));
    assert!(all_valid(&[]));
}

#[test]
fn ship_takes_the_hit_points_of_a_snapshot() {
    let mut s = ship("hit", 20, Vec::new());
    s.apply_snapshot(&ShipSnapshot::new(3));
    assert_eq!(s.hp(), 3);
    assert_eq!(s.max_hp(), 20);
    assert_eq!(s.name(), "hit".to_string());
}

#[test]
fn range_classes_are_ordered() {
    let order = [
        Range::NoRange,
        Range::Short,
        Range::Medium,
        Range::Long,
        Range::VeryLong,
        Range::VeryVeryLong,
    ];
    for (i, a) in order.iter().enumerate() {
        assert_eq!(a.level() as usize, i);
        for (j, b) in order.iter().enumerate() {
            assert_eq!(a < b, i < j);
            assert_eq!(a.max_of(*b), if i >= j { *a } else { *b });
        }
    }
    assert_eq!(Range::default(), Range::NoRange);
}

#[test]
fn names_that_are_shown() {
    assert_eq!(Range::NoRange.label(), "None");
    assert_eq!(Range::Short.label(), "Short");
    assert_eq!(Range::Medium.label(), "Medium");
    assert_eq!(Range::Long.label(), "Long");
    assert_eq!(Range::VeryLong.label(), "Very Long");
    assert_eq!(Range::VeryVeryLong.label(), "Very Very Long");
    assert_eq!(BattleDirection::Same.label(), "同航戦");
    assert_eq!(BattleDirection::Against.label(), "反航戦");
    assert_eq!(BattleDirection::TAdvantage.label(), "Ｔ字有利");
    assert_eq!(BattleDirection::TDisadvantage.label(), "Ｔ字不利");
}

#[test]
fn an_empty_fleet_does_not_validate() {
    let mut fleet = Fleet::new(Vec::new(), None);
    assert!(fleet.is_empty());
    assert!(!fleet.validate());
    assert_eq!(fleet.formation(), None);

    let mut enemy = EnemyFleet::new(1, 2, "B".to_string(), Vec::new(), Some(Formation::Diamond));
    assert!(!enemy.validate());
    assert_eq!(enemy.formation(), Some(Formation::Diamond));
}

#[test]
fn validation_sets_the_default_formation() {
    let mut fleet = Fleet::new(vec![ship("a", 10, Vec::new())], None);
    assert!(!fleet.is_empty());
    assert!(fleet.validate());
    assert_eq!(fleet.formation(), Some(Formation::LineAhead));
    assert_eq!(fleet.ships().len(), 1);

    let mut fleet = Fleet::new(vec![ship("a", 10, Vec::new())], Some(Formation::Echelon));
    assert!(fleet.validate());
    assert_eq!(fleet.formation(), Some(Formation::Echelon));

    let mut enemy = EnemyFleet::new(1, 2, "B".to_string(), vec![ship("e", 10, Vec::new())], None);
    assert!(enemy.validate());
    assert_eq!(enemy.formation(), Some(Formation::LineAhead));
    assert_eq!(enemy.area(), 1);
    assert_eq!(enemy.map(), 2);
    assert_eq!(enemy.node(), "B".to_string());
}

#[test]
fn fleets_can_be_changed() {
    let mut fleet = Fleet::new(vec![ship("a", 10, Vec::new())], Some(Formation::Vanguard));
    fleet.set_ships(vec![ship("b", 20, Vec::new()), ship("c", 30, Vec::new())]);
    assert_eq!(fleet.ships().len(), 2);
    assert_eq!(fleet.ships()[1].name(), "c".to_string());
    assert_eq!(fleet.formation(), Some(Formation::Vanguard));
    fleet.set_formation_default();
    assert_eq!(fleet.formation(), Some(Formation::LineAhead));

    let mut enemy = EnemyFleet::new(1, 2, "B".to_string(), Vec::new(), Some(Formation::LineAbreast));
    enemy.set_ships(vec![ship("e", 10, Vec::new())]);
    assert_eq!(enemy.ships()[0].hp(), 10);
    assert_eq!(enemy.formation(), Some(Formation::LineAbreast));
    enemy.set_formation_default();
    assert_eq!(enemy.formation(), Some(Formation::LineAhead));
    assert_eq!(enemy.node(), "B".to_string());
}

#[test]
fn snapshots_are_applied_by_position() {
    let fleet = Fleet::new(
        vec![ship("a", 10, Vec::new()), ship("b", 20, Vec::new()), ship("c", 30, Vec::new())],
        Some(Formation::Diamond),
    );
    let after = fleet.apply_snapshot(&[ShipSnapshot::new(1), ShipSnapshot::new(0), ShipSnapshot::new(30)]);
    let hps: Vec<u16> = after.ships().iter().map(|s| s.hp()).collect();
    assert_eq!(hps, vec![1, 0, 30]);
    assert_eq!(after.ships()[1].name(), "b".to_string());
    assert_eq!(after.ships()[1].max_hp(), 20);
    assert_eq!(after.formation(), Some(Formation::Diamond));
    // the fleet itself is as it was
    assert_eq!(fleet.ships()[0].hp(), 10);

    // Ships without a snapshot are left out, and so are snapshots without a ship.
    let fewer = fleet.apply_snapshot(&[ShipSnapshot::new(4)]);
    assert_eq!(fewer.ships().len(), 1);
    assert_eq!(fewer.ships()[0].hp(), 4);
    let more = ships_with_snapshots(
        fleet.ships(),
        &[ShipSnapshot::new(1), ShipSnapshot::new(2), ShipSnapshot::new(3), ShipSnapshot::new(4)],
    );
    assert_eq!(more.len(), 3);

    let enemy = EnemyFleet::new(61, 4, "Z".to_string(), vec![ship("e", 930, Vec::new())], None);
    let after = enemy.apply_snapshot(&[ShipSnapshot::new(900)]);
    assert_eq!(after.ships()[0].hp(), 900);
    assert_eq!(after.area(), 61);
    assert_eq!(after.map(), 4);
    assert_eq!(after.node(), "Z".to_string());
    assert_eq!(after.formation(), None);
}

#[test]
fn snapshot_tells_whether_the_ship_is_afloat() {
    let mut snap = ShipSnapshot::new(3);
    assert!(snap.is_alive());
    snap.apply_damage(0);
    assert_eq!(snap.hp(), 3);
    snap.apply_damage(3);
    assert_eq!(snap.hp(), 0);
    assert!(!snap.is_alive());
    snap.apply_damage(u16::MAX);
    assert_eq!(snap.hp(), 0);
}
