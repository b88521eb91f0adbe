use fleet_battle::battle_log::initial_snapshots;
use fleet_battle::battle_setup::has_battleship;
use fleet_battle::{
    ActionLog, AttackLog, AttackType, BattleDirection, BattleLog, BattleSetup, EnemyFleet, Fleet,
    FleetLike, Phase, Ship, ShipStatus,
};

fn ship(class_id: Option<u16>, hp: u16) -> Ship {
    let status = ShipStatus {
        max_hp: hp,
        now_hp: hp,
        firepower: 10,
        armor: 10,
        torpedo: 0,
        anti_aircraft: 0,
        condition: 49,
        evasion: None,
        airplane_slots: None,
        anti_submarine_warfare: None,
        speed: None,
        scouting: None,
        range: None,
        luck: None,
    };
    Ship::new(1, "ship".to_string(), class_id, None, status, Vec::new())
}

#[test]
fn setup_copies_both_fleets() {
    let friend = Fleet::new(vec![ship(Some(2), 30), ship(Some(3), 40)], None);
    let enemy = EnemyFleet::new(2, 3, "C".to_string(), vec![ship(Some(2), 50)], None);
    let setup = BattleSetup::new(&friend, &enemy);
    assert_eq!(setup.friend_fleet.ships().len(), 2);
    assert_eq!(setup.friend_fleet.ships()[1].hp(), 40);
    assert_eq!(setup.enemy_fleet.ships()[0].hp(), 50);
    assert_eq!(setup.enemy_fleet.node(), "C".to_string());
    assert_eq!(setup.direction(), setup.direction);

    let setup = BattleSetup::with_direction(&friend, &enemy, BattleDirection::Against);
    assert_eq!(setup.direction(), BattleDirection::Against);
}

#[test]
fn setup_looks_for_battleships_on_both_sides() {
    let plain = Fleet::new(vec![ship(Some(2), 30), ship(None, 40)], None);
    let plain_enemy = EnemyFleet::new(2, 3, "C".to_string(), vec![ship(Some(11), 50)], None);
    assert!(!BattleSetup::new(&plain, &plain_enemy).includes_battleship_class());

    for class_id in [8u16, 9, 10, 12] {
        let heavy = Fleet::new(vec![ship(Some(2), 30), ship(Some(class_id), 40)], None);
        assert!(BattleSetup::new(&heavy, &plain_enemy).includes_battleship_class());
        let heavy_enemy = EnemyFleet::new(2, 3, "C".to_string(), vec![ship(Some(class_id), 50)], None);
        assert!(BattleSetup::new(&plain, &heavy_enemy).includes_battleship_class());
    }
    assert!(!has_battleship(&[]));
    assert!(!has_battleship(&[ship(Some(11), 1)]));
    assert!(has_battleship(&[ship(Some(11), 1), ship(Some(9), 1)]));
}

#[test]
fn log_starts_with_the_hit_points_at_entry() {
    let friend = Fleet::new(vec![ship(Some(2), 30), ship(Some(3), 0)], None);
    let enemy = EnemyFleet::new(2, 3, "C".to_string(), vec![ship(Some(2), 50)], None);
    let log = BattleLog::new(&friend, &enemy);
    assert!(log.action_logs.is_empty());
    let friend_hps: Vec<u16> = log.friend_snapshots.iter().map(|s| s.hp()).collect();
    let enemy_hps: Vec<u16> = log.enemy_snapshots.iter().map(|s| s.hp()).collect();
    assert_eq!(friend_hps, vec![30, 0]);
    assert_eq!(enemy_hps, vec![50]);
    assert!(initial_snapshots(&[]).is_empty());
}

#[test]
fn log_grows_at_its_end() {
    let friend = Fleet::new(vec![ship(Some(2), 30)], None);
    let enemy = EnemyFleet::new(2, 3, "C".to_string(), vec![ship(Some(2), 50)], None);
    let mut log = BattleLog::new(&friend, &enemy);
    log.push(ActionLog::PhaseStart(Phase::Artillery));
    log.push(ActionLog::TurnSkip { is_friend: false, ship_idx: 3, reason: "Sunk".to_string() });
    log.push(ActionLog::Sunk { is_friend: true, ship_idx: 1 });
    let attack = AttackLog {
        to_enemy: true,
        actor_idx: 0,
        target_idx: 0,
        attack_type: AttackType::Artillery,
        firepower: 15,
        armor: 7,
        calculated_damage: 8,
        applied_damage: 8,
        is_critical: false,
        is_miss: false,
    };
    log.push(ActionLog::Attack(attack));
    assert_eq!(log.action_logs.len(), 4);
    assert!(matches!(log.action_logs[0], ActionLog::PhaseStart(Phase::Artillery)));
    assert!(matches!(&log.action_logs[1], ActionLog::TurnSkip { is_friend: false, ship_idx: 3, .. }));
    assert!(matches!(log.action_logs[2], ActionLog::Sunk { is_friend: true, ship_idx: 1 }));
    match &log.action_logs[3] {
        ActionLog::Attack(a) => assert_eq!(*a, attack),
        other => panic!("unexpected entry {:?}", other),
    }
    assert_eq!(log.friend_snapshots.len(), 1);
    assert_eq!(log.enemy_snapshots[0].hp(), 50);
}
