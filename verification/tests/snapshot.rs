use fleet_battle::{Ship, ShipSnapshot, ShipStatus};

fn ship_with_hp(now_hp: u16) -> Ship {
    let status = ShipStatus {
        max_hp: 20,
        now_hp,
        firepower: 0,
        armor: 0,
        torpedo: 0,
        anti_aircraft: 0,
        condition: 49,
        evasion: None,
        airplane_slots: None,
        anti_submarine_warfare: None,
        speed: None,
        scouting: None,
        range: None,
        luck: None,
    };
    Ship::new(1, "Test".to_string(), Some(1), Some("Type".to_string()), status, Vec::new())
}

#[test]
fn ship_snapshot_from_and_apply_damage() {
    let ship = ship_with_hp(12);
    let mut snap = ShipSnapshot::from(&ship);
    assert_eq!(snap.hp(), 12);

    snap.apply_damage(5);
    assert_eq!(snap.hp(), 7);

    snap.apply_damage(10);
    assert_eq!(snap.hp(), 0);
}
