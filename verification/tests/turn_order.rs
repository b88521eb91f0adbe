use fleet_battle::turn_order::{filter_alive, order_by_index, order_by_range, sort_by_range, tag};
use fleet_battle::{
    Battle, BattleDirection, EnemyFleet, Equipment, EquipmentStatus, Fleet, Range, Ship, ShipSnapshot,
    ShipStatus,
};

fn ship(range: Option<Range>) -> Ship {
    let status = ShipStatus {
        max_hp: 50,
        now_hp: 50,
        firepower: 10,
        armor: 10,
        torpedo: 0,
        anti_aircraft: 0,
        condition: 49,
        evasion: None,
        airplane_slots: None,
        anti_submarine_warfare: None,
        speed: None,
        scouting: None,
        range,
        luck: None,
    };
    Ship::new(1, "ship".to_string(), Some(2), None, status, Vec::new())
}

fn ships(ranges: &[Range]) -> Vec<Ship> {
    ranges.iter().map(|r| ship(Some(*r))).collect()
}

fn snapshots(hps: &[u16]) -> Vec<ShipSnapshot> {
    hps.iter().map(|hp| ShipSnapshot::new(*hp)).collect()
}

#[test]
fn friend_fires_first_when_best_ranges_tie() {
    let friend = ships(&[Range::Medium, Range::Medium]);
    let enemy = ships(&[Range::Medium, Range::Medium]);
    let order = order_by_range(&friend, &snapshots(&[50, 50]), &enemy, &snapshots(&[50, 50]));
    assert_eq!(order, vec![(true, 0), (false, 0), (true, 1), (false, 1)]);
}

#[test]
fn enemy_fires_first_when_its_best_range_is_longer() {
    let friend = ships(&[Range::Short, Range::Medium]);
    let enemy = ships(&[Range::Long, Range::Short]);
    let order = order_by_range(&friend, &snapshots(&[50, 50]), &enemy, &snapshots(&[50, 50]));
    assert_eq!(order, vec![(false, 0), (true, 1), (false, 1), (true, 0)]);
}

#[test]
fn sides_alternate_by_falling_range() {
    // The player has a long and a short range, the enemy two medium ones.
    let friend = ships(&[Range::Long, Range::Short]);
    let enemy = ships(&[Range::Medium, Range::Medium]);
    let order = order_by_range(&friend, &snapshots(&[50, 50]), &enemy, &snapshots(&[50, 50]));
    assert_eq!(order, vec![(true, 0), (false, 0), (true, 1), (false, 1)]);
}

#[test]
fn range_sort_is_stable_and_falling() {
    let fleet = ships(&[
        Range::Short,
        Range::VeryLong,
        Range::Short,
        Range::NoRange,
        Range::VeryVeryLong,
        Range::VeryLong,
        Range::Medium,
        Range::Long,
    ]);
    let all_afloat = snapshots(&[1, 1, 1, 1, 1, 1, 1, 1]);
    assert_eq!(sort_by_range(&fleet, &all_afloat), vec![4, 1, 5, 7, 6, 0, 2, 3]);
}

#[test]
fn range_sort_leaves_sunk_ships_out() {
    let fleet = ships(&[Range::Short, Range::VeryLong, Range::Short, Range::Long]);
    assert_eq!(sort_by_range(&fleet, &snapshots(&[5, 0, 7, 0])), vec![0, 2]);
    assert_eq!(sort_by_range(&fleet, &snapshots(&[0, 0, 0, 0])), Vec::<usize>::new());
    assert_eq!(sort_by_range(&[], &[]), Vec::<usize>::new());
}

#[test]
fn the_rest_of_the_longer_side_follows_in_its_order() {
    let friend = ships(&[Range::Long]);
    let enemy = ships(&[Range::Short, Range::Medium, Range::Short, Range::Long]);
    let order = order_by_range(&friend, &snapshots(&[50]), &enemy, &snapshots(&[50, 50, 50, 50]));
    assert_eq!(order, vec![(true, 0), (false, 3), (false, 1), (false, 0), (false, 2)]);
}

#[test]
fn a_side_without_a_ship_afloat_does_not_lead() {
    let friend = ships(&[Range::VeryVeryLong]);
    let enemy = ships(&[Range::Short, Range::Short]);
    let order = order_by_range(&friend, &snapshots(&[0]), &enemy, &snapshots(&[50, 50]));
    assert_eq!(order, vec![(false, 0), (false, 1)]);
    let order = order_by_range(&friend, &snapshots(&[9]), &enemy, &snapshots(&[0, 0]));
    assert_eq!(order, vec![(true, 0)]);
}

#[test]
fn no_ship_afloat_gives_an_empty_order() {
    let friend = ships(&[Range::Long]);
    let enemy = ships(&[Range::Short]);
    assert!(order_by_range(&friend, &snapshots(&[0]), &enemy, &snapshots(&[0])).is_empty());
    assert!(order_by_range(&[], &[], &[], &[]).is_empty());
    assert!(order_by_index(&[], &[]).is_empty());
}

#[test]
fn a_ship_without_a_range_sorts_last() {
    let friend = vec![ship(None), ship(Some(Range::Short))];
    let enemy = vec![ship(None)];
    let order = order_by_range(&friend, &snapshots(&[50, 50]), &enemy, &snapshots(&[50]));
    assert_eq!(order, vec![(true, 1), (false, 0), (true, 0)]);
}

#[test]
fn equipment_can_lengthen_the_range() {
    let mut stats = EquipmentStatus::default();
    stats.range = Range::VeryLong;
    let gun = Equipment::new(9, None, None, Some(stats));
    let status = ShipStatus {
        max_hp: 50,
        now_hp: 50,
        firepower: 10,
        armor: 10,
        torpedo: 0,
        anti_aircraft: 0,
        condition: 49,
        evasion: None,
        airplane_slots: None,
        anti_submarine_warfare: None,
        speed: None,
        scouting: None,
        range: Some(Range::Short),
        luck: None,
    };
    let armed = Ship::new(3, "armed".to_string(), Some(2), None, status, vec![gun]);
    assert_eq!(armed.range(), Range::VeryLong);
    let friend = vec![ship(Some(Range::Long)), armed];
    let enemy = vec![ship(Some(Range::Long))];
    let order = order_by_range(&friend, &snapshots(&[50, 50]), &enemy, &snapshots(&[50]));
    assert_eq!(order, vec![(true, 1), (false, 0), (true, 0)]);
}

#[test]
fn index_order_alternates_by_position() {
    let order = order_by_index(&snapshots(&[5, 5, 5]), &snapshots(&[5, 5]));
    assert_eq!(order, vec![(true, 0), (false, 0), (true, 1), (false, 1), (true, 2)]);
    let order = order_by_index(&snapshots(&[5]), &snapshots(&[5, 5, 5]));
    assert_eq!(order, vec![(true, 0), (false, 0), (false, 1), (false, 2)]);
}

#[test]
fn index_order_leaves_sunk_ships_out() {
    let order = order_by_index(&snapshots(&[0, 5, 5]), &snapshots(&[5, 0, 5]));
    assert_eq!(order, vec![(true, 1), (false, 0), (true, 2), (false, 2)]);
    let order = order_by_index(&snapshots(&[0, 0]), &snapshots(&[5, 5]));
    assert_eq!(order, vec![(false, 0), (false, 1)]);
}

#[test]
fn alive_positions_and_tags() {
    assert_eq!(filter_alive(&snapshots(&[0, 3, 0, 1, 65535])), vec![1, 3, 4]);
    assert_eq!(filter_alive(&[]), Vec::<usize>::new());
    assert_eq!(tag(true, &vec![2, 0]), vec![(true, 2), (true, 0)]);
    assert_eq!(tag(false, &vec![]), Vec::<(bool, usize)>::new());
}

#[test]
fn a_battle_orders_its_own_fleets() {
    let friend = Fleet::new(ships(&[Range::Long, Range::Short]), None);
    let enemy = EnemyFleet::new(1, 1, "A".to_string(), ships(&[Range::Medium, Range::Medium]), None);
    let battle = Battle::with_direction(&friend, &enemy, BattleDirection::Same);
    assert_eq!(battle.ordered_by_range(), vec![(true, 0), (false, 0), (true, 1), (false, 1)]);
    assert_eq!(battle.ordered_by_index(), vec![(true, 0), (false, 0), (true, 1), (false, 1)]);
    let friend = Fleet::new(ships(&[Range::Short, Range::Long]), None);
    let battle = Battle::with_direction(&friend, &enemy, BattleDirection::Same);
    assert_eq!(battle.ordered_by_range(), vec![(true, 1), (false, 0), (true, 0), (false, 1)]);
    assert_eq!(battle.ordered_by_index(), vec![(true, 0), (false, 0), (true, 1), (false, 1)]);
}
