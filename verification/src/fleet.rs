//! Fleets: the player's and the enemy's, and what they have in common.

use crate::ship::{Ship, ShipView};
use crate::snapshot::ShipSnapshot;
use vstd::prelude::*;

verus! {

/// Formation that a fleet sails in.
#[derive(Clone, Copy, Debug, PartialEq, Eq)]
pub enum Formation {
    LineAhead,
    DoubleLine,
    Diamond,
    Echelon,
    LineAbreast,
    Vanguard,
}

/// The ships as plain values.
pub open spec fn ship_views(ships: Seq<Ship>) -> Seq<ShipView> {
    ships.map_values(|s: Ship| s@)
}

/// The hit points that the snapshots hold.
pub open spec fn snapshot_hps(snapshots: Seq<ShipSnapshot>) -> Seq<u16> {
    snapshots.map_values(|s: ShipSnapshot| s@)
}

/// Every ship of the sequence is well formed.
pub open spec fn ships_wf(ships: Seq<ShipView>) -> bool {
    forall|i: int| 0 <= i < ships.len() ==> (#[trigger] ships[i]).wf()
}

/// Whether every ship of the slice is well formed.
pub fn all_valid(ships: &[Ship]) -> (b: bool)
    ensures
        b == ships_wf(ship_views(ships@)),
{
    let ghost views = ship_views(ships@);
    let mut i: usize = 0;
    while i < ships.len()
        invariant
            i <= ships.len(),
            views == ship_views(ships@),
            forall|j: int| 0 <= j < i ==> (#[trigger] views[j]).wf(),
        decreases ships.len() - i,
    {
        if !ships[i].is_valid() {
            assert(!views[i as int].wf());
            return false;
        }
        i = i + 1;
    }
    true
}

/// The ships paired with the hit points position by position, as far as both
/// reach, each ship with the hit points of its pair.
pub open spec fn with_hps(ships: Seq<ShipView>, hps: Seq<u16>) -> Seq<ShipView> {
    Seq::new(
        if ships.len() <= hps.len() {
            ships.len()
        } else {
            hps.len()
        },
        |i: int| ships[i].with_hp(hps[i]),
    )
}

/// Copies the ships, each with the hit points of the snapshot at its position.
pub fn ships_with_snapshots(ships: &[Ship], snapshots: &[ShipSnapshot]) -> (r: Vec<Ship>)
    ensures
        ship_views(r@) == with_hps(ship_views(ships@), snapshot_hps(snapshots@)),
{
    let n = if ships.len() <= snapshots.len() {
        ships.len()
    } else {
        snapshots.len()
    };
    let mut out: Vec<Ship> = Vec::new();
    let mut i: usize = 0;
    while i < n
        invariant
            i <= n,
            n <= ships.len(),
            n <= snapshots.len(),
            out.len() == i,
            forall|j: int| 0 <= j < i ==> (#[trigger] out[j])@ == ships[j]@.with_hp(snapshots[j]@),
        decreases n - i,
    {
        let mut ship = ships[i].clone();
        ship.apply_snapshot(&snapshots[i]);
        out.push(ship);
        i = i + 1;
    }
    assert(ship_views(out@) =~= with_hps(ship_views(ships@), snapshot_hps(snapshots@)));
    out
}

/// What the player's fleet and an enemy fleet have in common: a list of ships,
/// the first of them the flagship, and a formation.
pub trait FleetLike: Sized {
    /// The ships of the fleet, the flagship first.
    spec fn ships_view(&self) -> Seq<ShipView>;

    /// The formation of the fleet, if one is set.
    spec fn formation_view(&self) -> Option<Formation>;

    /// The ships of the fleet, the flagship first.
    fn ships(&self) -> (r: &[Ship])
        ensures
            ship_views(r@) == self.ships_view(),
    ;

    /// Replaces the ships of the fleet.
    fn set_ships(&mut self, ships: Vec<Ship>)
        ensures
            final(self).ships_view() == ship_views(ships@),
            final(self).formation_view() == old(self).formation_view(),
    ;

    /// The formation of the fleet, if one is set.
    fn formation(&self) -> (r: Option<Formation>)
        ensures
            r == self.formation_view(),
    ;

    /// Puts the fleet into the default formation, line ahead.
    fn set_formation_default(&mut self)
        ensures
            final(self).formation_view() == Some(Formation::LineAhead),
            final(self).ships_view() == old(self).ships_view(),
    ;

    /// Whether the fleet has no ship.
    fn is_empty(&self) -> (b: bool)
        ensures
            b == (self.ships_view().len() == 0),
    {
        self.ships().len() == 0
    }

    /// Checks a fleet that came from outside and mends what can be mended: a
    /// fleet without a formation gets the default one. An empty fleet cannot be
    /// mended; it is left as it is and `false` is returned.
    fn validate(&mut self) -> (ok: bool)
        ensures
            ok == (old(self).ships_view().len() > 0),
            final(self).ships_view() == old(self).ships_view(),
            final(self).formation_view() == (if ok && old(self).formation_view().is_none() {
                Some(Formation::LineAhead)
            } else {
                old(self).formation_view()
            }),
    {
        if self.is_empty() {
            return false;
        }
        if self.formation().is_none() {
            self.set_formation_default();
        }
        true
    }

    /// A copy of the fleet in which each ship has the hit points of the snapshot
    /// at its position; ships without a snapshot are left out.
    fn apply_snapshot(&self, snapshots: &[ShipSnapshot]) -> (r: Self)
        ensures
            r.ships_view() == with_hps(self.ships_view(), snapshot_hps(snapshots@)),
            r.formation_view() == self.formation_view(),
    ;
}

/// What a `Fleet` holds, as plain values.
pub struct FleetView {
    pub ships: Seq<ShipView>,
    pub formation: Option<Formation>,
}

/// The player's fleet.
#[derive(Debug)]
pub struct Fleet {
    ships: Vec<Ship>,
    formation: Option<Formation>,
}

impl View for Fleet {
    type V = FleetView;

    closed spec fn view(&self) -> FleetView {
        FleetView { ships: ship_views(self.ships@), formation: self.formation }
    }
}

impl Clone for Fleet {
    fn clone(&self) -> (r: Self)
        ensures
            r@ == self@,
    {
        let ships = self.ships.clone();
        assert(ship_views(ships@) =~= ship_views(self.ships@));
        Fleet { ships, formation: self.formation }
    }
}

impl Fleet {
    /// A fleet of the given ships.
    pub fn new(ships: Vec<Ship>, formation: Option<Formation>) -> (r: Self)
        ensures
            r@ == (FleetView { ships: ship_views(ships@), formation }),
    {
        Fleet { ships, formation }
    }
}

impl FleetLike for Fleet {
    open spec fn ships_view(&self) -> Seq<ShipView> {
        self@.ships
    }

    open spec fn formation_view(&self) -> Option<Formation> {
        self@.formation
    }

    fn ships(&self) -> (r: &[Ship]) {
        self.ships.as_slice()
    }

    fn set_ships(&mut self, ships: Vec<Ship>) {
        self.ships = ships;
    }

    fn formation(&self) -> (r: Option<Formation>) {
        self.formation
    }

    fn set_formation_default(&mut self) {
        self.formation = Some(Formation::LineAhead);
    }

    fn apply_snapshot(&self, snapshots: &[ShipSnapshot]) -> (r: Self) {
        Fleet {
            ships: ships_with_snapshots(self.ships.as_slice(), snapshots),
            formation: self.formation,
        }
    }
}

/// What an `EnemyFleet` holds, as plain values.
pub struct EnemyFleetView {
    pub area: u16,
    pub map: u16,
    pub node: Seq<char>,
    pub ships: Seq<ShipView>,
    pub formation: Option<Formation>,
}

/// One enemy fleet, with the place on the map where it is met.
#[derive(Debug)]
pub struct EnemyFleet {
    area: u16,
    map: u16,
    node: String,
    ships: Vec<Ship>,
    formation: Option<Formation>,
}

impl View for EnemyFleet {
    type V = EnemyFleetView;

    closed spec fn view(&self) -> EnemyFleetView {
        EnemyFleetView {
            area: self.area,
            map: self.map,
            node: self.node@,
            ships: ship_views(self.ships@),
            formation: self.formation,
        }
    }
}

impl Clone for EnemyFleet {
    fn clone(&self) -> (r: Self)
        ensures
            r@ == self@,
    {
        let ships = self.ships.clone();
        assert(ship_views(ships@) =~= ship_views(self.ships@));
        EnemyFleet {
            area: self.area,
            map: self.map,
            node: self.node.clone(),
            ships,
            formation: self.formation,
        }
    }
}

impl EnemyFleet {
    /// An enemy fleet of the given ships, met at the given place.
    pub fn new(
        area: u16,
        map: u16,
        node: String,
        ships: Vec<Ship>,
        formation: Option<Formation>,
    ) -> (r: Self)
        ensures
            r@ == (EnemyFleetView {
                area,
                map,
                node: node@,
                ships: ship_views(ships@),
                formation,
            }),
    {
        EnemyFleet { area, map, node, ships, formation }
    }

    /// Sea area in which the fleet is met.
    pub fn area(&self) -> (r: u16)
        ensures
            r == self@.area,
    {
        self.area
    }

    /// Map of the area on which the fleet is met.
    pub fn map(&self) -> (r: u16)
        ensures
            r == self@.map,
    {
        self.map
    }

    /// Node of the map at which the fleet is met.
    pub fn node(&self) -> (r: String)
        ensures
            r@ == self@.node,
    {
        self.node.clone()
    }
}

impl FleetLike for EnemyFleet {
    open spec fn ships_view(&self) -> Seq<ShipView> {
        self@.ships
    }

    open spec fn formation_view(&self) -> Option<Formation> {
        self@.formation
    }

    fn ships(&self) -> (r: &[Ship]) {
        self.ships.as_slice()
    }

    fn set_ships(&mut self, ships: Vec<Ship>)
        ensures
            final(self)@ == (EnemyFleetView { ships: ship_views(ships@), ..old(self)@ }),
    {
        self.ships = ships;
    }

    fn formation(&self) -> (r: Option<Formation>) {
        self.formation
    }

    fn set_formation_default(&mut self)
        ensures
            final(self)@ == (EnemyFleetView { formation: Some(Formation::LineAhead), ..old(self)@ }),
    {
        self.formation = Some(Formation::LineAhead);
    }

    fn apply_snapshot(&self, snapshots: &[ShipSnapshot]) -> (r: Self)
        ensures
            r@ == (EnemyFleetView {
                ships: with_hps(self@.ships, snapshot_hps(snapshots@)),
                ..self@
            }),
    {
        EnemyFleet {
            area: self.area,
            map: self.map,
            node: self.node.clone(),
            ships: ships_with_snapshots(self.ships.as_slice(), snapshots),
            formation: self.formation,
        }
    }
}

} // verus!
