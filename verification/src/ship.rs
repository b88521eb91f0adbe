//! Ships and the combat stats derived from what they carry.

use crate::damaged_level::{damaged_level_of, DamagedLevel};
use crate::equipment::{opt_list, opt_text, Equipment, EquipmentView};
use crate::range::Range;
use crate::snapshot::ShipSnapshot;
use vstd::prelude::*;

verus! {

/// Stat block of a ship as it is handed to the simulator.
#[derive(Debug)]
pub struct ShipStatus {
    pub max_hp: u16,
    pub now_hp: u16,
    pub firepower: u16,
    pub armor: u16,
    pub torpedo: u16,
    pub anti_aircraft: u16,
    pub condition: u16,
    pub evasion: Option<u16>,
    pub airplane_slots: Option<Vec<u16>>,
    pub anti_submarine_warfare: Option<u16>,
    pub speed: Option<u16>,
    pub scouting: Option<u16>,
    pub range: Option<Range>,
    pub luck: Option<u16>,
}

/// What a `ShipStatus` holds, as plain values.
pub struct ShipStatusView {
    pub max_hp: u16,
    pub now_hp: u16,
    pub firepower: u16,
    pub armor: u16,
    pub torpedo: u16,
    pub anti_aircraft: u16,
    pub condition: u16,
    pub evasion: Option<u16>,
    pub airplane_slots: Option<Seq<u16>>,
    pub anti_submarine_warfare: Option<u16>,
    pub speed: Option<u16>,
    pub scouting: Option<u16>,
    pub range: Option<Range>,
    pub luck: Option<u16>,
}

impl View for ShipStatus {
    type V = ShipStatusView;

    open spec fn view(&self) -> ShipStatusView {
        ShipStatusView {
            max_hp: self.max_hp,
            now_hp: self.now_hp,
            firepower: self.firepower,
            armor: self.armor,
            torpedo: self.torpedo,
            anti_aircraft: self.anti_aircraft,
            condition: self.condition,
            evasion: self.evasion,
            airplane_slots: opt_list(self.airplane_slots),
            anti_submarine_warfare: self.anti_submarine_warfare,
            speed: self.speed,
            scouting: self.scouting,
            range: self.range,
            luck: self.luck,
        }
    }
}

impl Clone for ShipStatus {
    fn clone(&self) -> (r: Self)
        ensures
            r@ == self@,
    {
        ShipStatus {
            max_hp: self.max_hp,
            now_hp: self.now_hp,
            firepower: self.firepower,
            armor: self.armor,
            torpedo: self.torpedo,
            anti_aircraft: self.anti_aircraft,
            condition: self.condition,
            evasion: self.evasion,
            airplane_slots: self.airplane_slots.clone(),
            anti_submarine_warfare: self.anti_submarine_warfare,
            speed: self.speed,
            scouting: self.scouting,
            range: self.range,
            luck: self.luck,
        }
    }
}

/// Sum of the bombing stat over the first `n` items of `equips`.
pub open spec fn bombing_upto(equips: Seq<EquipmentView>, n: nat) -> int
    decreases n,
{
    if n == 0 {
        0
    } else {
        bombing_upto(equips, (n - 1) as nat) + equips[n - 1].bombing()
    }
}

/// Longest range among the first `n` items of `equips`; `NoRange` where `n` is zero.
pub open spec fn range_upto(equips: Seq<EquipmentView>, n: nat) -> Range
    decreases n,
{
    if n == 0 {
        Range::NoRange
    } else {
        range_upto(equips, (n - 1) as nat).longer(equips[n - 1].range())
    }
}

/// What a `Ship` holds, as plain values, and the combat stats derived from them.
pub struct ShipView {
    pub id: u16,
    pub name: Seq<char>,
    pub ship_type_id: Option<u16>,
    pub ship_type_name: Option<Seq<char>>,
    pub status: ShipStatusView,
    pub equips: Seq<EquipmentView>,
}

impl ShipView {
    /// Every item can be asked whether it is an attack aircraft, and the
    /// bombing stats of the items add up to a 16-bit number.
    pub open spec fn wf(self) -> bool {
        &&& forall|i: int| 0 <= i < self.equips.len() ==> (#[trigger] self.equips[i]).wf()
        &&& bombing_upto(self.equips, self.equips.len()) <= u16::MAX
    }

    /// Hit points of the ship when it is fully repaired.
    pub open spec fn max_hp(self) -> u16 {
        self.status.max_hp
    }

    /// Hit points at the moment the ship enters the battle.
    pub open spec fn hp(self) -> u16 {
        self.status.now_hp
    }

    /// Firepower stat, equipment included.
    pub open spec fn firepower(self) -> u16 {
        self.status.firepower
    }

    /// Armor stat, equipment included.
    pub open spec fn armor(self) -> u16 {
        self.status.armor
    }

    /// Torpedo stat, equipment included.
    pub open spec fn torpedo(self) -> u16 {
        self.status.torpedo
    }

    /// Bombing stat: the sum over the equipment.
    pub open spec fn bombing(self) -> int {
        bombing_upto(self.equips, self.equips.len())
    }

    /// Effective range: the longest of the hull's range and the equipment's.
    pub open spec fn range(self) -> Range {
        let hull = match self.status.range {
            Some(r) => r,
            None => Range::NoRange,
        };
        hull.longer(range_upto(self.equips, self.equips.len()))
    }

    /// Class id of the ship, `0` where none is set.
    pub open spec fn ship_type_id(self) -> u16 {
        match self.ship_type_id {
            Some(id) => id,
            None => 0,
        }
    }

    /// Battleship classes have the class ids 8, 9, 10 and 12.
    pub open spec fn is_battleship_class(self) -> bool {
        let id = self.ship_type_id();
        id == 8 || id == 9 || id == 10 || id == 12
    }

    /// Some item of the equipment is an attack aircraft.
    pub open spec fn has_attack_aircraft(self) -> bool {
        exists|i: int| 0 <= i < self.equips.len() && (#[trigger] self.equips[i]).is_attack_aircraft()
    }

    /// The same ship with `hp` as its hit points.
    pub open spec fn with_hp(self, hp: u16) -> ShipView {
        ShipView { status: ShipStatusView { now_hp: hp, ..self.status }, ..self }
    }
}

/// The equipment as plain values.
pub open spec fn equipment_views(equips: Seq<Equipment>) -> Seq<EquipmentView> {
    equips.map_values(|e: Equipment| e@)
}

/// A ship with the stats it has when the battle starts.
#[derive(Debug)]
pub struct Ship {
    id: u16,
    name: String,
    ship_type_id: Option<u16>,
    ship_type_name: Option<String>,
    status: ShipStatus,
    equips: Vec<Equipment>,
}

impl View for Ship {
    type V = ShipView;

    closed spec fn view(&self) -> ShipView {
        ShipView {
            id: self.id,
            name: self.name@,
            ship_type_id: self.ship_type_id,
            ship_type_name: opt_text(self.ship_type_name),
            status: self.status@,
            equips: equipment_views(self.equips@),
        }
    }
}

impl Clone for Ship {
    fn clone(&self) -> (r: Self)
        ensures
            r@ == self@,
    {
        let equips = self.equips.clone();
        assert(equipment_views(equips@) =~= equipment_views(self.equips@));
        Ship {
            id: self.id,
            name: self.name.clone(),
            ship_type_id: self.ship_type_id,
            ship_type_name: self.ship_type_name.clone(),
            status: self.status.clone(),
            equips,
        }
    }
}

impl Ship {
    /// A ship with the given parts.
    pub fn new(
        id: u16,
        name: String,
        ship_type_id: Option<u16>,
        ship_type_name: Option<String>,
        status: ShipStatus,
        equips: Vec<Equipment>,
    ) -> (r: Self)
        ensures
            r@ == (ShipView {
                id,
                name: name@,
                ship_type_id,
                ship_type_name: opt_text(ship_type_name),
                status: status@,
                equips: equipment_views(equips@),
            }),
    {
        Ship { id, name, ship_type_id, ship_type_name, status, equips }
    }

    /// Identifier of the ship.
    pub fn id(&self) -> (r: u16)
        ensures
            r == self@.id,
    {
        self.id
    }

    /// Class id of the ship, if one is set.
    pub fn class(&self) -> (r: Option<u16>)
        ensures
            r == self@.ship_type_id,
    {
        self.ship_type_id
    }

    /// Name of the ship's class, if one is set.
    pub fn ship_type_name(&self) -> (r: Option<String>)
        ensures
            opt_text(r) == self@.ship_type_name,
    {
        self.ship_type_name.clone()
    }

    /// Stat block of the ship.
    pub fn status(&self) -> (r: &ShipStatus)
        ensures
            r@ == self@.status,
    {
        &self.status
    }

    /// The equipment that the ship carries.
    pub fn equips(&self) -> (r: &[Equipment])
        ensures
            equipment_views(r@) == self@.equips,
    {
        self.equips.as_slice()
    }

    /// Whether the ship is well formed: see `ShipView::wf`.
    pub fn is_valid(&self) -> (b: bool)
        ensures
            b == self@.wf(),
    {
        let ghost views = equipment_views(self.equips@);
        let mut total: u16 = 0;
        let mut i: usize = 0;
        while i < self.equips.len()
            invariant
                i <= self.equips.len(),
                views == equipment_views(self.equips@),
                views == self@.equips,
                total == bombing_upto(views, i as nat),
                forall|j: int| 0 <= j < i ==> (#[trigger] views[j]).wf(),
            decreases self.equips.len() - i,
        {
            let e = &self.equips[i];
            if !e.is_valid() {
                assert(!views[i as int].wf());
                return false;
            }
            let b = e.bombing();
            if b > u16::MAX - total {
                proof {
                    lemma_bombing_upto_monotonic(views, (i + 1) as nat, views.len());
                }
                return false;
            }
            total = total + b;
            i = i + 1;
        }
        true
    }

    /// Hit points of the ship when it is fully repaired.
    pub fn max_hp(&self) -> (r: u16)
        ensures
            r == self@.max_hp(),
    {
        self.status.max_hp
    }

    /// Hit points with which the ship enters the battle.
    pub fn hp(&self) -> (r: u16)
        ensures
            r == self@.hp(),
    {
        self.status.now_hp
    }

    /// Firepower stat. The stats of the equipment are included; bonuses for
    /// particular ships or for improved equipment are not.
    pub fn firepower(&self) -> (r: u16)
        ensures
            r == self@.firepower(),
    {
        self.status.firepower
    }

    /// Armor stat.
    pub fn armor(&self) -> (r: u16)
        ensures
            r == self@.armor(),
    {
        self.status.armor
    }

    /// Torpedo stat.
    pub fn torpedo(&self) -> (r: u16)
        ensures
            r == self@.torpedo(),
    {
        self.status.torpedo
    }

    /// Bombing stat: the sum over the equipment.
    pub fn bombing(&self) -> (r: u16)
        requires
            self@.wf(),
        ensures
            r == self@.bombing(),
    {
        let ghost views = equipment_views(self.equips@);
        let mut total: u16 = 0;
        let mut i: usize = 0;
        while i < self.equips.len()
            invariant
                i <= self.equips.len(),
                views == equipment_views(self.equips@),
                bombing_upto(views, views.len()) <= u16::MAX,
                total == bombing_upto(views, i as nat),
            decreases self.equips.len() - i,
        {
            let b = self.equips[i].bombing();
            proof {
                lemma_bombing_upto_monotonic(views, (i + 1) as nat, views.len());
            }
            total = total + b;
            i = i + 1;
        }
        total
    }

    /// Effective range: the longest of the hull's range and the equipment's.
    pub fn range(&self) -> (r: Range)
        ensures
            r == self@.range(),
    {
        let ghost views = equipment_views(self.equips@);
        let mut best = Range::NoRange;
        let mut i: usize = 0;
        while i < self.equips.len()
            invariant
                i <= self.equips.len(),
                views == equipment_views(self.equips@),
                best == range_upto(views, i as nat),
            decreases self.equips.len() - i,
        {
            best = best.max_of(self.equips[i].range());
            i = i + 1;
        }
        let hull = match self.status.range {
            Some(r) => r,
            None => Range::NoRange,
        };
        hull.max_of(best)
    }

    /// Name of the ship.
    pub fn name(&self) -> (r: String)
        ensures
            r@ == self@.name,
    {
        self.name.clone()
    }

    /// Class id of the ship, `0` where none is set.
    pub fn ship_type_id(&self) -> (r: u16)
        ensures
            r == self@.ship_type_id(),
    {
        match self.ship_type_id {
            Some(id) => id,
            None => 0,
        }
    }

    /// Whether the ship is of a battleship class: a slow or fast battleship, an
    /// aviation battleship or a super-dreadnought.
    pub fn is_battleship_class(&self) -> (b: bool)
        ensures
            b == self@.is_battleship_class(),
    {
        let id = self.ship_type_id();
        id == 8 || id == 9 || id == 10 || id == 12
    }

    /// Whether the ship carries an aircraft that can attack. A carrier without such
    /// an aircraft gives `false`; any other ship that carries one gives `true`.
    pub fn has_attack_aircraft(&self, _snapshot: &ShipSnapshot) -> (b: bool)
        requires
            self@.wf(),
        ensures
            b == self@.has_attack_aircraft(),
    {
        let ghost views = equipment_views(self.equips@);
        let mut i: usize = 0;
        while i < self.equips.len()
            invariant
                i <= self.equips.len(),
                views == equipment_views(self.equips@),
                views == self@.equips,
                self@.wf(),
                forall|j: int| 0 <= j < i ==> !(#[trigger] views[j]).is_attack_aircraft(),
            decreases self.equips.len() - i,
        {
            assert(views[i as int].wf());
            if self.equips[i].is_attack_aircraft() {
                assert(views[i as int].is_attack_aircraft());
                return true;
            }
            i = i + 1;
        }
        false
    }

    /// Damage tier of the ship at the hit points that `snapshot` holds.
    pub fn damaged_level(&self, snapshot: &ShipSnapshot) -> (r: DamagedLevel)
        ensures
            r == damaged_level_of(snapshot@, self@.max_hp()),
    {
        DamagedLevel::of(snapshot.hp(), self.status.max_hp)
    }

    /// Takes the hit points of `snapshot` as the ship's own.
    pub fn apply_snapshot(&mut self, snapshot: &ShipSnapshot)
        ensures
            final(self)@ == old(self)@.with_hp(snapshot@),
    {
        self.status.now_hp = snapshot.hp();
    }
}

/// The bombing sum over more items is no smaller, and none is negative.
pub proof fn lemma_bombing_upto_monotonic(equips: Seq<EquipmentView>, i: nat, j: nat)
    requires
        i <= j,
    ensures
        bombing_upto(equips, i) <= bombing_upto(equips, j),
    decreases j,
{
    if i < j {
        lemma_bombing_upto_monotonic(equips, i, (j - 1) as nat);
    }
}

} // verus!
