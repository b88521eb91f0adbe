//! The equipment that ships carry.

use crate::range::Range;
use vstd::prelude::*;

verus! {

/// Stat block of one piece of equipment.
#[derive(Clone, Copy, Debug, PartialEq, Eq)]
pub struct EquipmentStatus {
    pub firepower: u16,
    pub armor: u16,
    pub torpedo: u16,
    pub anti_aircraft: Option<u16>,
    pub anti_submarine_warfare: Option<u16>,
    pub evasion: u16,
    pub aiming: u16,
    pub range: Range,
    pub scouting: u16,
    pub speed: u16,
    pub bombing: u16,
    pub aircraft_range: u16,
    pub aircraft_cost: u16,
}

impl EquipmentStatus {
    /// The stat block in which every number is zero, both optional stats are
    /// present and the range is `Range::NoRange`.
    pub open spec fn zeroed() -> EquipmentStatus {
        EquipmentStatus {
            firepower: 0,
            armor: 0,
            torpedo: 0,
            anti_aircraft: Some(0u16),
            anti_submarine_warfare: Some(0u16),
            evasion: 0,
            aiming: 0,
            range: Range::NoRange,
            scouting: 0,
            speed: 0,
            bombing: 0,
            aircraft_range: 0,
            aircraft_cost: 0,
        }
    }
}

impl Default for EquipmentStatus {
    fn default() -> (r: Self)
        ensures
            r == EquipmentStatus::zeroed(),
    {
        EquipmentStatus {
            firepower: 0,
            armor: 0,
            torpedo: 0,
            anti_aircraft: Some(0),
            anti_submarine_warfare: Some(0),
            evasion: 0,
            aiming: 0,
            range: Range::NoRange,
            scouting: 0,
            speed: 0,
            bombing: 0,
            aircraft_range: 0,
            aircraft_cost: 0,
        }
    }
}

/// What an `Equipment` holds, as plain values.
pub struct EquipmentView {
    pub id: u16,
    pub name: Option<Seq<char>>,
    pub equip_type_id: Option<Seq<u16>>,
    pub status: Option<EquipmentStatus>,
}

impl EquipmentView {
    /// The category list, when present, reaches the entry that tells aircraft apart.
    pub open spec fn wf(self) -> bool {
        self.equip_type_id matches Some(ids) ==> ids.len() >= 3
    }

    /// Firepower stat, zero without stats.
    pub open spec fn firepower(self) -> u16 {
        match self.status {
            Some(s) => s.firepower,
            None => 0,
        }
    }

    /// Armor stat, zero without stats.
    pub open spec fn armor(self) -> u16 {
        match self.status {
            Some(s) => s.armor,
            None => 0,
        }
    }

    /// Torpedo stat, zero without stats.
    pub open spec fn torpedo(self) -> u16 {
        match self.status {
            Some(s) => s.torpedo,
            None => 0,
        }
    }

    /// Anti-aircraft stat, zero where it is missing.
    pub open spec fn anti_aircraft(self) -> u16 {
        match self.status {
            Some(s) => match s.anti_aircraft {
                Some(v) => v,
                None => 0,
            },
            None => 0,
        }
    }

    /// Anti-submarine stat, zero where it is missing.
    pub open spec fn anti_submarine_warfare(self) -> u16 {
        match self.status {
            Some(s) => match s.anti_submarine_warfare {
                Some(v) => v,
                None => 0,
            },
            None => 0,
        }
    }

    /// Evasion stat, zero without stats.
    pub open spec fn evasion(self) -> u16 {
        match self.status {
            Some(s) => s.evasion,
            None => 0,
        }
    }

    /// Accuracy stat, zero without stats.
    pub open spec fn aiming(self) -> u16 {
        match self.status {
            Some(s) => s.aiming,
            None => 0,
        }
    }

    /// Range class, `Range::NoRange` without stats.
    pub open spec fn range(self) -> Range {
        match self.status {
            Some(s) => s.range,
            None => Range::NoRange,
        }
    }

    /// Scouting stat, zero without stats.
    pub open spec fn scouting(self) -> u16 {
        match self.status {
            Some(s) => s.scouting,
            None => 0,
        }
    }

    /// Bombing stat, zero without stats.
    pub open spec fn bombing(self) -> u16 {
        match self.status {
            Some(s) => s.bombing,
            None => 0,
        }
    }

    /// Flight range of an aircraft, zero without stats.
    pub open spec fn aircraft_range(self) -> u16 {
        match self.status {
            Some(s) => s.aircraft_range,
            None => 0,
        }
    }

    /// Deployment cost of an aircraft, zero without stats.
    pub open spec fn aircraft_cost(self) -> u16 {
        match self.status {
            Some(s) => s.aircraft_cost,
            None => 0,
        }
    }

    /// The third entry of the category list is 7 or 8 (a bomber or a torpedo
    /// bomber); an item without a category list is no attack aircraft.
    pub open spec fn is_attack_aircraft(self) -> bool {
        match self.equip_type_id {
            Some(ids) => ids.len() >= 3 && (ids[2] == 7 || ids[2] == 8),
            None => false,
        }
    }
}

/// An optional text as plain values.
pub open spec fn opt_text(s: Option<String>) -> Option<Seq<char>> {
    match s {
        Some(t) => Some(t@),
        None => None,
    }
}

/// An optional list of numbers as plain values.
pub open spec fn opt_list(s: Option<Vec<u16>>) -> Option<Seq<u16>> {
    match s {
        Some(t) => Some(t@),
        None => None,
    }
}

/// One piece of equipment carried by a ship.
#[derive(Debug)]
pub struct Equipment {
    id: u16,
    name: Option<String>,
    equip_type_id: Option<Vec<u16>>,
    status: Option<EquipmentStatus>,
}

impl View for Equipment {
    type V = EquipmentView;

    closed spec fn view(&self) -> EquipmentView {
        EquipmentView {
            id: self.id,
            name: opt_text(self.name),
            equip_type_id: opt_list(self.equip_type_id),
            status: self.status,
        }
    }
}

impl Default for Equipment {
    /// An item without a name, a category list or stats.
    fn default() -> (r: Self)
        ensures
            r@ == (EquipmentView { id: 0, name: None, equip_type_id: None, status: None }),
    {
        Equipment { id: 0, name: None, equip_type_id: None, status: None }
    }
}

impl Clone for Equipment {
    fn clone(&self) -> (r: Self)
        ensures
            r@ == self@,
    {
        Equipment {
            id: self.id,
            name: self.name.clone(),
            equip_type_id: self.equip_type_id.clone(),
            status: self.status,
        }
    }
}

impl Equipment {
    /// An item of equipment with the given parts.
    pub fn new(
        id: u16,
        name: Option<String>,
        equip_type_id: Option<Vec<u16>>,
        status: Option<EquipmentStatus>,
    ) -> (r: Self)
        ensures
            r@ == (EquipmentView {
                id,
                name: opt_text(name),
                equip_type_id: opt_list(equip_type_id),
                status,
            }),
    {
        Equipment { id, name, equip_type_id, status }
    }

    /// Identifier of the item.
    pub fn id(&self) -> (r: u16)
        ensures
            r == self@.id,
    {
        self.id
    }

    /// Name of the item, if it has one.
    pub fn name(&self) -> (r: Option<String>)
        ensures
            opt_text(r) == self@.name,
    {
        self.name.clone()
    }

    /// The categories that the item belongs to, from the widest to the narrowest.
    pub fn equip_type_id(&self) -> (r: Option<Vec<u16>>)
        ensures
            opt_list(r) == self@.equip_type_id,
    {
        self.equip_type_id.clone()
    }

    /// Stat block of the item, if it has one.
    pub fn status(&self) -> (r: Option<EquipmentStatus>)
        ensures
            r == self@.status,
    {
        self.status
    }

    /// Whether `is_attack_aircraft` may be asked of this item.
    pub fn is_valid(&self) -> (b: bool)
        ensures
            b == self@.wf(),
    {
        match &self.equip_type_id {
            Some(ids) => ids.len() >= 3,
            None => true,
        }
    }

    /// Firepower stat.
    pub fn firepower(&self) -> (r: u16)
        ensures
            r == self@.firepower(),
    {
        match &self.status {
            Some(s) => s.firepower,
            None => 0,
        }
    }

    /// Armor stat.
    pub fn armor(&self) -> (r: u16)
        ensures
            r == self@.armor(),
    {
        match &self.status {
            Some(s) => s.armor,
            None => 0,
        }
    }

    /// Torpedo stat.
    pub fn torpedo(&self) -> (r: u16)
        ensures
            r == self@.torpedo(),
    {
        match &self.status {
            Some(s) => s.torpedo,
            None => 0,
        }
    }

    /// Anti-aircraft stat.
    pub fn anti_aircraft(&self) -> (r: u16)
        ensures
            r == self@.anti_aircraft(),
    {
        match &self.status {
            Some(s) => match s.anti_aircraft {
                Some(v) => v,
                None => 0,
            },
            None => 0,
        }
    }

    /// Anti-submarine stat.
    pub fn anti_submarine_warfare(&self) -> (r: u16)
        ensures
            r == self@.anti_submarine_warfare(),
    {
        match &self.status {
            Some(s) => match s.anti_submarine_warfare {
                Some(v) => v,
                None => 0,
            },
            None => 0,
        }
    }

    /// Evasion stat.
    pub fn evasion(&self) -> (r: u16)
        ensures
            r == self@.evasion(),
    {
        match &self.status {
            Some(s) => s.evasion,
            None => 0,
        }
    }

    /// Accuracy stat.
    pub fn aiming(&self) -> (r: u16)
        ensures
            r == self@.aiming(),
    {
        match &self.status {
            Some(s) => s.aiming,
            None => 0,
        }
    }

    /// Range class.
    pub fn range(&self) -> (r: Range)
        ensures
            r == self@.range(),
    {
        match &self.status {
            Some(s) => s.range,
            None => Range::NoRange,
        }
    }

    /// Scouting stat.
    pub fn scouting(&self) -> (r: u16)
        ensures
            r == self@.scouting(),
    {
        match &self.status {
            Some(s) => s.scouting,
            None => 0,
        }
    }

    /// Bombing stat.
    pub fn bombing(&self) -> (r: u16)
        ensures
            r == self@.bombing(),
    {
        match &self.status {
            Some(s) => s.bombing,
            None => 0,
        }
    }

    /// Flight range of an aircraft.
    pub fn aircraft_range(&self) -> (r: u16)
        ensures
            r == self@.aircraft_range(),
    {
        match &self.status {
            Some(s) => s.aircraft_range,
            None => 0,
        }
    }

    /// Deployment cost of an aircraft.
    pub fn aircraft_cost(&self) -> (r: u16)
        ensures
            r == self@.aircraft_cost(),
    {
        match &self.status {
            Some(s) => s.aircraft_cost,
            None => 0,
        }
    }

    /// Whether this item is an aircraft that can attack.
    pub fn is_attack_aircraft(&self) -> (b: bool)
        requires
            self@.wf(),
        ensures
            b == self@.is_attack_aircraft(),
    {
        match &self.equip_type_id {
            Some(ids) => ids[2] == 7 || ids[2] == 8,
            None => false,
        }
    }
}

} // verus!
