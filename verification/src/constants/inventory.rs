//! Equipment and backpack slots, and which slots each inventory type fits.

use crate::game_enums::{EnumError, InventoryType};
use vstd::prelude::*;

verus! {

/// The first equipment slot number.
pub const EQUIPMENT_SLOTS_START: u8 = 0;

/// The last slot number of worn equipment.
pub const EQUIPMENT_SLOTS_END: u8 = 18;

/// The first bag slot number.
pub const _BAG_SLOTS_START: u8 = 19;

/// The last bag slot number, and so the last equipment slot number.
pub const BAG_SLOTS_END: u8 = 22;

/// A slot of the equipment: worn items, then the four bag slots.
#[derive(PartialEq, Eq, Structural, Hash, Clone, Copy, Debug)]
pub enum EquipmentSlot {
    Head,
    Neck,
    Shoulders,
    Shirt,
    Chest,
    Waist,
    Legs,
    Feet,
    Wrist,
    Hands,
    Finger1,
    Finger2,
    Trinket1,
    Trinket2,
    Back,
    MainHand,
    Offhand,
    Ranged,
    Tabard,
    Bag1,
    Bag2,
    Bag3,
    Bag4,
}

impl EquipmentSlot {
    /// The slot number of each variant.
    pub open spec fn spec_value(self) -> u8 {
        match self {
            EquipmentSlot::Head => 0,
            EquipmentSlot::Neck => 1,
            EquipmentSlot::Shoulders => 2,
            EquipmentSlot::Shirt => 3,
            EquipmentSlot::Chest => 4,
            EquipmentSlot::Waist => 5,
            EquipmentSlot::Legs => 6,
            EquipmentSlot::Feet => 7,
            EquipmentSlot::Wrist => 8,
            EquipmentSlot::Hands => 9,
            EquipmentSlot::Finger1 => 10,
            EquipmentSlot::Finger2 => 11,
            EquipmentSlot::Trinket1 => 12,
            EquipmentSlot::Trinket2 => 13,
            EquipmentSlot::Back => 14,
            EquipmentSlot::MainHand => 15,
            EquipmentSlot::Offhand => 16,
            EquipmentSlot::Ranged => 17,
            EquipmentSlot::Tabard => 18,
            EquipmentSlot::Bag1 => 19,
            EquipmentSlot::Bag2 => 20,
            EquipmentSlot::Bag3 => 21,
            EquipmentSlot::Bag4 => 22,
        }
    }

    /// The slot number of this variant.
    pub fn value(&self) -> (r: u8)
        ensures
            r == self.spec_value(),
    {
        match self {
            EquipmentSlot::Head => 0,
            EquipmentSlot::Neck => 1,
            EquipmentSlot::Shoulders => 2,
            EquipmentSlot::Shirt => 3,
            EquipmentSlot::Chest => 4,
            EquipmentSlot::Waist => 5,
            EquipmentSlot::Legs => 6,
            EquipmentSlot::Feet => 7,
            EquipmentSlot::Wrist => 8,
            EquipmentSlot::Hands => 9,
            EquipmentSlot::Finger1 => 10,
            EquipmentSlot::Finger2 => 11,
            EquipmentSlot::Trinket1 => 12,
            EquipmentSlot::Trinket2 => 13,
            EquipmentSlot::Back => 14,
            EquipmentSlot::MainHand => 15,
            EquipmentSlot::Offhand => 16,
            EquipmentSlot::Ranged => 17,
            EquipmentSlot::Tabard => 18,
            EquipmentSlot::Bag1 => 19,
            EquipmentSlot::Bag2 => 20,
            EquipmentSlot::Bag3 => 21,
            EquipmentSlot::Bag4 => 22,
        }
    }

    /// The equipment slot with slot number `value`; an error for any other number.
    pub fn try_from(value: u8) -> (r: Result<Self, EnumError>)
        ensures
            r is Ok <==> 0 <= value <= 22,
            r matches Ok(s) ==> s.spec_value() == value,
            r matches Err(e) ==> e.value == value as i128,
    {
        match value {
            0 => Ok(EquipmentSlot::Head),
            1 => Ok(EquipmentSlot::Neck),
            2 => Ok(EquipmentSlot::Shoulders),
            3 => Ok(EquipmentSlot::Shirt),
            4 => Ok(EquipmentSlot::Chest),
            5 => Ok(EquipmentSlot::Waist),
            6 => Ok(EquipmentSlot::Legs),
            7 => Ok(EquipmentSlot::Feet),
            8 => Ok(EquipmentSlot::Wrist),
            9 => Ok(EquipmentSlot::Hands),
            10 => Ok(EquipmentSlot::Finger1),
            11 => Ok(EquipmentSlot::Finger2),
            12 => Ok(EquipmentSlot::Trinket1),
            13 => Ok(EquipmentSlot::Trinket2),
            14 => Ok(EquipmentSlot::Back),
            15 => Ok(EquipmentSlot::MainHand),
            16 => Ok(EquipmentSlot::Offhand),
            17 => Ok(EquipmentSlot::Ranged),
            18 => Ok(EquipmentSlot::Tabard),
            19 => Ok(EquipmentSlot::Bag1),
            20 => Ok(EquipmentSlot::Bag2),
            21 => Ok(EquipmentSlot::Bag3),
            22 => Ok(EquipmentSlot::Bag4),
            v => Err(EnumError { name: "EquipmentSlot", value: v as i128 }),
        }
    }
}

/// A slot of the backpack.
#[derive(PartialEq, Eq, Structural, Hash, Clone, Copy, Debug)]
pub enum BagSlot {
    Item1,
    Item2,
    Item3,
    Item4,
    Item5,
    Item6,
    Item7,
    Item8,
    Item9,
    Item10,
    Item11,
    Item12,
    Item13,
    Item14,
    Item15,
    Item16,
}

impl BagSlot {
    /// The slot number of each variant.
    pub open spec fn spec_value(self) -> u8 {
        match self {
            BagSlot::Item1 => 23,
            BagSlot::Item2 => 24,
            BagSlot::Item3 => 25,
            BagSlot::Item4 => 26,
            BagSlot::Item5 => 27,
            BagSlot::Item6 => 28,
            BagSlot::Item7 => 29,
            BagSlot::Item8 => 30,
            BagSlot::Item9 => 31,
            BagSlot::Item10 => 32,
            BagSlot::Item11 => 33,
            BagSlot::Item12 => 34,
            BagSlot::Item13 => 35,
            BagSlot::Item14 => 36,
            BagSlot::Item15 => 37,
            BagSlot::Item16 => 38,
        }
    }

    /// The slot number of this variant.
    pub fn value(&self) -> (r: u8)
        ensures
            r == self.spec_value(),
    {
        match self {
            BagSlot::Item1 => 23,
            BagSlot::Item2 => 24,
            BagSlot::Item3 => 25,
            BagSlot::Item4 => 26,
            BagSlot::Item5 => 27,
            BagSlot::Item6 => 28,
            BagSlot::Item7 => 29,
            BagSlot::Item8 => 30,
            BagSlot::Item9 => 31,
            BagSlot::Item10 => 32,
            BagSlot::Item11 => 33,
            BagSlot::Item12 => 34,
            BagSlot::Item13 => 35,
            BagSlot::Item14 => 36,
            BagSlot::Item15 => 37,
            BagSlot::Item16 => 38,
        }
    }

    /// The backpack slot with slot number `value`; an error for any other number.
    pub fn try_from(value: u8) -> (r: Result<Self, EnumError>)
        ensures
            r is Ok <==> 23 <= value <= 38,
            r matches Ok(s) ==> s.spec_value() == value,
            r matches Err(e) ==> e.value == value as i128,
    {
        match value {
            23 => Ok(BagSlot::Item1),
            24 => Ok(BagSlot::Item2),
            25 => Ok(BagSlot::Item3),
            26 => Ok(BagSlot::Item4),
            27 => Ok(BagSlot::Item5),
            28 => Ok(BagSlot::Item6),
            29 => Ok(BagSlot::Item7),
            30 => Ok(BagSlot::Item8),
            31 => Ok(BagSlot::Item9),
            32 => Ok(BagSlot::Item10),
            33 => Ok(BagSlot::Item11),
            34 => Ok(BagSlot::Item12),
            35 => Ok(BagSlot::Item13),
            36 => Ok(BagSlot::Item14),
            37 => Ok(BagSlot::Item15),
            38 => Ok(BagSlot::Item16),
            v => Err(EnumError { name: "BagSlot", value: v as i128 }),
        }
    }
}

impl From<BagSlot> for usize {
    fn from(value: BagSlot) -> (r: usize) {
        value.value() as usize
    }
}

impl vstd::std_specs::convert::FromSpecImpl<BagSlot> for usize {
    open spec fn obeys_from_spec() -> bool {
        true
    }

    open spec fn from_spec(v: BagSlot) -> usize {
        v.spec_value() as usize
    }
}

/// Two equipment slots with the same number are the same slot.
pub proof fn lemma_equipment_slot_value_injective(a: EquipmentSlot, b: EquipmentSlot)
    ensures
        a.spec_value() == b.spec_value() ==> a == b,
{
}

/// Two backpack slots with the same number are the same slot.
pub proof fn lemma_bag_slot_value_injective(a: BagSlot, b: BagSlot)
    ensures
        a.spec_value() == b.spec_value() ==> a == b,
{
}

/// Equipment slot numbers run up to `BAG_SLOTS_END`, and backpack slot
/// numbers start right after it: no number names both.
pub proof fn lemma_slot_ranges(e: EquipmentSlot, b: BagSlot)
    ensures
        e.spec_value() <= BAG_SLOTS_END,
        BAG_SLOTS_END < b.spec_value() <= 38,
        e.spec_value() != b.spec_value(),
{
}

/// The equipment slots an item of a given inventory type may be worn in,
/// in the order they are tried.
pub open spec fn compatible_slots(inventory_type: InventoryType) -> Seq<EquipmentSlot> {
    match inventory_type {
        InventoryType::NonEquip => seq![],
        InventoryType::Head => seq![EquipmentSlot::Head],
        InventoryType::Neck => seq![EquipmentSlot::Neck],
        InventoryType::Shoulders => seq![EquipmentSlot::Shoulders],
        InventoryType::Body => seq![EquipmentSlot::Shirt],
        InventoryType::Chest => seq![EquipmentSlot::Chest],
        InventoryType::Waist => seq![EquipmentSlot::Waist],
        InventoryType::Legs => seq![EquipmentSlot::Legs],
        InventoryType::Feet => seq![EquipmentSlot::Feet],
        InventoryType::Wrists => seq![EquipmentSlot::Wrist],
        InventoryType::Hands => seq![EquipmentSlot::Hands],
        InventoryType::Finger => seq![EquipmentSlot::Finger1, EquipmentSlot::Finger2],
        InventoryType::Trinket => seq![EquipmentSlot::Trinket1, EquipmentSlot::Trinket2],
        InventoryType::Weapon => seq![EquipmentSlot::MainHand],
        InventoryType::Shield => seq![EquipmentSlot::Offhand],
        InventoryType::Ranged => seq![EquipmentSlot::Ranged],
        InventoryType::Cloak => seq![EquipmentSlot::Back],
        InventoryType::TwoHandedWeapon => seq![EquipmentSlot::MainHand],
        InventoryType::Bag => seq![EquipmentSlot::Bag1, EquipmentSlot::Bag2, EquipmentSlot::Bag3, EquipmentSlot::Bag4],
        InventoryType::Tabard => seq![EquipmentSlot::Tabard],
        InventoryType::Robe => seq![EquipmentSlot::Chest],
        InventoryType::WeaponMainHand => seq![EquipmentSlot::MainHand],
        InventoryType::WeaponOffHand => seq![EquipmentSlot::Offhand],
        InventoryType::Holdable => seq![EquipmentSlot::Offhand],
        InventoryType::Ammo => seq![],
        InventoryType::Thrown => seq![EquipmentSlot::Ranged],
        InventoryType::RangedRight => seq![EquipmentSlot::Ranged],
        InventoryType::Relic => seq![EquipmentSlot::Ranged],
        InventoryType::Quiver => seq![],
    }
}

/// The equipment slots an item of type `inventory_type` may be worn in, in
/// the order they are tried. Quivers are not supported.
pub fn get_compatible_equipment_slots_for_inventory_type(inventory_type: &InventoryType) -> (r: &'static [EquipmentSlot])
    requires
        *inventory_type != InventoryType::Quiver,
    ensures
        r@ == compatible_slots(*inventory_type),
{
    match inventory_type {
        InventoryType::NonEquip => {
            let r: &'static [EquipmentSlot] = &[];
            assert(r@ =~= compatible_slots(*inventory_type));
            r
        },
        InventoryType::Head => {
            let r: &'static [EquipmentSlot] = &[EquipmentSlot::Head];
            assert(r@ =~= compatible_slots(*inventory_type));
            r
        },
        InventoryType::Neck => {
            let r: &'static [EquipmentSlot] = &[EquipmentSlot::Neck];
            assert(r@ =~= compatible_slots(*inventory_type));
            r
        },
        InventoryType::Shoulders => {
            let r: &'static [EquipmentSlot] = &[EquipmentSlot::Shoulders];
            assert(r@ =~= compatible_slots(*inventory_type));
            r
        },
        InventoryType::Body => {
            let r: &'static [EquipmentSlot] = &[EquipmentSlot::Shirt];
            assert(r@ =~= compatible_slots(*inventory_type));
            r
        },
        InventoryType::Chest => {
            let r: &'static [EquipmentSlot] = &[EquipmentSlot::Chest];
            assert(r@ =~= compatible_slots(*inventory_type));
            r
        },
        InventoryType::Waist => {
            let r: &'static [EquipmentSlot] = &[EquipmentSlot::Waist];
            assert(r@ =~= compatible_slots(*inventory_type));
            r
        },
        InventoryType::Legs => {
            let r: &'static [EquipmentSlot] = &[EquipmentSlot::Legs];
            assert(r@ =~= compatible_slots(*inventory_type));
            r
        },
        InventoryType::Feet => {
            let r: &'static [EquipmentSlot] = &[EquipmentSlot::Feet];
            assert(r@ =~= compatible_slots(*inventory_type));
            r
        },
        InventoryType::Wrists => {
            let r: &'static [EquipmentSlot] = &[EquipmentSlot::Wrist];
            assert(r@ =~= compatible_slots(*inventory_type));
            r
        },
        InventoryType::Hands => {
            let r: &'static [EquipmentSlot] = &[EquipmentSlot::Hands];
            assert(r@ =~= compatible_slots(*inventory_type));
            r
        },
        InventoryType::Finger => {
            let r: &'static [EquipmentSlot] = &[EquipmentSlot::Finger1, EquipmentSlot::Finger2];
            assert(r@ =~= compatible_slots(*inventory_type));
            r
        },
        InventoryType::Trinket => {
            let r: &'static [EquipmentSlot] = &[EquipmentSlot::Trinket1, EquipmentSlot::Trinket2];
            assert(r@ =~= compatible_slots(*inventory_type));
            r
        },
        InventoryType::Weapon => {
            let r: &'static [EquipmentSlot] = &[EquipmentSlot::MainHand];
            assert(r@ =~= compatible_slots(*inventory_type));
            r
        },
        InventoryType::Shield => {
            let r: &'static [EquipmentSlot] = &[EquipmentSlot::Offhand];
            assert(r@ =~= compatible_slots(*inventory_type));
            r
        },
        InventoryType::Ranged => {
            let r: &'static [EquipmentSlot] = &[EquipmentSlot::Ranged];
            assert(r@ =~= compatible_slots(*inventory_type));
            r
        },
        InventoryType::Cloak => {
            let r: &'static [EquipmentSlot] = &[EquipmentSlot::Back];
            assert(r@ =~= compatible_slots(*inventory_type));
            r
        },
        InventoryType::TwoHandedWeapon => {
            let r: &'static [EquipmentSlot] = &[EquipmentSlot::MainHand];
            assert(r@ =~= compatible_slots(*inventory_type));
            r
        },
        InventoryType::Bag => {
            let r: &'static [EquipmentSlot] = &[EquipmentSlot::Bag1, EquipmentSlot::Bag2, EquipmentSlot::Bag3, EquipmentSlot::Bag4];
            assert(r@ =~= compatible_slots(*inventory_type));
            r
        },
        InventoryType::Tabard => {
            let r: &'static [EquipmentSlot] = &[EquipmentSlot::Tabard];
            assert(r@ =~= compatible_slots(*inventory_type));
            r
        },
        InventoryType::Robe => {
            let r: &'static [EquipmentSlot] = &[EquipmentSlot::Chest];
            assert(r@ =~= compatible_slots(*inventory_type));
            r
        },
        InventoryType::WeaponMainHand => {
            let r: &'static [EquipmentSlot] = &[EquipmentSlot::MainHand];
            assert(r@ =~= compatible_slots(*inventory_type));
            r
        },
        InventoryType::WeaponOffHand => {
            let r: &'static [EquipmentSlot] = &[EquipmentSlot::Offhand];
            assert(r@ =~= compatible_slots(*inventory_type));
            r
        },
        InventoryType::Holdable => {
            let r: &'static [EquipmentSlot] = &[EquipmentSlot::Offhand];
            assert(r@ =~= compatible_slots(*inventory_type));
            r
        },
        InventoryType::Ammo => {
            let r: &'static [EquipmentSlot] = &[];
            assert(r@ =~= compatible_slots(*inventory_type));
            r
        },
        InventoryType::Thrown => {
            let r: &'static [EquipmentSlot] = &[EquipmentSlot::Ranged];
            assert(r@ =~= compatible_slots(*inventory_type));
            r
        },
        InventoryType::RangedRight => {
            let r: &'static [EquipmentSlot] = &[EquipmentSlot::Ranged];
            assert(r@ =~= compatible_slots(*inventory_type));
            r
        },
        InventoryType::Relic => {
            let r: &'static [EquipmentSlot] = &[EquipmentSlot::Ranged];
            assert(r@ =~= compatible_slots(*inventory_type));
            r
        },
        InventoryType::Quiver => {
            proof {
                assert(false);
            }
            &[]
        },
    }
}

/// The kinds of item each equipment slot takes, slot by slot: the off
/// hand takes shields, off-hand weapons and held items; the main hand takes
/// one-handed, two-handed and main-hand weapons; the ranged slot takes
/// ranged weapons, thrown weapons, right-hand ranged weapons and relics;
/// the chest takes chest pieces and robes; the two finger, the two trinket
/// and the four bag slots take rings, trinkets and bags; every other slot
/// takes the one kind named after it.
pub open spec fn slot_takes(s: EquipmentSlot, t: InventoryType) -> bool {
    match s {
        EquipmentSlot::Head => t == InventoryType::Head,
        EquipmentSlot::Neck => t == InventoryType::Neck,
        EquipmentSlot::Shoulders => t == InventoryType::Shoulders,
        EquipmentSlot::Shirt => t == InventoryType::Body,
        EquipmentSlot::Chest => t == InventoryType::Chest || t == InventoryType::Robe,
        EquipmentSlot::Waist => t == InventoryType::Waist,
        EquipmentSlot::Legs => t == InventoryType::Legs,
        EquipmentSlot::Feet => t == InventoryType::Feet,
        EquipmentSlot::Wrist => t == InventoryType::Wrists,
        EquipmentSlot::Hands => t == InventoryType::Hands,
        EquipmentSlot::Finger1 | EquipmentSlot::Finger2 => t == InventoryType::Finger,
        EquipmentSlot::Trinket1 | EquipmentSlot::Trinket2 => t == InventoryType::Trinket,
        EquipmentSlot::Back => t == InventoryType::Cloak,
        EquipmentSlot::MainHand => t == InventoryType::Weapon || t == InventoryType::TwoHandedWeapon
            || t == InventoryType::WeaponMainHand,
        EquipmentSlot::Offhand => t == InventoryType::Shield || t == InventoryType::WeaponOffHand
            || t == InventoryType::Holdable,
        EquipmentSlot::Ranged => t == InventoryType::Ranged || t == InventoryType::Thrown
            || t == InventoryType::RangedRight || t == InventoryType::Relic,
        EquipmentSlot::Tabard => t == InventoryType::Tabard,
        EquipmentSlot::Bag1 | EquipmentSlot::Bag2 | EquipmentSlot::Bag3 | EquipmentSlot::Bag4 => t
            == InventoryType::Bag,
    }
}

/// The slots tried for an item are exactly the slots that take its kind,
/// in the order of their slot numbers, each once: a shield is tried in the
/// off hand only, a ring in the first finger slot and then the second.
pub proof fn lemma_compatible_slots_take_the_item(t: InventoryType, s: EquipmentSlot, i: int, j: int)
    ensures
        compatible_slots(t).contains(s) <==> slot_takes(s, t),
        0 <= i < j < compatible_slots(t).len() ==> compatible_slots(t)[i].spec_value()
            < compatible_slots(t)[j].spec_value(),
{
    let slots = compatible_slots(t);
    if slot_takes(s, t) {
        match s {
            EquipmentSlot::Finger2 | EquipmentSlot::Trinket2 | EquipmentSlot::Bag2 => {
                assert(slots[1] == s);
            },
            EquipmentSlot::Bag3 => {
                assert(slots[2] == s);
            },
            EquipmentSlot::Bag4 => {
                assert(slots[3] == s);
            },
            _ => {
                assert(slots[0] == s);
            },
        }
    }
    if slots.contains(s) {
        let k = choose|k: int| 0 <= k < slots.len() && slots[k] == s;
        assert(slot_takes(slots[k], t));
    }
}

} // verus!
