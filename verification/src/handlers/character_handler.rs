//! Character selection and the character's own inventory: the list of
//! characters with their visible gear, the outfit of a new character, and
//! the moves of items the client asks for.

use crate::character::character_inventory::{
    slot_for_new_item, CharacterInventory, InventoryError, SimpleItemDescription,
    INVENTORY_SLOT_BAG_0, NUM_EQUIPMENT_SLOTS,
};
use crate::character::character_items::{
    auto_equip_spec, can_swap_items, item_at, set_item_spec, swap_items_spec,
    CharacterItems, ItemsView, LAST_BACKPACK_SLOT,
};
use crate::character::character_database::{
    is_wrath_area, is_wrath_map, wrath_area_exists, wrath_map_exists,
};
use crate::game_enums::{Class, Gender, InventoryType, Race};
use vstd::prelude::*;

verus! {

/// What the character list shows of an item worn in one slot.
#[derive(PartialEq, Eq, Structural, Clone, Copy, Debug)]
pub struct CharacterGear {
    pub equipment_display_id: u32,
    pub inventory_type: InventoryType,
    pub enchantment: u32,
}

/// A stored row of a character's worn items, as the character list reads
/// it.
#[derive(PartialEq, Eq, Structural, Clone, Copy, Debug)]
pub struct EquipmentDisplayInfo {
    pub slot_id: u8,
    pub display_id: Option<u32>,
    pub inventory_type: Option<u8>,
    pub enchant: Option<u32>,
}

/// What the character list shows of one character, beyond what it copies
/// from the stored character.
#[derive(Clone, Debug)]
pub struct CharEnumFields {
    pub race: Race,
    pub class: Class,
    pub gender: Gender,
    /// The area shown: the stored zone when it names an area, else
    /// Northshire Valley.
    pub area: u32,
    /// The map shown: the stored map when it names a map, else the Eastern
    /// Kingdoms.
    pub map: u32,
    pub first_login: bool,
    /// One entry per equipment slot.
    pub equipment: Vec<CharacterGear>,
}

/// What the character list shows for an empty slot.
pub open spec fn empty_gear() -> CharacterGear {
    CharacterGear { equipment_display_id: 0, inventory_type: InventoryType::Bag, enchantment: 0 }
}

/// The last row of `rows` for slot `slot`: the one that counts when a slot
/// has several.
pub open spec fn last_row_for_slot(rows: Seq<EquipmentDisplayInfo>, slot: u8) -> Option<
    EquipmentDisplayInfo,
>
    decreases rows.len(),
{
    if rows.len() == 0 {
        None
    } else if rows.last().slot_id == slot {
        Some(rows.last())
    } else {
        last_row_for_slot(rows.drop_last(), slot)
    }
}

/// The inventory type number of a row; a row without one counts as 0.
pub open spec fn row_inventory_type(row: EquipmentDisplayInfo) -> u8 {
    match row.inventory_type {
        Some(t) => t,
        None => 0,
    }
}

/// Whether every row that counts names a known inventory type.
pub open spec fn equipment_rows_valid(rows: Seq<EquipmentDisplayInfo>) -> bool {
    forall|slot: u8|
        #![trigger last_row_for_slot(rows, slot)]
        slot < NUM_EQUIPMENT_SLOTS && last_row_for_slot(rows, slot) is Some
            ==> InventoryType::spec_from_int(row_inventory_type(last_row_for_slot(rows, slot)->0))
            is Some
}

/// What the character list shows for slot `slot`: the row that counts,
/// with missing values as 0, or an empty slot.
pub open spec fn gear_for_slot(rows: Seq<EquipmentDisplayInfo>, slot: u8) -> CharacterGear {
    match last_row_for_slot(rows, slot) {
        Some(row) => CharacterGear {
            equipment_display_id: match row.display_id {
                Some(d) => d,
                None => 0,
            },
            inventory_type: InventoryType::spec_from_int(row_inventory_type(row))->0,
            enchantment: match row.enchant {
                Some(e) => e,
                None => 0,
            },
        },
        None => empty_gear(),
    }
}

/// The visible gear of a character, one entry per equipment slot, from
/// its stored rows.
pub fn character_gear(equipment: &Vec<EquipmentDisplayInfo>) -> (r: Vec<CharacterGear>)
    requires
        equipment_rows_valid(equipment@),
    ensures
        r@.len() == NUM_EQUIPMENT_SLOTS,
        forall|slot: int| 0 <= slot < NUM_EQUIPMENT_SLOTS ==> r@[slot] == gear_for_slot(equipment@, slot as u8),
{
    let mut by_slot: Vec<Option<EquipmentDisplayInfo>> = Vec::new();
    let mut k: usize = 0;
    while k < NUM_EQUIPMENT_SLOTS
        invariant
            0 <= k <= NUM_EQUIPMENT_SLOTS,
            by_slot@.len() == k,
            forall|j: int| 0 <= j < k ==> by_slot@[j] is None,
        decreases NUM_EQUIPMENT_SLOTS - k,
    {
        by_slot.push(None);
        k = k + 1;
    }
    let mut i: usize = 0;
    while i < equipment.len()
        invariant
            0 <= i <= equipment@.len(),
            by_slot@.len() == NUM_EQUIPMENT_SLOTS,
            forall|j: int|
                0 <= j < NUM_EQUIPMENT_SLOTS ==> by_slot@[j] == last_row_for_slot(
                    equipment@.take(i as int),
                    j as u8,
                ),
        decreases equipment@.len() - i,
    {
        let row = equipment[i];
        assert(equipment@.take(i + 1).drop_last() =~= equipment@.take(i as int));
        if (row.slot_id as usize) < NUM_EQUIPMENT_SLOTS {
            by_slot.set(row.slot_id as usize, Some(row));
        }
        i = i + 1;
    }
    assert(equipment@.take(equipment@.len() as int) =~= equipment@);
    let mut gear: Vec<CharacterGear> = Vec::new();
    let mut slot: usize = 0;
    while slot < NUM_EQUIPMENT_SLOTS
        invariant
            0 <= slot <= NUM_EQUIPMENT_SLOTS,
            by_slot@.len() == NUM_EQUIPMENT_SLOTS,
            gear@.len() == slot,
            equipment_rows_valid(equipment@),
            forall|j: int|
                0 <= j < NUM_EQUIPMENT_SLOTS ==> by_slot@[j] == last_row_for_slot(equipment@, j as u8),
            forall|j: int| 0 <= j < slot ==> gear@[j] == gear_for_slot(equipment@, j as u8),
        decreases NUM_EQUIPMENT_SLOTS - slot,
    {
        let g = match by_slot[slot] {
            Some(row) => {
                assert(last_row_for_slot(equipment@, slot as u8) == Some(row));
                let type_number = match row.inventory_type {
                    Some(t) => t,
                    None => 0,
                };
                let inventory_type = match InventoryType::from_int(type_number) {
                    Ok(t) => t,
                    Err(_) => InventoryType::Bag,
                };
                CharacterGear {
                    equipment_display_id: match row.display_id {
                        Some(d) => d,
                        None => 0,
                    },
                    inventory_type,
                    enchantment: match row.enchant {
                        Some(e) => e,
                        None => 0,
                    },
                }
            },
            None => CharacterGear {
                equipment_display_id: 0,
                inventory_type: InventoryType::Bag,
                enchantment: 0,
            },
        };
        gear.push(g);
        slot = slot + 1;
    }
    gear
}

/// The race a stored number names; an unknown number shows as human.
pub open spec fn race_or_default(race: u8) -> Race {
    match Race::spec_from_int(race) {
        Some(r) => r,
        None => Race::Human,
    }
}

/// The class a stored number names; an unknown number shows as warrior.
pub open spec fn class_or_default(class: u8) -> Class {
    match Class::spec_from_int(class) {
        Some(c) => c,
        None => Class::Warrior,
    }
}

/// The gender a stored number names; an unknown number shows as male.
pub open spec fn gender_or_default(gender: u8) -> Gender {
    match Gender::spec_from_int(gender) {
        Some(g) => g,
        None => Gender::Male,
    }
}

/// The area the character list shows when the stored zone names none:
/// Northshire Valley.
pub const CHAR_ENUM_DEFAULT_AREA: u32 = 9;

/// The map the character list shows when the stored map names none: the
/// Eastern Kingdoms.
pub const CHAR_ENUM_DEFAULT_MAP: u32 = 0;

/// What the character list shows of a stored character beyond its copied
/// values: race, class and gender (unknown numbers shown as a human male
/// warrior), its area and map (unknown ones shown as Northshire Valley in
/// the Eastern Kingdoms, as `wow_world_base` decides what is known),
/// whether it never played, and its visible gear.
pub fn char_enum_fields(
    race: u8,
    class: u8,
    gender: u8,
    zone: u32,
    map: u32,
    playtime_total: u32,
    equipment: &Vec<EquipmentDisplayInfo>,
) -> (r: CharEnumFields)
    requires
        equipment_rows_valid(equipment@),
    ensures
        r.race == race_or_default(race),
        r.class == class_or_default(class),
        r.gender == gender_or_default(gender),
        r.area == (if is_wrath_area(zone) {
            zone
        } else {
            CHAR_ENUM_DEFAULT_AREA
        }),
        r.map == (if is_wrath_map(map) {
            map
        } else {
            CHAR_ENUM_DEFAULT_MAP
        }),
        r.first_login == (playtime_total == 0),
        r.equipment@.len() == NUM_EQUIPMENT_SLOTS,
        forall|slot: int|
            0 <= slot < NUM_EQUIPMENT_SLOTS ==> r.equipment@[slot] == gear_for_slot(equipment@, slot as u8),
{
    let race = match Race::from_int(race) {
        Ok(r) => r,
        Err(_) => Race::Human,
    };
    let class = match Class::from_int(class) {
        Ok(c) => c,
        Err(_) => Class::Warrior,
    };
    let gender = match Gender::from_int(gender) {
        Ok(g) => g,
        Err(_) => Gender::Male,
    };
    let area = if wrath_area_exists(zone) {
        zone
    } else {
        CHAR_ENUM_DEFAULT_AREA
    };
    let map = if wrath_map_exists(map) {
        map
    } else {
        CHAR_ENUM_DEFAULT_MAP
    };
    CharEnumFields {
        race,
        class,
        gender,
        area,
        map,
        first_login: playtime_total == 0,
        equipment: character_gear(equipment),
    }
}

/// The key of a starting outfit: the race, class and sex it is for.
#[derive(PartialEq, Eq, Structural, Clone, Copy, Debug)]
pub struct StartOutfitKey {
    pub race_id: i32,
    pub class_id: i32,
    pub sex_id: i8,
}

/// Whether an outfit key is the one for a character of this race, class
/// and gender.
pub open spec fn outfit_matches(key: StartOutfitKey, race: Race, class: Class, gender: Gender) -> bool {
    &&& key.class_id == class.spec_as_int() as i32
    &&& key.race_id == race.spec_as_int() as i32
    &&& key.sex_id == gender.spec_as_int() as i8
}

/// The position of the first starting outfit for a character of this
/// race, class and gender, if there is one.
pub fn find_start_outfit(outfits: &Vec<StartOutfitKey>, race: Race, class: Class, gender: Gender) -> (r:
    Option<usize>)
    ensures
        r matches Some(i) ==> i < outfits@.len() && outfit_matches(outfits@[i as int], race, class, gender)
            && forall|j: int| 0 <= j < i ==> !outfit_matches(outfits@[j], race, class, gender),
        r is None ==> forall|j: int|
            0 <= j < outfits@.len() ==> !outfit_matches(outfits@[j], race, class, gender),
{
    let class_id = class.as_int() as i32;
    let race_id = race.as_int() as i32;
    let sex_id = gender.as_int() as i8;
    let mut i: usize = 0;
    while i < outfits.len()
        invariant
            0 <= i <= outfits@.len(),
            class_id == class.spec_as_int() as i32,
            race_id == race.spec_as_int() as i32,
            sex_id == gender.spec_as_int() as i8,
            forall|j: int| 0 <= j < i ==> !outfit_matches(outfits@[j], race, class, gender),
        decreases outfits@.len() - i,
    {
        let key = outfits[i];
        if key.class_id == class_id && key.race_id == race_id && key.sex_id == sex_id {
            return Some(i);
        }
        i = i + 1;
    }
    None
}

/// An empty set of equipment slots.
pub open spec fn empty_equipment() -> Seq<Option<SimpleItemDescription>> {
    Seq::new(NUM_EQUIPMENT_SLOTS as nat, |i: int| None)
}

/// Placing the first `n` items of a starting outfit, in order, into an
/// empty set of equipment slots: each goes to the first empty slot that
/// fits it. Gives the slots and, for each item, the slot number it went
/// to, or -1 when its inventory type is unknown or no slot was free.
pub open spec fn outfit_placement(types: Seq<i32>, ids: Seq<i32>, n: int) -> (
    Seq<Option<SimpleItemDescription>>,
    Seq<i32>,
)
    decreases n,
{
    if n <= 0 {
        (empty_equipment(), Seq::empty())
    } else {
        let (slots, out) = outfit_placement(types, ids, n - 1);
        match InventoryType::spec_from_int(types[n - 1] as u8) {
            None => (slots, out.push(-1i32)),
            Some(t) => match slot_for_new_item(slots, t) {
                Some(s) => (
                    slots.update(
                        s.spec_value() as int,
                        Some(SimpleItemDescription { item_id: ids[n - 1] as u32, inventory_type: t }),
                    ),
                    out.push(s.spec_value() as i32),
                ),
                None => (slots, out.push(-1i32)),
            },
        }
    }
}

/// The number of items an outfit lists: one per pair of inventory type
/// and item id.
pub open spec fn outfit_len(types: Seq<i32>, ids: Seq<i32>) -> int {
    if types.len() < ids.len() {
        types.len() as int
    } else {
        ids.len() as int
    }
}

/// The equipment slot each item of a starting outfit is given, or -1; see
/// `outfit_placement`. No item may be a quiver, for which no slot is known.
pub fn start_equipment_slot_ids(inventory_types: &[i32], item_ids: &[i32]) -> (r: Vec<i32>)
    requires
        forall|i: int|
            0 <= i < outfit_len(inventory_types@, item_ids@) ==> InventoryType::spec_from_int(
                #[trigger] inventory_types@[i] as u8,
            ) != Some(InventoryType::Quiver),
    ensures
        r@ == outfit_placement(inventory_types@, item_ids@, outfit_len(inventory_types@, item_ids@)).1,
{
    let n = if inventory_types.len() < item_ids.len() {
        inventory_types.len()
    } else {
        item_ids.len()
    };
    let mut dummy_inventory: CharacterInventory<SimpleItemDescription> = CharacterInventory::new();
    assert(dummy_inventory@ =~= empty_equipment());
    let mut slot_ids: Vec<i32> = Vec::new();
    let mut i: usize = 0;
    while i < n
        invariant
            0 <= i <= n,
            n == outfit_len(inventory_types@, item_ids@),
            n <= inventory_types@.len(),
            n <= item_ids@.len(),
            dummy_inventory.wf(),
            forall|k: int|
                0 <= k < n ==> InventoryType::spec_from_int(#[trigger] inventory_types@[k] as u8)
                    != Some(InventoryType::Quiver),
            (dummy_inventory@, slot_ids@) == outfit_placement(inventory_types@, item_ids@, i as int),
        decreases n - i,
    {
        let inv_type = inventory_types[i];
        let item_id = item_ids[i];
        let slot_id: i32 = match InventoryType::from_int(inv_type as u8) {
            Ok(inventory_type) => {
                let sid = SimpleItemDescription { item_id: item_id as u32, inventory_type };
                match dummy_inventory.try_insert_item(sid) {
                    Ok(s) => s.value() as i32,
                    Err(_) => -1,
                }
            },
            Err(_) => -1,
        };
        slot_ids.push(slot_id);
        i = i + 1;
    }
    slot_ids
}

/// The client moved an item between two slots of the character's own
/// inventory: the items of the two slots are exchanged, as
/// `swap_items_spec` says.
pub fn handle_cmsg_swap_inv_item(items: &mut CharacterItems, source_slot: u8, destination_slot: u8) -> (r:
    Result<(), InventoryError>)
    requires
        old(items).wf(),
        can_swap_items(source_slot, destination_slot),
    ensures
        final(items).wf(),
        (final(items)@, r) == swap_items_spec(old(items)@, source_slot, destination_slot),
{
    let ghost v0 = items@;
    let dst_item = items.set_item(None, (source_slot, INVENTORY_SLOT_BAG_0))?;
    let ghost v1 = items@;
    assert(dst_item == item_at(v0, source_slot));
    assert(source_slot != destination_slot ==> item_at(v1, destination_slot) == item_at(
        v0,
        destination_slot,
    ));
    assert(source_slot == destination_slot ==> item_at(v1, destination_slot) is None);
    let src_item = items.set_item(dst_item, (destination_slot, INVENTORY_SLOT_BAG_0))?;
    items.set_item(src_item, (source_slot, INVENTORY_SLOT_BAG_0))?;
    Ok(())
}

/// The client asked to equip the item of a backpack slot: it is equipped
/// where it fits, and what it replaces goes into the backpack slot it left.
pub fn handle_cmsg_autoequip_item(items: &mut CharacterItems, source_slot: u8, source_bag: u8) -> (r:
    Result<(), InventoryError>)
    requires
        old(items).wf(),
        source_bag == INVENTORY_SLOT_BAG_0,
        23 <= source_slot <= LAST_BACKPACK_SLOT && old(items)@.bag[source_slot - 23] is Some
            ==> old(items)@.bag[source_slot - 23]->0.inventory_type != InventoryType::Quiver,
    ensures
        final(items).wf(),
        match auto_equip_spec(old(items)@, source_slot) {
            (v, Ok(previous)) => (final(items)@, r) == ({
                let (w, s) = set_item_spec(v, previous, source_slot);
                (w, match s {
                    Ok(_) => Ok(()),
                    Err(e) => Err(e),
                })
            }),
            (v, Err(e)) => final(items)@ == v && r == Err::<(), InventoryError>(e),
        },
{
    let previously_equipped_item = items.auto_equip_item_from_bag((source_slot, source_bag))?;
    items.set_item(previously_equipped_item, (source_slot, source_bag))?;
    Ok(())
}

/// The answer the client gets to a request to create a character.
#[derive(PartialEq, Eq, Structural, Clone, Copy, Debug)]
pub enum CharCreateResult {
    /// Another character has the name.
    NameInUse,
    /// The character could not be stored.
    Failed,
    /// The character was created.
    Success,
}

/// What a request to create a character is answered: a name in use is
/// refused before anything is stored; otherwise the answer says whether
/// storing the character worked.
pub fn char_create_response(name_in_use: bool, created: bool) -> (r: CharCreateResult)
    ensures
        name_in_use ==> r == CharCreateResult::NameInUse,
        !name_in_use && !created ==> r == CharCreateResult::Failed,
        !name_in_use && created ==> r == CharCreateResult::Success,
{
    if name_in_use {
        CharCreateResult::NameInUse
    } else if !created {
        CharCreateResult::Failed
    } else {
        CharCreateResult::Success
    }
}

} // verus!
