use world_server::game_enums::{Class, Gender, InventoryType, Race};
use world_server::handlers::character_handler::{
    char_enum_fields, character_gear, find_start_outfit, start_equipment_slot_ids, CharacterGear,
    EquipmentDisplayInfo, StartOutfitKey,
};

fn row(slot_id: u8, display_id: Option<u32>, inventory_type: Option<u8>, enchant: Option<u32>) -> EquipmentDisplayInfo {
    EquipmentDisplayInfo { slot_id, display_id, inventory_type, enchant }
}

const EMPTY: CharacterGear = CharacterGear { equipment_display_id: 0, inventory_type: InventoryType::Bag, enchantment: 0 };

#[test]
fn gear_lists_every_equipment_slot() {
    let rows = vec![
        row(0, Some(1234), Some(1), Some(5)),
        row(4, None, None, None),
        row(4, Some(77), Some(20), None),
        row(40, Some(9), Some(99), Some(9)),
    ];
    let gear = character_gear(&rows);
    assert_eq!(gear.len(), 23);
    assert_eq!(gear[0], CharacterGear { equipment_display_id: 1234, inventory_type: InventoryType::Head, enchantment: 5 });
    // The last row of a slot counts.
    assert_eq!(gear[4], CharacterGear { equipment_display_id: 77, inventory_type: InventoryType::Robe, enchantment: 0 });
    assert_eq!(gear[1], EMPTY);
    assert_eq!(gear[22], EMPTY);
}

#[test]
fn row_without_values_counts_as_zeros() {
    let gear = character_gear(&vec![row(7, None, None, None)]);
    assert_eq!(gear[7], CharacterGear { equipment_display_id: 0, inventory_type: InventoryType::NonEquip, enchantment: 0 });
}

#[test]
fn character_list_fields() {
    let f = char_enum_fields(2, 6, 1, 14, 1, 0, &vec![]);
    assert_eq!(f.area, 14);
    assert_eq!(f.map, 1);
    assert_eq!(f.race, Race::Orc);
    assert_eq!(f.class, Class::DeathKnight);
    assert_eq!(f.gender, Gender::Female);
    assert!(f.first_login);
    assert_eq!(f.equipment, vec![EMPTY; 23]);
}

#[test]
fn unknown_numbers_show_as_a_human_male_warrior() {
    let f = char_enum_fields(200, 200, 200, 0xffff_fff0, 0xffff_fff0, 3600, &vec![]);
    assert_eq!(f.area, 9);
    assert_eq!(f.map, 0);
    assert_eq!(f.race, Race::Human);
    assert_eq!(f.class, Class::Warrior);
    assert_eq!(f.gender, Gender::Male);
    assert!(!f.first_login);
}

#[test]
fn start_outfit_for_race_class_and_sex() {
    let outfits = vec![
        StartOutfitKey { race_id: 1, class_id: 1, sex_id: 0 },
        StartOutfitKey { race_id: 2, class_id: 1, sex_id: 1 },
        StartOutfitKey { race_id: 2, class_id: 1, sex_id: 1 },
    ];
    assert_eq!(find_start_outfit(&outfits, Race::Human, Class::Warrior, Gender::Male), Some(0));
    assert_eq!(find_start_outfit(&outfits, Race::Orc, Class::Warrior, Gender::Female), Some(1));
    assert_eq!(find_start_outfit(&outfits, Race::Orc, Class::Warrior, Gender::Male), None);
}

#[test]
fn start_equipment_goes_to_the_first_free_slots() {
    // Head, ring, ring, ring, unknown type, nothing wearable.
    let types = [1, 11, 11, 11, 200, 0];
    let ids = [10, 20, 21, 22, 30, 40, 50];
    assert_eq!(start_equipment_slot_ids(&types, &ids), vec![0, 10, 11, -1, -1, -1]);
}

#[test]
fn start_equipment_of_an_empty_outfit() {
    assert!(start_equipment_slot_ids(&[], &[1, 2]).is_empty());
    // Inventory types are read as their low byte: 257 is a head.
    assert_eq!(start_equipment_slot_ids(&[257], &[1]), vec![0]);
}
