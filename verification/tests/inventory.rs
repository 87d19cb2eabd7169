use world_server::character::character_inventory::{
    BagInventory, CharacterInventory, InventoryError, SimpleItemDescription, INVENTORY_SLOT_BAG_0,
};
use world_server::constants::inventory::{
    get_compatible_equipment_slots_for_inventory_type, BagSlot, EquipmentSlot, BAG_SLOTS_END, EQUIPMENT_SLOTS_END,
    EQUIPMENT_SLOTS_START,
};
use world_server::game_enums::InventoryType;

fn ring(id: u32) -> SimpleItemDescription {
    SimpleItemDescription { item_id: id, inventory_type: InventoryType::Finger }
}

#[test]
fn slot_numbers() {
    assert_eq!(EQUIPMENT_SLOTS_START, 0);
    assert_eq!(EQUIPMENT_SLOTS_END, 18);
    assert_eq!(BAG_SLOTS_END, 22);
    assert_eq!(INVENTORY_SLOT_BAG_0, 255);
    assert_eq!(EquipmentSlot::Head.value(), 0);
    assert_eq!(EquipmentSlot::Bag4.value(), 22);
    assert_eq!(BagSlot::Item1.value(), 23);
    assert_eq!(BagSlot::Item16.value(), 38);
    assert_eq!(usize::from(BagSlot::Item3), 25);
}

#[test]
fn slot_numbers_convert_back() {
    assert_eq!(EquipmentSlot::try_from(10).unwrap(), EquipmentSlot::Finger1);
    assert_eq!(EquipmentSlot::try_from(23).unwrap_err().value, 23);
    assert_eq!(EquipmentSlot::try_from(23).unwrap_err().name, "EquipmentSlot");
    assert_eq!(BagSlot::try_from(38).unwrap(), BagSlot::Item16);
    assert_eq!(BagSlot::try_from(22).unwrap_err().value, 22);
    assert_eq!(BagSlot::try_from(39).unwrap_err().name, "BagSlot");
}

#[test]
fn compatible_slots_in_the_order_tried() {
    assert_eq!(
        get_compatible_equipment_slots_for_inventory_type(&InventoryType::Finger),
        &[EquipmentSlot::Finger1, EquipmentSlot::Finger2]
    );
    assert_eq!(
        get_compatible_equipment_slots_for_inventory_type(&InventoryType::Bag),
        &[EquipmentSlot::Bag1, EquipmentSlot::Bag2, EquipmentSlot::Bag3, EquipmentSlot::Bag4]
    );
    assert_eq!(get_compatible_equipment_slots_for_inventory_type(&InventoryType::Robe), &[EquipmentSlot::Chest]);
    assert!(get_compatible_equipment_slots_for_inventory_type(&InventoryType::NonEquip).is_empty());
    assert!(get_compatible_equipment_slots_for_inventory_type(&InventoryType::Ammo).is_empty());
}

#[test]
fn items_fill_the_first_free_compatible_slot() {
    let mut inv: CharacterInventory<SimpleItemDescription> = CharacterInventory::new();
    assert_eq!(inv.try_insert_item(ring(1)), Ok(EquipmentSlot::Finger1));
    assert_eq!(inv.try_insert_item(ring(2)), Ok(EquipmentSlot::Finger2));
    assert_eq!(inv.try_insert_item(ring(3)), Err(InventoryError::NoFreeSlot));
    assert_eq!(inv.get_item(EquipmentSlot::Finger1).unwrap().item_id, 1);
    assert_eq!(inv.get_item(EquipmentSlot::Finger2).unwrap().item_id, 2);
    let taken = inv.take_item(EquipmentSlot::Finger1).unwrap();
    assert_eq!(taken.item_id, 1);
    assert!(inv.get_item(EquipmentSlot::Finger1).is_none());
    assert_eq!(inv.try_insert_item(ring(4)), Ok(EquipmentSlot::Finger1));
}

#[test]
fn item_that_fits_nowhere_is_refused() {
    let mut inv: CharacterInventory<SimpleItemDescription> = CharacterInventory::new();
    let stone = SimpleItemDescription { item_id: 9, inventory_type: InventoryType::NonEquip };
    assert_eq!(inv.try_insert_item(stone), Err(InventoryError::NoFreeSlot));
}

#[test]
fn all_equipment_by_slot_number() {
    let mut inv: CharacterInventory<SimpleItemDescription> = CharacterInventory::new();
    inv.try_insert_item(SimpleItemDescription { item_id: 7, inventory_type: InventoryType::Head }).unwrap();
    inv.try_insert_item(SimpleItemDescription { item_id: 8, inventory_type: InventoryType::Bag }).unwrap();
    let all = inv.get_all_equipment();
    assert_eq!(all.len(), 23);
    assert_eq!(all[0].unwrap().item_id, 7);
    assert_eq!(all[19].unwrap().item_id, 8);
    assert_eq!(all.iter().filter(|x| x.is_some()).count(), 2);
}

#[test]
fn backpack_slots_by_index() {
    let mut bag: BagInventory<u32> = BagInventory::default();
    assert_eq!(BagInventory::<u32>::to_index(&BagSlot::Item1), 0);
    assert_eq!(BagInventory::<u32>::to_index(&BagSlot::Item16), 15);
    bag.set(BagSlot::Item4, Some(44));
    assert_eq!(*bag.get(BagSlot::Item4), Some(44));
    assert_eq!(bag.take_item(BagSlot::Item4), Some(44));
    assert_eq!(bag.take_item(BagSlot::Item4), None);
}
