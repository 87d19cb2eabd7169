use world_server::character::character_inventory::{InventoryError, INVENTORY_SLOT_BAG_0};
use world_server::character::character_items::{CharacterItems, Item};
use world_server::constants::inventory::{BagSlot, EquipmentSlot};
use world_server::game_enums::InventoryType;
use world_server::guid::Guid;
use world_server::handlers::character_handler::{handle_cmsg_autoequip_item, handle_cmsg_swap_inv_item};

fn item(entry: u32, guid: u64, inventory_type: InventoryType) -> Item {
    Item { entry, guid: Guid(guid), inventory_type }
}

const BAG: u8 = INVENTORY_SLOT_BAG_0;

#[test]
fn new_character_holds_nothing() {
    let items = CharacterItems::new();
    for slot in 0..=38u8 {
        assert!(!items.has_item_in_slot((slot, BAG)));
    }
    assert_eq!(items.visible_item_entries, vec![0u32; 19]);
    assert_eq!(items.inventory_slot_guids, vec![Guid(0); 39]);
}

#[test]
fn setting_a_worn_item_shows_it() {
    let mut items = CharacterItems::new();
    let helm = item(100, 0x10, InventoryType::Head);
    assert_eq!(items.set_item(Some(helm), (0, BAG)), Ok(None));
    assert!(items.has_item_in_slot((0, BAG)));
    assert_eq!(items.visible_item_entries[0], 100);
    assert_eq!(items.inventory_slot_guids[0], Guid(0x10));
    assert_eq!(items.set_item(None, (0, BAG)), Ok(Some(helm)));
    assert_eq!(items.visible_item_entries[0], 0);
    assert_eq!(items.inventory_slot_guids[0], Guid(0));
}

#[test]
fn a_worn_bag_is_not_shown_but_has_its_field() {
    let mut items = CharacterItems::new();
    let bag = item(200, 0x20, InventoryType::Bag);
    assert_eq!(items.set_item(Some(bag), (19, BAG)), Ok(None));
    assert_eq!(items.visible_item_entries, vec![0u32; 19]);
    assert_eq!(items.inventory_slot_guids[19], Guid(0x20));
    assert_eq!(items.equipped_items.get_item(EquipmentSlot::Bag1), Some(&bag));
}

#[test]
fn an_item_set_into_a_slot_stays_in_that_slot() {
    let mut items = CharacterItems::new();
    // The slot is not checked against where the item is worn.
    let r1 = item(1, 1, InventoryType::Finger);
    assert_eq!(items.set_item(Some(r1), (0, BAG)), Ok(None));
    assert_eq!(items.equipped_items.get_item(EquipmentSlot::Head), Some(&r1));
    assert!(items.equipped_items.get_item(EquipmentSlot::Finger1).is_none());
    assert_eq!(items.visible_item_entries[0], 1);
    // A ring set into the second finger slot lands there, though the first is empty.
    let r2 = item(2, 2, InventoryType::Finger);
    assert_eq!(items.set_item(Some(r2), (11, BAG)), Ok(None));
    assert_eq!(items.equipped_items.get_item(EquipmentSlot::Finger2), Some(&r2));
    assert!(items.equipped_items.get_item(EquipmentSlot::Finger1).is_none());
    assert_eq!(items.inventory_slot_guids[11], Guid(2));
    // Setting into a filled slot hands back what was there.
    let r3 = item(3, 3, InventoryType::Finger);
    assert_eq!(items.set_item(Some(r3), (11, BAG)), Ok(Some(r2)));
    assert_eq!(items.equipped_items.get_item(EquipmentSlot::Finger2), Some(&r3));
}

#[test]
fn backpack_slots_hold_what_is_set() {
    let mut items = CharacterItems::new();
    let potion = item(5, 0x55, InventoryType::NonEquip);
    assert_eq!(items.set_item(Some(potion), (23, BAG)), Ok(None));
    assert!(items.has_item_in_slot((23, BAG)));
    assert_eq!(items.inventory_slot_guids[23], Guid(0x55));
    assert_eq!(*items.bag_items.get(BagSlot::Item1), Some(potion));
    assert_eq!(items.set_item(None, (23, BAG)), Ok(Some(potion)));
    assert!(!items.has_item_in_slot((23, BAG)));
}

#[test]
fn auto_equip_moves_an_item_from_the_backpack() {
    let mut items = CharacterItems::new();
    let sword = item(9, 0x99, InventoryType::Weapon);
    items.set_item(Some(sword), (30, BAG)).unwrap();
    assert_eq!(items.auto_equip_item_from_bag((30, BAG)), Ok(None));
    assert!(!items.has_item_in_slot((30, BAG)));
    assert_eq!(items.equipped_items.get_item(EquipmentSlot::MainHand), Some(&sword));
    assert_eq!(items.visible_item_entries[15], 9);
}

#[test]
fn auto_equip_replaces_when_every_slot_is_taken() {
    let mut items = CharacterItems::new();
    let old = item(1, 1, InventoryType::Head);
    let new = item(2, 2, InventoryType::Head);
    items.set_item(Some(old), (0, BAG)).unwrap();
    items.set_item(Some(new), (24, BAG)).unwrap();
    assert_eq!(items.auto_equip_item_from_bag((24, BAG)), Ok(Some(old)));
    assert_eq!(items.equipped_items.get_item(EquipmentSlot::Head), Some(&new));
}

#[test]
fn auto_equip_needs_an_item_from_the_backpack() {
    let mut items = CharacterItems::new();
    assert_eq!(items.auto_equip_item_from_bag((24, BAG)), Err(InventoryError::NotFromBag));
    assert_eq!(items.auto_equip_item_from_bag((3, BAG)), Err(InventoryError::NotFromBag));
    // An item that fits no slot leaves the backpack, and the answer is an error.
    let stone = item(7, 7, InventoryType::NonEquip);
    items.set_item(Some(stone), (25, BAG)).unwrap();
    assert_eq!(items.auto_equip_item_from_bag((25, BAG)), Err(InventoryError::NotFromBag));
    assert!(!items.has_item_in_slot((25, BAG)));
}

#[test]
fn swap_exchanges_two_backpack_slots() {
    let mut items = CharacterItems::new();
    let a = item(1, 1, InventoryType::NonEquip);
    let b = item(2, 2, InventoryType::NonEquip);
    items.set_item(Some(a), (23, BAG)).unwrap();
    items.set_item(Some(b), (30, BAG)).unwrap();
    assert_eq!(handle_cmsg_swap_inv_item(&mut items, 23, 30), Ok(()));
    assert_eq!(*items.bag_items.get(BagSlot::Item1), Some(b));
    assert_eq!(*items.bag_items.get(BagSlot::Item8), Some(a));
    assert_eq!(items.inventory_slot_guids[23], Guid(2));
    assert_eq!(items.inventory_slot_guids[30], Guid(1));
}

#[test]
fn swap_with_an_empty_slot_moves_the_item() {
    let mut items = CharacterItems::new();
    let a = item(1, 1, InventoryType::NonEquip);
    items.set_item(Some(a), (23, BAG)).unwrap();
    assert_eq!(handle_cmsg_swap_inv_item(&mut items, 23, 24), Ok(()));
    assert!(!items.has_item_in_slot((23, BAG)));
    assert_eq!(*items.bag_items.get(BagSlot::Item2), Some(a));
}

#[test]
fn swapping_moves_an_item_into_an_equipment_slot() {
    let mut items = CharacterItems::new();
    let stone = item(7, 7, InventoryType::NonEquip);
    let helm = item(8, 8, InventoryType::Head);
    items.set_item(Some(stone), (23, BAG)).unwrap();
    items.set_item(Some(helm), (0, BAG)).unwrap();
    assert_eq!(handle_cmsg_swap_inv_item(&mut items, 23, 0), Ok(()));
    assert_eq!(items.equipped_items.get_item(EquipmentSlot::Head), Some(&stone));
    assert_eq!(*items.bag_items.get(BagSlot::Item1), Some(helm));
    assert_eq!(items.visible_item_entries[0], 7);
    assert_eq!(items.inventory_slot_guids[0], Guid(7));
    assert_eq!(items.inventory_slot_guids[23], Guid(8));
}

#[test]
fn swapping_two_equipment_slots_exchanges_them() {
    let mut items = CharacterItems::new();
    let r1 = item(1, 1, InventoryType::Finger);
    items.set_item(Some(r1), (10, BAG)).unwrap();
    assert_eq!(handle_cmsg_swap_inv_item(&mut items, 10, 11), Ok(()));
    assert!(items.equipped_items.get_item(EquipmentSlot::Finger1).is_none());
    assert_eq!(items.equipped_items.get_item(EquipmentSlot::Finger2), Some(&r1));
    assert_eq!(items.visible_item_entries[10], 0);
    assert_eq!(items.visible_item_entries[11], 1);
}

#[test]
fn autoequip_message_puts_the_replaced_item_back() {
    let mut items = CharacterItems::new();
    let old = item(1, 1, InventoryType::Head);
    let new = item(2, 2, InventoryType::Head);
    items.set_item(Some(old), (0, BAG)).unwrap();
    items.set_item(Some(new), (24, BAG)).unwrap();
    assert_eq!(handle_cmsg_autoequip_item(&mut items, 24, BAG), Ok(()));
    assert_eq!(items.equipped_items.get_item(EquipmentSlot::Head), Some(&new));
    assert_eq!(*items.bag_items.get(BagSlot::Item2), Some(old));
    assert_eq!(handle_cmsg_autoequip_item(&mut items, 30, BAG), Err(InventoryError::NotFromBag));
}
