//! The items of a character in play: what it wears, what its backpack
//! holds, and the player fields that show them to the client.

use crate::character::character_inventory::{
    first_free_slot_from, BagInventory, CharacterInventory, InventoryError,
    InventoryStorable, INVENTORY_SLOT_BAG_0, NUM_BAG_SLOTS, NUM_EQUIPMENT_SLOTS,
};
use crate::constants::inventory::{
    compatible_slots, get_compatible_equipment_slots_for_inventory_type, BagSlot, EquipmentSlot,
    BAG_SLOTS_END, EQUIPMENT_SLOTS_END,
};
use crate::game_enums::InventoryType;
use crate::guid::Guid;
use vstd::prelude::*;

verus! {

/// The number of worn slots whose item is shown on the character.
pub const NUM_VISIBLE_ITEMS: usize = 19;

/// The number of inventory slots with a player field: the equipment slots
/// and the backpack.
pub const NUM_INVENTORY_SLOTS: usize = 39;

/// The last slot number of the backpack.
pub const LAST_BACKPACK_SLOT: u8 = 38;

/// An item as the inventory sees it: its entry in the item table, its
/// object id and where it can be worn.
#[derive(PartialEq, Eq, Structural, Clone, Copy, Debug)]
pub struct Item {
    pub entry: u32,
    pub guid: Guid,
    pub inventory_type: InventoryType,
}

impl InventoryStorable for Item {
    open spec fn spec_inventory_type(&self) -> InventoryType {
        self.inventory_type
    }

    fn get_inventory_type(&self) -> (r: InventoryType) {
        self.inventory_type
    }
}

/// What the items of a character amount to.
#[verifier::ext_equal]
pub struct ItemsView {
    /// Entry `i` fills equipment slot `i`.
    pub equipped: Seq<Option<Item>>,
    /// Entry `i` fills backpack slot `23 + i`.
    pub bag: Seq<Option<Item>>,
    /// Entry `i` is the item entry shown for worn slot `i`, 0 for none.
    pub visible: Seq<u32>,
    /// Entry `i` is the object id the player field of slot `i` holds,
    /// 0 for none.
    pub slot_guids: Seq<Guid>,
}

/// The items of a character in play.
pub struct CharacterItems {
    pub equipped_items: CharacterInventory<Item>,
    pub bag_items: BagInventory<Item>,
    /// The item entry shown for each worn slot.
    pub visible_item_entries: Vec<u32>,
    /// The object id in the player field of each inventory slot.
    pub inventory_slot_guids: Vec<Guid>,
}

impl View for CharacterItems {
    type V = ItemsView;

    open spec fn view(&self) -> ItemsView {
        ItemsView {
            equipped: self.equipped_items@,
            bag: self.bag_items@,
            visible: self.visible_item_entries@,
            slot_guids: self.inventory_slot_guids@,
        }
    }
}

/// Whether a view has one entry for every slot of each kind.
pub open spec fn items_view_wf(v: ItemsView) -> bool {
    &&& v.equipped.len() == NUM_EQUIPMENT_SLOTS
    &&& v.bag.len() == NUM_BAG_SLOTS
    &&& v.visible.len() == NUM_VISIBLE_ITEMS
    &&& v.slot_guids.len() == NUM_INVENTORY_SLOTS
}

/// The object id a player field shows for `item`: 0 for none.
pub open spec fn guid_of(item: Option<Item>) -> Guid {
    match item {
        Some(i) => i.guid,
        None => Guid(0),
    }
}

/// The entry shown for `item`: 0 for none.
pub open spec fn entry_of(item: Option<Item>) -> u32 {
    match item {
        Some(i) => i.entry,
        None => 0,
    }
}

/// Whether `slot` is one of the character's own slots that has a player
/// field: an equipment slot or a backpack slot.
pub open spec fn is_inventory_slot(slot: u8) -> bool {
    slot <= LAST_BACKPACK_SLOT
}

/// What fills slot `slot` of the character's own inventory.
pub open spec fn item_at(v: ItemsView, slot: u8) -> Option<Item> {
    if slot <= BAG_SLOTS_END {
        v.equipped[slot as int]
    } else {
        v.bag[slot - 23]
    }
}

/// Setting `item` into slot `slot` of the character's own inventory: what
/// was there is taken out and returned, the slot holds `item`, and the
/// player fields of the slot show it. Whether the item is worn in that slot
/// is not asked.
pub open spec fn set_item_spec(v: ItemsView, item: Option<Item>, slot: u8) -> (
    ItemsView,
    Result<Option<Item>, InventoryError>,
) {
    if slot <= BAG_SLOTS_END {
        let previous = v.equipped[slot as int];
        let visible = if slot <= EQUIPMENT_SLOTS_END {
            v.visible.update(slot as int, entry_of(item))
        } else {
            v.visible
        };
        (
            ItemsView {
                equipped: v.equipped.update(slot as int, item),
                bag: v.bag,
                visible,
                slot_guids: v.slot_guids.update(slot as int, guid_of(item)),
            },
            Ok(previous),
        )
    } else {
        let previous = v.bag[slot - 23];
        (
            ItemsView {
                equipped: v.equipped,
                bag: v.bag.update(slot - 23, item),
                visible: v.visible,
                slot_guids: v.slot_guids.update(slot as int, guid_of(item)),
            },
            Ok(previous),
        )
    }
}

/// The equipment slot that auto-equipping an item of type `t` picks: the
/// first compatible slot that is empty, else the first compatible slot.
pub open spec fn auto_equip_slot(equipped: Seq<Option<Item>>, t: InventoryType) -> Option<
    EquipmentSlot,
> {
    let slots = compatible_slots(t);
    match first_free_slot_from(equipped, slots, 0) {
        Some(s) => Some(s),
        None => if slots.len() > 0 {
            Some(slots[0])
        } else {
            None
        },
    }
}

/// Auto-equipping the item in backpack slot `slot`: the item leaves the
/// backpack and is set into the slot that `auto_equip_slot` picks, and what
/// that slot held is returned. When the backpack slot is empty, or `slot`
/// is no backpack slot, nothing changes and the result is an error; an item
/// that fits no equipment slot leaves the backpack and is lost, with an
/// error.
pub open spec fn auto_equip_spec(v: ItemsView, slot: u8) -> (
    ItemsView,
    Result<Option<Item>, InventoryError>,
) {
    if 23 <= slot <= LAST_BACKPACK_SLOT && v.bag[slot - 23] is Some {
        let item = v.bag[slot - 23]->0;
        let taken = ItemsView { bag: v.bag.update(slot - 23, None), ..v };
        match auto_equip_slot(v.equipped, item.inventory_type) {
            Some(s) => set_item_spec(taken, Some(item), s.spec_value()),
            None => (taken, Err(InventoryError::NotFromBag)),
        }
    } else {
        (v, Err(InventoryError::NotFromBag))
    }
}

/// The client asked to swap the contents of two slots: the item of
/// `destination` is set into `source`, and the item that comes out is set
/// into `destination`. The first error ends the exchange.
pub open spec fn swap_items_spec(v: ItemsView, source: u8, destination: u8) -> (
    ItemsView,
    Result<(), InventoryError>,
) {
    let (v1, r1) = set_item_spec(v, None, source);
    let (v2, r2) = set_item_spec(v1, r1->Ok_0, destination);
    match r2 {
        Ok(out) => {
            let (v3, r3) = set_item_spec(v2, out, source);
            match r3 {
                Ok(_) => (v3, Ok(())),
                Err(e) => (v3, Err(e)),
            }
        },
        Err(e) => (v2, Err(e)),
    }
}

/// Whether the exchange of `swap_items_spec` can be done: both are slots of
/// the character's own inventory.
pub open spec fn can_swap_items(source: u8, destination: u8) -> bool {
    is_inventory_slot(source) && is_inventory_slot(destination)
}

impl CharacterItems {
    /// Every slot of each kind has its entry.
    pub open spec fn wf(&self) -> bool {
        items_view_wf(self@)
    }

    /// A character with no items.
    pub fn new() -> (r: Self)
        ensures
            r.wf(),
            forall|i: int| 0 <= i < NUM_EQUIPMENT_SLOTS ==> r@.equipped[i] is None,
            forall|i: int| 0 <= i < NUM_BAG_SLOTS ==> r@.bag[i] is None,
            forall|i: int| 0 <= i < NUM_VISIBLE_ITEMS ==> r@.visible[i] == 0,
            forall|i: int| 0 <= i < NUM_INVENTORY_SLOTS ==> r@.slot_guids[i] == Guid(0),
    {
        let mut visible_item_entries: Vec<u32> = Vec::new();
        let mut i: usize = 0;
        while i < NUM_VISIBLE_ITEMS
            invariant
                0 <= i <= NUM_VISIBLE_ITEMS,
                visible_item_entries@.len() == i,
                forall|j: int| 0 <= j < i ==> visible_item_entries@[j] == 0,
            decreases NUM_VISIBLE_ITEMS - i,
        {
            visible_item_entries.push(0);
            i = i + 1;
        }
        let mut inventory_slot_guids: Vec<Guid> = Vec::new();
        let mut i: usize = 0;
        while i < NUM_INVENTORY_SLOTS
            invariant
                0 <= i <= NUM_INVENTORY_SLOTS,
                inventory_slot_guids@.len() == i,
                forall|j: int| 0 <= j < i ==> inventory_slot_guids@[j] == Guid(0),
            decreases NUM_INVENTORY_SLOTS - i,
        {
            inventory_slot_guids.push(Guid(0));
            i = i + 1;
        }
        CharacterItems {
            equipped_items: CharacterInventory::new(),
            bag_items: BagInventory::default(),
            visible_item_entries,
            inventory_slot_guids,
        }
    }

    /// Whether a slot of the character's own inventory holds an item.
    pub fn has_item_in_slot(&self, item_position: (u8, u8)) -> (r: bool)
        requires
            self.wf(),
            item_position.1 == INVENTORY_SLOT_BAG_0,
            is_inventory_slot(item_position.0),
        ensures
            r == item_at(self@, item_position.0) is Some,
    {
        let slot = item_position.0;
        if let Ok(equipment_slot) = EquipmentSlot::try_from(slot) {
            self.equipped_items.get_item(equipment_slot).is_some()
        } else {
            match BagSlot::try_from(slot) {
                Ok(bag_slot) => self.bag_items.get(bag_slot).is_some(),
                Err(_) => false,
            }
        }
    }

    /// Sets `item` into a slot of the character's own inventory and returns
    /// what was there; see `set_item_spec`. Whether the item fits the slot
    /// is not checked.
    pub fn set_item(&mut self, item: Option<Item>, item_position: (u8, u8)) -> (r: Result<
        Option<Item>,
        InventoryError,
    >)
        requires
            old(self).wf(),
            item_position.1 == INVENTORY_SLOT_BAG_0,
            is_inventory_slot(item_position.0),
        ensures
            final(self).wf(),
            (final(self)@, r) == set_item_spec(old(self)@, item, item_position.0),
    {
        let slot = item_position.0;
        if let Ok(equipment_slot) = EquipmentSlot::try_from(slot) {
            let previous_item = self.equipped_items.take_item(equipment_slot);
            let index = slot as usize;
            match item {
                Some(it) => {
                    if slot <= EQUIPMENT_SLOTS_END {
                        self.visible_item_entries.set(index, it.entry);
                    }
                    self.inventory_slot_guids.set(index, it.guid);
                    self.equipped_items.put_item(equipment_slot, it);
                },
                None => {
                    if slot <= EQUIPMENT_SLOTS_END {
                        self.visible_item_entries.set(index, 0);
                    }
                    self.inventory_slot_guids.set(index, Guid(0));
                },
            }
            proof {
                assert(self.equipped_items@ =~= old(self).equipped_items@.update(slot as int, item));
            }
            Ok(previous_item)
        } else {
            let bag_slot = match BagSlot::try_from(slot) {
                Ok(b) => b,
                Err(_) => {
                    return Ok(None);
                },
            };
            let previous_item = self.bag_items.take_item(bag_slot);
            let index = slot as usize;
            match item {
                Some(it) => {
                    self.inventory_slot_guids.set(index, it.guid);
                },
                None => {
                    self.inventory_slot_guids.set(index, Guid(0));
                },
            }
            self.bag_items.set(bag_slot, item);
            Ok(previous_item)
        }
    }

    /// Equips the item of a backpack slot where it fits, as a right click
    /// does, and returns what that equipment slot held; see
    /// `auto_equip_spec`.
    pub fn auto_equip_item_from_bag(&mut self, item_position: (u8, u8)) -> (r: Result<
        Option<Item>,
        InventoryError,
    >)
        requires
            old(self).wf(),
            item_position.1 == INVENTORY_SLOT_BAG_0,
            23 <= item_position.0 <= LAST_BACKPACK_SLOT && old(self)@.bag[item_position.0 - 23] is Some
                ==> old(self)@.bag[item_position.0 - 23]->0.inventory_type != InventoryType::Quiver,
        ensures
            final(self).wf(),
            (final(self)@, r) == auto_equip_spec(old(self)@, item_position.0),
    {
        let slot = item_position.0;
        let bag_slot = match BagSlot::try_from(slot) {
            Ok(b) => b,
            Err(_) => {
                return Err(InventoryError::NotFromBag);
            },
        };
        let ghost v0 = self@;
        let item = match self.bag_items.take_item(bag_slot) {
            Some(it) => it,
            None => {
                proof {
                    assert(self@ =~= v0);
                }
                return Err(InventoryError::NotFromBag);
            },
        };
        let ghost taken = self@;
        assert(taken =~= ItemsView { bag: v0.bag.update(slot - 23, None), ..v0 });
        let item_inventory_type = item.get_inventory_type();
        let possible_equip_slots = get_compatible_equipment_slots_for_inventory_type(&item_inventory_type);
        let ghost slots = compatible_slots(item_inventory_type);
        let mut best_slot_candidate: Option<EquipmentSlot> = None;
        let mut i: usize = 0;
        while i < possible_equip_slots.len()
            invariant_except_break
                first_free_slot_from(v0.equipped, slots, 0) == first_free_slot_from(
                    v0.equipped,
                    slots,
                    i as int,
                ),
                i == 0 ==> best_slot_candidate is None,
                i > 0 ==> best_slot_candidate == Some(slots[0]),
            invariant
                self.wf(),
                self@ == taken,
                taken.equipped == v0.equipped,
                possible_equip_slots@ == slots,
                slots == compatible_slots(item.inventory_type),
                0 <= i <= slots.len(),
            ensures
                best_slot_candidate == auto_equip_slot(v0.equipped, item.inventory_type),
            decreases slots.len() - i,
        {
            let possible_equip_slot = possible_equip_slots[i];
            if best_slot_candidate.is_none() {
                best_slot_candidate = Some(possible_equip_slot);
            }
            if self.equipped_items.get_item(possible_equip_slot).is_none() {
                best_slot_candidate = Some(possible_equip_slot);
                break;
            }
            i = i + 1;
        }
        match best_slot_candidate {
            Some(picked_slot) => {
                proof {
                    crate::constants::inventory::lemma_slot_ranges(picked_slot, BagSlot::Item1);
                }
                self.set_item(Some(item), (picked_slot.value(), INVENTORY_SLOT_BAG_0))
            },
            None => Err(InventoryError::NotFromBag),
        }
    }
}

/// Setting an item into a slot of the character's own inventory and then
/// emptying that slot gives back first what the slot held and then the
/// item; afterwards the slot is empty and every other slot holds what it
/// held before.
pub proof fn lemma_set_then_take(v: ItemsView, item: Option<Item>, slot: u8)
    requires
        items_view_wf(v),
        is_inventory_slot(slot),
    ensures
        ({
            let (v1, r1) = set_item_spec(v, item, slot);
            let (v2, r2) = set_item_spec(v1, None, slot);
            &&& item_at(v1, slot) == item
            &&& r1 == Ok::<Option<Item>, InventoryError>(item_at(v, slot))
            &&& r2 == Ok::<Option<Item>, InventoryError>(item)
            &&& item_at(v2, slot) is None
            &&& forall|k: u8| #![trigger item_at(v2, k)]
                is_inventory_slot(k) && k != slot ==> item_at(v2, k) == item_at(v, k)
        }),
{
}

/// Swapping two different slots of the character's own inventory exchanges
/// their items, and the player fields of the two slots follow; every other
/// slot holds what it held.
pub proof fn lemma_swap_exchanges_items(v: ItemsView, source: u8, destination: u8)
    requires
        items_view_wf(v),
        is_inventory_slot(source),
        is_inventory_slot(destination),
        source != destination,
    ensures
        ({
            let (w, r) = swap_items_spec(v, source, destination);
            &&& r == Ok::<(), InventoryError>(())
            &&& item_at(w, source) == item_at(v, destination)
            &&& item_at(w, destination) == item_at(v, source)
            &&& w.slot_guids[source as int] == guid_of(item_at(v, destination))
            &&& w.slot_guids[destination as int] == guid_of(item_at(v, source))
            &&& forall|k: u8| #![trigger item_at(w, k)]
                is_inventory_slot(k) && k != source && k != destination ==> item_at(w, k)
                    == item_at(v, k)
        }),
{
}

/// When one of `slots[i..]` is empty, the search for a free slot finds one:
/// an empty slot of `slots[j]` with `i <= j <= k`, every slot before it
/// taken.
proof fn lemma_free_slot_found_by(items: Seq<Option<Item>>, slots: Seq<EquipmentSlot>, i: int, k: int)
    requires
        0 <= i <= k < slots.len(),
        items[slots[k].spec_value() as int] is None,
    ensures
        exists|j: int|
            i <= j <= k && first_free_slot_from(items, slots, i) == Some(slots[j])
                && items[slots[j].spec_value() as int] is None && forall|m: int|
                i <= m < j ==> items[#[trigger] slots[m].spec_value() as int] is Some,
    decreases k - i,
{
    if items[slots[i].spec_value() as int] is None {
        assert(first_free_slot_from(items, slots, i) == Some(slots[i]));
    } else {
        lemma_free_slot_found_by(items, slots, i + 1, k);
        let j = choose|j: int|
            i + 1 <= j <= k && first_free_slot_from(items, slots, i + 1) == Some(slots[j])
                && items[slots[j].spec_value() as int] is None && forall|m: int|
                i + 1 <= m < j ==> items[#[trigger] slots[m].spec_value() as int] is Some;
        assert(forall|m: int| i <= m < j ==> items[#[trigger] slots[m].spec_value() as int] is Some);
    }
}

/// Auto-equipping fills an empty slot before it replaces anything: when
/// some slot the item is worn in is empty, the item goes into the first
/// such empty slot, nothing is handed back, it leaves the backpack, and
/// every other equipment slot keeps its item.
pub proof fn lemma_auto_equip_fills_an_empty_slot(v: ItemsView, slot: u8, k: int)
    requires
        items_view_wf(v),
        23 <= slot <= LAST_BACKPACK_SLOT,
        v.bag[slot - 23] is Some,
        0 <= k < compatible_slots(v.bag[slot - 23]->0.inventory_type).len(),
        v.equipped[compatible_slots(v.bag[slot - 23]->0.inventory_type)[k].spec_value() as int] is None,
    ensures
        ({
            let item = v.bag[slot - 23]->0;
            let slots = compatible_slots(item.inventory_type);
            let (w, r) = auto_equip_spec(v, slot);
            &&& r == Ok::<Option<Item>, InventoryError>(None)
            &&& w.bag == v.bag.update(slot - 23, None)
            &&& exists|j: int|
                0 <= j <= k && v.equipped[slots[j].spec_value() as int] is None
                    && w.equipped == v.equipped.update(slots[j].spec_value() as int, Some(item))
                    && forall|m: int| 0 <= m < j ==> v.equipped[#[trigger] slots[m].spec_value() as int] is Some
        }),
{
    let item = v.bag[slot - 23]->0;
    let slots = compatible_slots(item.inventory_type);
    lemma_free_slot_found_by(v.equipped, slots, 0, k);
    let j = choose|j: int|
        0 <= j <= k && first_free_slot_from(v.equipped, slots, 0) == Some(slots[j])
            && v.equipped[slots[j].spec_value() as int] is None && forall|m: int|
            0 <= m < j ==> v.equipped[#[trigger] slots[m].spec_value() as int] is Some;
    crate::constants::inventory::lemma_slot_ranges(slots[j], BagSlot::Item1);
    let taken = ItemsView { bag: v.bag.update(slot - 23, None), ..v };
    assert(auto_equip_slot(v.equipped, item.inventory_type) == Some(slots[j]));
    assert(auto_equip_spec(v, slot) == set_item_spec(taken, Some(item), slots[j].spec_value()));
}

/// Auto-equipping replaces an item only when every slot the item is worn
/// in is taken: then the item goes into the first of those slots, and
/// what that slot held is handed back.
pub proof fn lemma_auto_equip_replaces_when_all_taken(v: ItemsView, slot: u8)
    requires
        items_view_wf(v),
        23 <= slot <= LAST_BACKPACK_SLOT,
        v.bag[slot - 23] is Some,
        compatible_slots(v.bag[slot - 23]->0.inventory_type).len() > 0,
        forall|m: int|
            0 <= m < compatible_slots(v.bag[slot - 23]->0.inventory_type).len() ==> v.equipped[
                #[trigger] compatible_slots(v.bag[slot - 23]->0.inventory_type)[m].spec_value() as int] is Some,
    ensures
        ({
            let item = v.bag[slot - 23]->0;
            let first = compatible_slots(item.inventory_type)[0].spec_value() as int;
            let (w, r) = auto_equip_spec(v, slot);
            &&& r == Ok::<Option<Item>, InventoryError>(v.equipped[first])
            &&& w.bag == v.bag.update(slot - 23, None)
            &&& w.equipped == v.equipped.update(first, Some(item))
        }),
{
    let item = v.bag[slot - 23]->0;
    let slots = compatible_slots(item.inventory_type);
    if first_free_slot_from(v.equipped, slots, 0) is Some {
        let s = first_free_slot_from(v.equipped, slots, 0)->0;
        crate::character::character_inventory::lemma_first_free_slot_is_first_empty(
            v.equipped,
            slots,
            0,
            s,
        );
        let k = choose|k: int|
            0 <= k < slots.len() && slots[k] == s && v.equipped[s.spec_value() as int] is None
                && forall|j: int| 0 <= j < k ==> v.equipped[#[trigger] slots[j].spec_value() as int] is Some;
        assert(v.equipped[slots[k].spec_value() as int] is Some);
    }
    crate::constants::inventory::lemma_slot_ranges(slots[0], BagSlot::Item1);
}

} // verus!
