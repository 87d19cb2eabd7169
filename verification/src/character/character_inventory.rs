//! What a character wears and carries: the equipment slots and the
//! backpack.

use crate::constants::inventory::{
    compatible_slots, get_compatible_equipment_slots_for_inventory_type, BagSlot, EquipmentSlot,
    BAG_SLOTS_END,
};
use crate::game_enums::InventoryType;
use vstd::prelude::*;

verus! {

/// The bag number that names the character's own inventory.
pub const INVENTORY_SLOT_BAG_0: u8 = 255;

/// The number of equipment slots.
pub const NUM_EQUIPMENT_SLOTS: usize = 23;

/// Anything that can be stored in the inventory.
pub trait InventoryStorable {
    /// Where the item can be worn.
    spec fn spec_inventory_type(&self) -> InventoryType;

    /// Where the item can be worn.
    fn get_inventory_type(&self) -> (r: InventoryType)
        ensures
            r == self.spec_inventory_type(),
    ;
}

/// Why an item could not be placed.
#[derive(PartialEq, Eq, Structural, Clone, Copy, Debug)]
pub enum InventoryError {
    /// Every slot the item fits is taken.
    NoFreeSlot,
    /// The item was not taken from the character's own inventory.
    NotFromBag,
}

/// The first of `slots[i..]` that is empty in `items`, if any.
pub open spec fn first_free_slot_from<T>(
    items: Seq<Option<T>>,
    slots: Seq<EquipmentSlot>,
    i: int,
) -> Option<EquipmentSlot>
    decreases slots.len() - i,
{
    if i < 0 || i >= slots.len() {
        None
    } else if items[slots[i].spec_value() as int] is None {
        Some(slots[i])
    } else {
        first_free_slot_from(items, slots, i + 1)
    }
}

/// The slot where an item of type `t` goes: the first of its compatible
/// slots that is empty.
pub open spec fn slot_for_new_item<T>(items: Seq<Option<T>>, t: InventoryType) -> Option<
    EquipmentSlot,
> {
    first_free_slot_from(items, compatible_slots(t), 0)
}

/// The equipment slots of a character and what fills them.
pub struct CharacterInventory<ItemType: InventoryStorable> {
    items: Vec<Option<ItemType>>,
}

impl<ItemType: InventoryStorable> View for CharacterInventory<ItemType> {
    /// Entry `i` is what fills the equipment slot numbered `i`.
    type V = Seq<Option<ItemType>>;

    closed spec fn view(&self) -> Seq<Option<ItemType>> {
        self.items@
    }
}

impl<ItemType: InventoryStorable> CharacterInventory<ItemType> {
    /// One entry for each equipment slot.
    pub open spec fn wf(&self) -> bool {
        self@.len() == NUM_EQUIPMENT_SLOTS
    }

    /// An inventory with every slot empty.
    pub fn new() -> (r: Self)
        ensures
            r.wf(),
            forall|i: int| 0 <= i < NUM_EQUIPMENT_SLOTS ==> r@[i] is None,
    {
        let mut items: Vec<Option<ItemType>> = Vec::new();
        let mut i: usize = 0;
        while i < NUM_EQUIPMENT_SLOTS
            invariant
                0 <= i <= NUM_EQUIPMENT_SLOTS,
                items@.len() == i,
                forall|j: int| 0 <= j < i ==> items@[j] is None,
            decreases NUM_EQUIPMENT_SLOTS - i,
        {
            items.push(None);
            i = i + 1;
        }
        CharacterInventory { items }
    }

    /// Puts `item` in the first of its compatible slots that is empty, and
    /// returns that slot; fails when all of them are taken. Quivers are not
    /// supported.
    pub fn try_insert_item(&mut self, item: ItemType) -> (r: Result<EquipmentSlot, InventoryError>)
        requires
            old(self).wf(),
            item.spec_inventory_type() != InventoryType::Quiver,
        ensures
            final(self).wf(),
            r matches Ok(s) ==> slot_for_new_item(old(self)@, item.spec_inventory_type()) == Some(s)
                && final(self)@ == old(self)@.update(s.spec_value() as int, Some(item)),
            r is Err ==> slot_for_new_item(old(self)@, item.spec_inventory_type()) is None
                && final(self)@ == old(self)@ && r == Err::<EquipmentSlot, InventoryError>(
                InventoryError::NoFreeSlot,
            ),
    {
        let inventory_type = item.get_inventory_type();
        let possible_slots = get_compatible_equipment_slots_for_inventory_type(&inventory_type);
        let ghost slots = compatible_slots(inventory_type);
        let mut i: usize = 0;
        while i < possible_slots.len()
            invariant
                self.wf(),
                self@ == old(self)@,
                possible_slots@ == slots,
                slots == compatible_slots(item.spec_inventory_type()),
                0 <= i <= slots.len(),
                first_free_slot_from(self@, slots, 0) == first_free_slot_from(self@, slots, i as int),
            decreases slots.len() - i,
        {
            let possible_slot = possible_slots[i];
            let index = possible_slot.value() as usize;
            proof {
                assert(index <= BAG_SLOTS_END) by {
                    crate::constants::inventory::lemma_slot_ranges(possible_slot, BagSlot::Item1);
                }
            }
            if self.items[index].is_none() {
                self.items.set(index, Some(item));
                return Ok(possible_slot);
            }
            i = i + 1;
        }
        Err(InventoryError::NoFreeSlot)
    }

    /// What fills `slot`, if anything.
    pub fn get_item(&self, slot: EquipmentSlot) -> (r: Option<&ItemType>)
        requires
            self.wf(),
        ensures
            r is Some <==> self@[slot.spec_value() as int] is Some,
            r matches Some(x) ==> self@[slot.spec_value() as int] == Some(*x),
    {
        let index = slot.value() as usize;
        proof {
            crate::constants::inventory::lemma_slot_ranges(slot, BagSlot::Item1);
        }
        self.items[index].as_ref()
    }

    /// Empties `slot` and returns what filled it.
    pub fn take_item(&mut self, slot: EquipmentSlot) -> (r: Option<ItemType>)
        requires
            old(self).wf(),
        ensures
            final(self).wf(),
            r == old(self)@[slot.spec_value() as int],
            final(self)@ == old(self)@.update(slot.spec_value() as int, None),
    {
        let index = slot.value() as usize;
        proof {
            crate::constants::inventory::lemma_slot_ranges(slot, BagSlot::Item1);
        }
        let mut taken: Option<ItemType> = None;
        self.items.set_and_swap(index, &mut taken);
        taken
    }

    /// Puts `item` in `slot`, whether or not it is a slot the item is worn
    /// in; what filled the slot is overwritten.
    pub fn put_item(&mut self, slot: EquipmentSlot, item: ItemType)
        requires
            old(self).wf(),
        ensures
            final(self).wf(),
            final(self)@ == old(self)@.update(slot.spec_value() as int, Some(item)),
    {
        let index = slot.value() as usize;
        proof {
            crate::constants::inventory::lemma_slot_ranges(slot, BagSlot::Item1);
        }
        self.items.set(index, Some(item));
    }

    /// What fills each equipment slot, indexed by slot number.
    pub fn get_all_equipment(&self) -> (r: Vec<Option<&ItemType>>)
        requires
            self.wf(),
        ensures
            r@.len() == NUM_EQUIPMENT_SLOTS,
            forall|i: int|
                0 <= i < NUM_EQUIPMENT_SLOTS ==> (r@[i] is Some <==> self@[i] is Some) && (
                r@[i] matches Some(x) ==> self@[i] == Some(*x)),
    {
        let mut result: Vec<Option<&ItemType>> = Vec::new();
        let mut i: usize = 0;
        while i < NUM_EQUIPMENT_SLOTS
            invariant
                self.wf(),
                0 <= i <= NUM_EQUIPMENT_SLOTS,
                result@.len() == i,
                forall|j: int|
                    0 <= j < i ==> (result@[j] is Some <==> self@[j] is Some) && (
                    result@[j] matches Some(x) ==> self@[j] == Some(*x)),
            decreases NUM_EQUIPMENT_SLOTS - i,
        {
            result.push(self.items[i].as_ref());
            i = i + 1;
        }
        result
    }
}

/// A placement of the first free compatible slot is a compatible slot that
/// was empty, and every compatible slot tried before it was taken.
pub proof fn lemma_first_free_slot_is_first_empty<T>(
    items: Seq<Option<T>>,
    slots: Seq<EquipmentSlot>,
    i: int,
    s: EquipmentSlot,
)
    requires
        0 <= i,
        first_free_slot_from(items, slots, i) == Some(s),
    ensures
        exists|k: int|
            i <= k < slots.len() && slots[k] == s && items[s.spec_value() as int] is None && forall|
                j: int,
            |
                i <= j < k ==> items[#[trigger] slots[j].spec_value() as int] is Some,
    decreases slots.len() - i,
{
    if items[slots[i].spec_value() as int] is None {
        assert(slots[i] == s);
    } else {
        lemma_first_free_slot_is_first_empty(items, slots, i + 1, s);
        let k = choose|k: int|
            i + 1 <= k < slots.len() && slots[k] == s && items[s.spec_value() as int] is None
                && forall|j: int|
                i + 1 <= j < k ==> items[#[trigger] slots[j].spec_value() as int] is Some;
        assert(forall|j: int| i <= j < k ==> items[#[trigger] slots[j].spec_value() as int] is Some);
    }
}

/// When no compatible slot is free, every compatible slot is taken.
pub proof fn lemma_no_free_slot_means_all_taken<T>(
    items: Seq<Option<T>>,
    slots: Seq<EquipmentSlot>,
    i: int,
)
    requires
        0 <= i,
        first_free_slot_from(items, slots, i) is None,
    ensures
        forall|j: int| i <= j < slots.len() ==> items[#[trigger] slots[j].spec_value() as int] is Some,
    decreases slots.len() - i,
{
    if i < slots.len() {
        lemma_no_free_slot_means_all_taken(items, slots, i + 1);
    }
}

/// Once `try_insert_item` has placed an item of type `t` in slot `s` (the
/// slot `slot_for_new_item` picks), that slot holds the item, and taking
/// it out again gives the item back and restores the inventory as it was.
pub proof fn lemma_insert_then_take<T>(
    before: Seq<Option<T>>,
    t: InventoryType,
    s: EquipmentSlot,
    item: T,
)
    requires
        before.len() == NUM_EQUIPMENT_SLOTS,
        slot_for_new_item(before, t) == Some(s),
    ensures
        before.update(s.spec_value() as int, Some(item))[s.spec_value() as int] == Some(item),
        before.update(s.spec_value() as int, Some(item)).update(s.spec_value() as int, None)
            == before,
{
    crate::constants::inventory::lemma_slot_ranges(s, BagSlot::Item1);
    lemma_first_free_slot_is_first_empty(before, compatible_slots(t), 0, s);
    assert(before.update(s.spec_value() as int, Some(item)).update(s.spec_value() as int, None)
        =~= before);
}

/// An item described by its template id and where it can be worn.
#[derive(Clone, Copy, Debug)]
pub struct SimpleItemDescription {
    pub item_id: u32,
    pub inventory_type: InventoryType,
}

impl InventoryStorable for SimpleItemDescription {
    open spec fn spec_inventory_type(&self) -> InventoryType {
        self.inventory_type
    }

    fn get_inventory_type(&self) -> (r: InventoryType) {
        self.inventory_type
    }
}

/// The backpack: one entry per backpack slot.
pub struct BagInventory<ItemType> {
    items: Vec<Option<ItemType>>,
}

/// The number of backpack slots.
pub const NUM_BAG_SLOTS: usize = 16;

impl<ItemType> View for BagInventory<ItemType> {
    /// Entry `i` is what fills backpack slot `i` (slot number `23 + i`).
    type V = Seq<Option<ItemType>>;

    closed spec fn view(&self) -> Seq<Option<ItemType>> {
        self.items@
    }
}

/// The position of a backpack slot among the backpack's entries.
pub open spec fn bag_index(slot: BagSlot) -> int {
    slot.spec_value() - 23
}

impl<ItemType> Default for BagInventory<ItemType> {
    fn default() -> (r: Self)
        ensures
            r@.len() == NUM_BAG_SLOTS,
            forall|i: int| 0 <= i < NUM_BAG_SLOTS ==> r@[i] is None,
    {
        let mut items: Vec<Option<ItemType>> = Vec::new();
        let mut i: usize = 0;
        while i < NUM_BAG_SLOTS
            invariant
                0 <= i <= NUM_BAG_SLOTS,
                items@.len() == i,
                forall|j: int| 0 <= j < i ==> items@[j] is None,
            decreases NUM_BAG_SLOTS - i,
        {
            items.push(None);
            i = i + 1;
        }
        BagInventory { items }
    }
}

impl<ItemType> BagInventory<ItemType> {
    /// One entry for each backpack slot.
    pub open spec fn wf(&self) -> bool {
        self@.len() == NUM_BAG_SLOTS
    }

    /// The position of `slot` among the backpack's entries.
    pub fn to_index(slot: &BagSlot) -> (r: usize)
        ensures
            r == bag_index(*slot),
            r < NUM_BAG_SLOTS,
    {
        (slot.value() as usize) - 23
    }

    /// What fills `slot`.
    pub fn get(&self, slot: BagSlot) -> (r: &Option<ItemType>)
        requires
            self.wf(),
        ensures
            *r == self@[bag_index(slot)],
    {
        &self.items[Self::to_index(&slot)]
    }

    /// Puts `value` in `slot`, replacing what was there.
    pub fn set(&mut self, slot: BagSlot, value: Option<ItemType>)
        requires
            old(self).wf(),
        ensures
            final(self).wf(),
            final(self)@ == old(self)@.update(bag_index(slot), value),
    {
        let index = Self::to_index(&slot);
        self.items.set(index, value);
    }

    /// Empties `slot` and returns what filled it.
    pub fn take_item(&mut self, index: BagSlot) -> (r: Option<ItemType>)
        requires
            old(self).wf(),
        ensures
            final(self).wf(),
            r == old(self)@[bag_index(index)],
            final(self)@ == old(self)@.update(bag_index(index), None),
    {
        let index = Self::to_index(&index);
        if self.items[index].is_some() {
            let mut taken: Option<ItemType> = None;
            self.items.set_and_swap(index, &mut taken);
            taken
        } else {
            proof {
                assert(self@.update(index as int, None) =~= self@);
            }
            None
        }
    }
}

} // verus!
