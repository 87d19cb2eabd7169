//! The answer to an item query: an item template laid out field by field
//! in the order and widths the client reads.

use crate::wire::{le_bytes_u32, le_u32_of, put_i32_le, put_u32_le, put_u8, take_u32_le};
use vstd::prelude::*;

verus! {

/// A requirement of a skill or a reputation, and the rank it asks for.
#[derive(PartialEq, Eq, Structural, Clone, Copy, Debug, Default)]
pub struct ItemRequirement {
    pub id: u32,
    pub rank: u32,
}

/// A stat an item grants.
#[derive(PartialEq, Eq, Structural, Clone, Copy, Debug, Default)]
pub struct ItemStat {
    pub stat_type: u32,
    pub value: i32,
}

/// One damage range of a weapon; the bounds are the bit patterns of their
/// 32-bit floats.
#[derive(PartialEq, Eq, Structural, Clone, Copy, Debug, Default)]
pub struct ItemDamage {
    pub min_bits: u32,
    pub max_bits: u32,
    pub damage_type: u32,
}

/// The resistances an item grants, one per school.
#[derive(PartialEq, Eq, Structural, Clone, Copy, Debug, Default)]
pub struct ItemResistances {
    pub holy: u32,
    pub fire: u32,
    pub nature: u32,
    pub frost: u32,
    pub shadow: u32,
    pub arcane: u32,
}

/// A spell an item casts or grants, and when.
#[derive(PartialEq, Eq, Structural, Clone, Copy, Debug, Default)]
pub struct ItemSpellProc {
    pub spell_id: u32,
    pub trigger_type: u32,
    pub cooldown: u32,
    pub category: u32,
    pub category_cooldown: u32,
}

/// The text an item can be read for.
#[derive(PartialEq, Eq, Structural, Clone, Copy, Debug, Default)]
pub struct ItemPageText {
    pub text_id: u32,
    pub language_id: u32,
    pub page_material: u32,
}

/// A gem socket of an item.
#[derive(PartialEq, Eq, Structural, Clone, Copy, Debug, Default)]
pub struct ItemSocket {
    pub color: u32,
    pub content: u32,
}

/// An item template as the item query answers it. Names are the bytes of
/// their text; floats are carried as their bit patterns.
#[derive(Clone, Debug)]
pub struct ItemTemplate {
    pub id: u32,
    pub class: u32,
    pub subclass: u32,
    pub name: Vec<u8>,
    pub display_id: u32,
    pub quality: u32,
    pub flags: u32,
    pub flags2: u32,
    pub buy_price: u32,
    pub sell_price: u32,
    pub inventory_type: u32,
    pub allowed_classes_mask: Option<u32>,
    pub allowed_races_mask: Option<u32>,
    pub item_level: u32,
    pub required_level: Option<u32>,
    pub required_skill: Option<ItemRequirement>,
    pub required_spell_id: Option<u32>,
    pub required_honor_rank: Option<u32>,
    pub required_faction: Option<ItemRequirement>,
    pub max_count: i32,
    pub stackable: i32,
    pub container_slots: u32,
    pub granted_stats: Vec<ItemStat>,
    pub scaling_stat_distribution: u32,
    pub scaling_stat_value: u32,
    pub damage: Vec<ItemDamage>,
    pub granted_armor: Option<u32>,
    pub granted_resistances: Option<ItemResistances>,
    pub delay: Option<u32>,
    pub ammo_type: Option<u32>,
    pub ranged_mod_range_bits: u32,
    pub spell_procs: Vec<ItemSpellProc>,
    pub bonding: u32,
    pub description: Vec<u8>,
    pub readable_info: Option<ItemPageText>,
    pub start_quest_id: Option<u32>,
    pub lock_id: Option<u32>,
    pub material: i32,
    pub sheath_style: u32,
    pub random_property: u32,
    pub random_suffix: u32,
    pub block_value: Option<u32>,
    pub item_set_id: Option<u32>,
    pub max_durability: u32,
    pub usable_area: Option<u32>,
    pub usable_map: Option<u32>,
    pub bag_family_mask: Option<u32>,
    pub totem_category: Option<u32>,
    pub sockets: Vec<ItemSocket>,
    pub socket_bonus: Option<u32>,
    pub gem_properties: u32,
    pub required_disenchant_skill: Option<i32>,
    pub armor_damage_modifier_bits: u32,
    pub duration: u32,
    pub item_limit_category: u32,
    pub holiday_id: u32,
}

/// A value, or 0 when there is none.
pub open spec fn or_zero(o: Option<u32>) -> u32 {
    match o {
        Some(v) => v,
        None => 0,
    }
}

fn or_zero_exec(o: Option<u32>) -> (r: u32)
    ensures
        r == or_zero(o),
{
    match o {
        Some(v) => v,
        None => 0,
    }
}

/// A signed value, or 0 when there is none.
pub open spec fn i_or_zero(o: Option<i32>) -> i32 {
    match o {
        Some(v) => v,
        None => 0,
    }
}

fn i_or_zero_exec(o: Option<i32>) -> (r: i32)
    ensures
        r == i_or_zero(o),
{
    match o {
        Some(v) => v,
        None => 0,
    }
}

/// A mask, or every bit set when there is none.
pub open spec fn or_max(o: Option<u32>) -> u32 {
    match o {
        Some(v) => v,
        None => u32::MAX,
    }
}

fn or_max_exec(o: Option<u32>) -> (r: u32)
    ensures
        r == or_max(o),
{
    match o {
        Some(v) => v,
        None => u32::MAX,
    }
}

/// A requirement, or none as zeros.
pub open spec fn requirement_or_default(o: Option<ItemRequirement>) -> ItemRequirement {
    match o {
        Some(v) => v,
        None => ItemRequirement { id: 0, rank: 0 },
    }
}

fn requirement_or_default_exec(o: Option<ItemRequirement>) -> (r: ItemRequirement)
    ensures
        r == requirement_or_default(o),
{
    match o {
        Some(v) => v,
        None => ItemRequirement { id: 0, rank: 0 },
    }
}

/// Resistances, or none as zeros.
pub open spec fn resistances_or_default(o: Option<ItemResistances>) -> ItemResistances {
    match o {
        Some(v) => v,
        None => ItemResistances { holy: 0, fire: 0, nature: 0, frost: 0, shadow: 0, arcane: 0 },
    }
}

fn resistances_or_default_exec(o: Option<ItemResistances>) -> (r: ItemResistances)
    ensures
        r == resistances_or_default(o),
{
    match o {
        Some(v) => v,
        None => ItemResistances { holy: 0, fire: 0, nature: 0, frost: 0, shadow: 0, arcane: 0 },
    }
}

/// Readable text, or none as zeros.
pub open spec fn page_text_or_default(o: Option<ItemPageText>) -> ItemPageText {
    match o {
        Some(v) => v,
        None => ItemPageText { text_id: 0, language_id: 0, page_material: 0 },
    }
}

fn page_text_or_default_exec(o: Option<ItemPageText>) -> (r: ItemPageText)
    ensures
        r == page_text_or_default(o),
{
    match o {
        Some(v) => v,
        None => ItemPageText { text_id: 0, language_id: 0, page_material: 0 },
    }
}

/// Damage entry `i`, or zeros past the last.
pub open spec fn damage_at(s: Seq<ItemDamage>, i: int) -> ItemDamage {
    if 0 <= i < s.len() {
        s[i]
    } else {
        ItemDamage { min_bits: 0, max_bits: 0, damage_type: 0 }
    }
}

fn damage_at_exec(v: &Vec<ItemDamage>, i: usize) -> (r: ItemDamage)
    ensures
        r == damage_at(v@, i as int),
{
    if i < v.len() {
        v[i]
    } else {
        ItemDamage { min_bits: 0, max_bits: 0, damage_type: 0 }
    }
}

/// Spell entry `i`, or zeros past the last.
pub open spec fn spell_proc_at(s: Seq<ItemSpellProc>, i: int) -> ItemSpellProc {
    if 0 <= i < s.len() {
        s[i]
    } else {
        ItemSpellProc { spell_id: 0, trigger_type: 0, cooldown: 0, category: 0, category_cooldown: 0 }
    }
}

fn spell_proc_at_exec(v: &Vec<ItemSpellProc>, i: usize) -> (r: ItemSpellProc)
    ensures
        r == spell_proc_at(v@, i as int),
{
    if i < v.len() {
        v[i]
    } else {
        ItemSpellProc { spell_id: 0, trigger_type: 0, cooldown: 0, category: 0, category_cooldown: 0 }
    }
}

/// Socket `i`, or zeros past the last.
pub open spec fn socket_at(s: Seq<ItemSocket>, i: int) -> ItemSocket {
    if 0 <= i < s.len() {
        s[i]
    } else {
        ItemSocket { color: 0, content: 0 }
    }
}

fn socket_at_exec(v: &Vec<ItemSocket>, i: usize) -> (r: ItemSocket)
    ensures
        r == socket_at(v@, i as int),
{
    if i < v.len() {
        v[i]
    } else {
        ItemSocket { color: 0, content: 0 }
    }
}

/// Appends `bytes`.
fn put_bytes(buf: &mut Vec<u8>, bytes: &[u8])
    ensures
        final(buf)@ == old(buf)@ + bytes@,
{
    let mut i: usize = 0;
    while i < bytes.len()
        invariant
            0 <= i <= bytes@.len(),
            buf@ == old(buf)@ + bytes@.take(i as int),
        decreases bytes@.len() - i,
    {
        buf.push(bytes[i]);
        i = i + 1;
        assert(buf@ =~= old(buf)@ + bytes@.take(i as int));
    }
    assert(bytes@.take(bytes@.len() as int) =~= bytes@);
}

/// The item id an item query asks for: the first four bytes of its body,
/// little-endian; none when the body is shorter.
pub fn read_item_query_item_id(payload: &[u8]) -> (r: Option<u32>)
    ensures
        r is Some <==> payload@.len() >= 4,
        r matches Some(id) ==> id == le_u32_of(payload@.take(4)),
{
    let r = take_u32_le(payload, 0);
    assert(payload@.subrange(0, 4) =~= payload@.take(4));
    r
}

/// The bytes of the item query response for its id, class and subclass, the name.
#[verifier::opaque]
pub open spec fn item_query_header(t: ItemTemplate) -> Seq<u8> {
    le_bytes_u32(t.id)
        + le_bytes_u32(t.class)
        + le_bytes_u32(t.subclass)
        + le_bytes_u32((-1i32) as u32)
        + t.name@
        + seq![0u8]
        + seq![0u8]
        + seq![0u8]
        + seq![0u8]
}

/// The bytes of the item query response for display, quality, flags, prices and inventory type.
#[verifier::opaque]
pub open spec fn item_query_appearance(t: ItemTemplate) -> Seq<u8> {
    le_bytes_u32(t.display_id)
        + le_bytes_u32(t.quality)
        + le_bytes_u32(t.flags)
        + le_bytes_u32(t.flags2)
        + le_bytes_u32(t.buy_price)
        + le_bytes_u32(t.sell_price)
        + le_bytes_u32(t.inventory_type)
}

/// The bytes of the item query response for who may use the item.
#[verifier::opaque]
pub open spec fn item_query_requirements(t: ItemTemplate) -> Seq<u8> {
    le_bytes_u32(or_max(t.allowed_classes_mask))
        + le_bytes_u32(or_max(t.allowed_races_mask))
        + le_bytes_u32(t.item_level)
        + le_bytes_u32(or_zero(t.required_level))
        + le_bytes_u32(requirement_or_default(t.required_skill).id)
        + le_bytes_u32(requirement_or_default(t.required_skill).rank)
        + le_bytes_u32(or_zero(t.required_spell_id))
        + le_bytes_u32(or_zero(t.required_honor_rank))
        + le_bytes_u32(0u32)
        + le_bytes_u32(requirement_or_default(t.required_faction).id)
        + le_bytes_u32(requirement_or_default(t.required_faction).rank)
}

/// The bytes of the item query response for stacking, container slots, stats and scaling.
#[verifier::opaque]
pub open spec fn item_query_stacking(t: ItemTemplate) -> Seq<u8> {
    le_bytes_u32((t.max_count) as u32)
        + le_bytes_u32((t.stackable) as u32)
        + le_bytes_u32(t.container_slots)
        + le_bytes_u32(t.granted_stats@.len() as u32)
        + le_bytes_u32(t.scaling_stat_distribution)
        + le_bytes_u32(t.scaling_stat_value)
}

/// The bytes of the item query response for damage entry 0.
#[verifier::opaque]
pub open spec fn item_query_damage_0(t: ItemTemplate) -> Seq<u8> {
    le_bytes_u32(damage_at(t.damage@, 0).min_bits)
        + le_bytes_u32(damage_at(t.damage@, 0).max_bits)
        + le_bytes_u32(damage_at(t.damage@, 0).damage_type)
}

/// The bytes of the item query response for damage entry 1.
#[verifier::opaque]
pub open spec fn item_query_damage_1(t: ItemTemplate) -> Seq<u8> {
    le_bytes_u32(damage_at(t.damage@, 1).min_bits)
        + le_bytes_u32(damage_at(t.damage@, 1).max_bits)
        + le_bytes_u32(damage_at(t.damage@, 1).damage_type)
}

/// The bytes of the item query response for armor, resistances, delay, ammo and range.
#[verifier::opaque]
pub open spec fn item_query_defense(t: ItemTemplate) -> Seq<u8> {
    le_bytes_u32(or_zero(t.granted_armor))
        + le_bytes_u32(resistances_or_default(t.granted_resistances).holy)
        + le_bytes_u32(resistances_or_default(t.granted_resistances).fire)
        + le_bytes_u32(resistances_or_default(t.granted_resistances).nature)
        + le_bytes_u32(resistances_or_default(t.granted_resistances).frost)
        + le_bytes_u32(resistances_or_default(t.granted_resistances).shadow)
        + le_bytes_u32(resistances_or_default(t.granted_resistances).arcane)
        + le_bytes_u32(or_zero(t.delay))
        + le_bytes_u32(or_zero(t.ammo_type))
        + le_bytes_u32(t.ranged_mod_range_bits)
}

/// The bytes of the item query response for spell entry 0.
#[verifier::opaque]
pub open spec fn item_query_spell_0(t: ItemTemplate) -> Seq<u8> {
    le_bytes_u32(spell_proc_at(t.spell_procs@, 0).spell_id)
        + le_bytes_u32(spell_proc_at(t.spell_procs@, 0).trigger_type)
        + le_bytes_u32(0xffff_ffffu32)
        + le_bytes_u32(spell_proc_at(t.spell_procs@, 0).cooldown)
        + le_bytes_u32(spell_proc_at(t.spell_procs@, 0).category)
        + le_bytes_u32(spell_proc_at(t.spell_procs@, 0).category_cooldown)
}

/// The bytes of the item query response for spell entry 1.
#[verifier::opaque]
pub open spec fn item_query_spell_1(t: ItemTemplate) -> Seq<u8> {
    le_bytes_u32(spell_proc_at(t.spell_procs@, 1).spell_id)
        + le_bytes_u32(spell_proc_at(t.spell_procs@, 1).trigger_type)
        + le_bytes_u32(0xffff_ffffu32)
        + le_bytes_u32(spell_proc_at(t.spell_procs@, 1).cooldown)
        + le_bytes_u32(spell_proc_at(t.spell_procs@, 1).category)
        + le_bytes_u32(spell_proc_at(t.spell_procs@, 1).category_cooldown)
}

/// The bytes of the item query response for spell entry 2.
#[verifier::opaque]
pub open spec fn item_query_spell_2(t: ItemTemplate) -> Seq<u8> {
    le_bytes_u32(spell_proc_at(t.spell_procs@, 2).spell_id)
        + le_bytes_u32(spell_proc_at(t.spell_procs@, 2).trigger_type)
        + le_bytes_u32(0xffff_ffffu32)
        + le_bytes_u32(spell_proc_at(t.spell_procs@, 2).cooldown)
        + le_bytes_u32(spell_proc_at(t.spell_procs@, 2).category)
        + le_bytes_u32(spell_proc_at(t.spell_procs@, 2).category_cooldown)
}

/// The bytes of the item query response for spell entry 3.
#[verifier::opaque]
pub open spec fn item_query_spell_3(t: ItemTemplate) -> Seq<u8> {
    le_bytes_u32(spell_proc_at(t.spell_procs@, 3).spell_id)
        + le_bytes_u32(spell_proc_at(t.spell_procs@, 3).trigger_type)
        + le_bytes_u32(0xffff_ffffu32)
        + le_bytes_u32(spell_proc_at(t.spell_procs@, 3).cooldown)
        + le_bytes_u32(spell_proc_at(t.spell_procs@, 3).category)
        + le_bytes_u32(spell_proc_at(t.spell_procs@, 3).category_cooldown)
}

/// The bytes of the item query response for spell entry 4.
#[verifier::opaque]
pub open spec fn item_query_spell_4(t: ItemTemplate) -> Seq<u8> {
    le_bytes_u32(spell_proc_at(t.spell_procs@, 4).spell_id)
        + le_bytes_u32(spell_proc_at(t.spell_procs@, 4).trigger_type)
        + le_bytes_u32(0xffff_ffffu32)
        + le_bytes_u32(spell_proc_at(t.spell_procs@, 4).cooldown)
        + le_bytes_u32(spell_proc_at(t.spell_procs@, 4).category)
        + le_bytes_u32(spell_proc_at(t.spell_procs@, 4).category_cooldown)
}

/// The bytes of the item query response for bonding, description and readable text.
#[verifier::opaque]
pub open spec fn item_query_text(t: ItemTemplate) -> Seq<u8> {
    le_bytes_u32(t.bonding)
        + t.description@
        + seq![0u8]
        + le_bytes_u32(page_text_or_default(t.readable_info).text_id)
        + le_bytes_u32(page_text_or_default(t.readable_info).language_id)
        + le_bytes_u32(page_text_or_default(t.readable_info).page_material)
}

/// The bytes of the item query response for quest, lock, material, sets, durability and where it is usable.
#[verifier::opaque]
pub open spec fn item_query_misc(t: ItemTemplate) -> Seq<u8> {
    le_bytes_u32(or_zero(t.start_quest_id))
        + le_bytes_u32(or_zero(t.lock_id))
        + le_bytes_u32((t.material) as u32)
        + le_bytes_u32(t.sheath_style)
        + le_bytes_u32(t.random_property)
        + le_bytes_u32(t.random_suffix)
        + le_bytes_u32(or_zero(t.block_value))
        + le_bytes_u32(or_zero(t.item_set_id))
        + le_bytes_u32(t.max_durability)
        + le_bytes_u32(or_zero(t.usable_area))
        + le_bytes_u32(or_zero(t.usable_map))
        + le_bytes_u32(or_zero(t.bag_family_mask))
        + le_bytes_u32(or_zero(t.totem_category))
}

/// The bytes of the item query response for socket 0.
#[verifier::opaque]
pub open spec fn item_query_socket_0(t: ItemTemplate) -> Seq<u8> {
    le_bytes_u32(socket_at(t.sockets@, 0).color)
        + le_bytes_u32(socket_at(t.sockets@, 0).content)
}

/// The bytes of the item query response for socket 1.
#[verifier::opaque]
pub open spec fn item_query_socket_1(t: ItemTemplate) -> Seq<u8> {
    le_bytes_u32(socket_at(t.sockets@, 1).color)
        + le_bytes_u32(socket_at(t.sockets@, 1).content)
}

/// The bytes of the item query response for socket 2.
#[verifier::opaque]
pub open spec fn item_query_socket_2(t: ItemTemplate) -> Seq<u8> {
    le_bytes_u32(socket_at(t.sockets@, 2).color)
        + le_bytes_u32(socket_at(t.sockets@, 2).content)
}

/// The bytes of the item query response for socket bonus, gems, disenchanting, armor modifier, duration and limits.
#[verifier::opaque]
pub open spec fn item_query_tail(t: ItemTemplate) -> Seq<u8> {
    le_bytes_u32(or_zero(t.socket_bonus))
        + le_bytes_u32(t.gem_properties)
        + le_bytes_u32((i_or_zero(t.required_disenchant_skill)) as u32)
        + le_bytes_u32(t.armor_damage_modifier_bits)
        + le_bytes_u32(t.duration)
        + le_bytes_u32(t.item_limit_category)
        + le_bytes_u32(t.holiday_id)
}

/// The body of the answer to an item query: the item's template laid out
/// field by field, little-endian, as the client reads it.
pub open spec fn item_query_single_response(t: ItemTemplate) -> Seq<u8> {
    item_query_header(t)
        + item_query_appearance(t)
        + item_query_requirements(t)
        + item_query_stacking(t)
        + item_query_damage_0(t)
        + item_query_damage_1(t)
        + item_query_defense(t)
        + item_query_spell_0(t)
        + item_query_spell_1(t)
        + item_query_spell_2(t)
        + item_query_spell_3(t)
        + item_query_spell_4(t)
        + item_query_text(t)
        + item_query_misc(t)
        + item_query_socket_0(t)
        + item_query_socket_1(t)
        + item_query_socket_2(t)
        + item_query_tail(t)
}

/// Writes the part of the item query response for its id, class and subclass, the name.
fn write_item_query_header(buf: &mut Vec<u8>, t: &ItemTemplate)
    ensures
        final(buf)@ == old(buf)@ + item_query_header(*t),
{
    put_u32_le(buf, t.id);
    put_u32_le(buf, t.class);
    put_u32_le(buf, t.subclass);
    put_i32_le(buf, -1i32);
    put_bytes(buf, t.name.as_slice());
    put_u8(buf, 0u8);
    put_u8(buf, 0u8);
    put_u8(buf, 0u8);
    put_u8(buf, 0u8);
    reveal(item_query_header);
    assert(buf@ =~= old(buf)@ + item_query_header(*t));
}

/// Writes the part of the item query response for display, quality, flags, prices and inventory type.
fn write_item_query_appearance(buf: &mut Vec<u8>, t: &ItemTemplate)
    ensures
        final(buf)@ == old(buf)@ + item_query_appearance(*t),
{
    put_u32_le(buf, t.display_id);
    put_u32_le(buf, t.quality);
    put_u32_le(buf, t.flags);
    put_u32_le(buf, t.flags2);
    put_u32_le(buf, t.buy_price);
    put_u32_le(buf, t.sell_price);
    put_u32_le(buf, t.inventory_type);
    reveal(item_query_appearance);
    assert(buf@ =~= old(buf)@ + item_query_appearance(*t));
}

/// Writes the part of the item query response for who may use the item.
fn write_item_query_requirements(buf: &mut Vec<u8>, t: &ItemTemplate)
    ensures
        final(buf)@ == old(buf)@ + item_query_requirements(*t),
{
    let skill = requirement_or_default_exec(t.required_skill);
    let faction = requirement_or_default_exec(t.required_faction);
    put_u32_le(buf, or_max_exec(t.allowed_classes_mask));
    put_u32_le(buf, or_max_exec(t.allowed_races_mask));
    put_u32_le(buf, t.item_level);
    put_u32_le(buf, or_zero_exec(t.required_level));
    put_u32_le(buf, skill.id);
    put_u32_le(buf, skill.rank);
    put_u32_le(buf, or_zero_exec(t.required_spell_id));
    put_u32_le(buf, or_zero_exec(t.required_honor_rank));
    put_u32_le(buf, 0u32);
    put_u32_le(buf, faction.id);
    put_u32_le(buf, faction.rank);
    reveal(item_query_requirements);
    assert(buf@ =~= old(buf)@ + item_query_requirements(*t));
}

/// Writes the part of the item query response for stacking, container slots, stats and scaling.
fn write_item_query_stacking(buf: &mut Vec<u8>, t: &ItemTemplate)
    ensures
        final(buf)@ == old(buf)@ + item_query_stacking(*t),
{
    put_i32_le(buf, t.max_count);
    put_i32_le(buf, t.stackable);
    put_u32_le(buf, t.container_slots);
    put_u32_le(buf, t.granted_stats.len() as u32);
    put_u32_le(buf, t.scaling_stat_distribution);
    put_u32_le(buf, t.scaling_stat_value);
    reveal(item_query_stacking);
    assert(buf@ =~= old(buf)@ + item_query_stacking(*t));
}

/// Writes the part of the item query response for damage entry 0.
fn write_item_query_damage_0(buf: &mut Vec<u8>, t: &ItemTemplate)
    ensures
        final(buf)@ == old(buf)@ + item_query_damage_0(*t),
{
    let d = damage_at_exec(&t.damage, 0);
    put_u32_le(buf, d.min_bits);
    put_u32_le(buf, d.max_bits);
    put_u32_le(buf, d.damage_type);
    reveal(item_query_damage_0);
    assert(buf@ =~= old(buf)@ + item_query_damage_0(*t));
}

/// Writes the part of the item query response for damage entry 1.
fn write_item_query_damage_1(buf: &mut Vec<u8>, t: &ItemTemplate)
    ensures
        final(buf)@ == old(buf)@ + item_query_damage_1(*t),
{
    let d = damage_at_exec(&t.damage, 1);
    put_u32_le(buf, d.min_bits);
    put_u32_le(buf, d.max_bits);
    put_u32_le(buf, d.damage_type);
    reveal(item_query_damage_1);
    assert(buf@ =~= old(buf)@ + item_query_damage_1(*t));
}

/// Writes the part of the item query response for armor, resistances, delay, ammo and range.
fn write_item_query_defense(buf: &mut Vec<u8>, t: &ItemTemplate)
    ensures
        final(buf)@ == old(buf)@ + item_query_defense(*t),
{
    let res = resistances_or_default_exec(t.granted_resistances);
    put_u32_le(buf, or_zero_exec(t.granted_armor));
    put_u32_le(buf, res.holy);
    put_u32_le(buf, res.fire);
    put_u32_le(buf, res.nature);
    put_u32_le(buf, res.frost);
    put_u32_le(buf, res.shadow);
    put_u32_le(buf, res.arcane);
    put_u32_le(buf, or_zero_exec(t.delay));
    put_u32_le(buf, or_zero_exec(t.ammo_type));
    put_u32_le(buf, t.ranged_mod_range_bits);
    reveal(item_query_defense);
    assert(buf@ =~= old(buf)@ + item_query_defense(*t));
}

/// Writes the part of the item query response for spell entry 0.
fn write_item_query_spell_0(buf: &mut Vec<u8>, t: &ItemTemplate)
    ensures
        final(buf)@ == old(buf)@ + item_query_spell_0(*t),
{
    let sp = spell_proc_at_exec(&t.spell_procs, 0);
    put_u32_le(buf, sp.spell_id);
    put_u32_le(buf, sp.trigger_type);
    put_u32_le(buf, 0xffff_ffffu32);
    put_u32_le(buf, sp.cooldown);
    put_u32_le(buf, sp.category);
    put_u32_le(buf, sp.category_cooldown);
    reveal(item_query_spell_0);
    assert(buf@ =~= old(buf)@ + item_query_spell_0(*t));
}

/// Writes the part of the item query response for spell entry 1.
fn write_item_query_spell_1(buf: &mut Vec<u8>, t: &ItemTemplate)
    ensures
        final(buf)@ == old(buf)@ + item_query_spell_1(*t),
{
    let sp = spell_proc_at_exec(&t.spell_procs, 1);
    put_u32_le(buf, sp.spell_id);
    put_u32_le(buf, sp.trigger_type);
    put_u32_le(buf, 0xffff_ffffu32);
    put_u32_le(buf, sp.cooldown);
    put_u32_le(buf, sp.category);
    put_u32_le(buf, sp.category_cooldown);
    reveal(item_query_spell_1);
    assert(buf@ =~= old(buf)@ + item_query_spell_1(*t));
}

/// Writes the part of the item query response for spell entry 2.
fn write_item_query_spell_2(buf: &mut Vec<u8>, t: &ItemTemplate)
    ensures
        final(buf)@ == old(buf)@ + item_query_spell_2(*t),
{
    let sp = spell_proc_at_exec(&t.spell_procs, 2);
    put_u32_le(buf, sp.spell_id);
    put_u32_le(buf, sp.trigger_type);
    put_u32_le(buf, 0xffff_ffffu32);
    put_u32_le(buf, sp.cooldown);
    put_u32_le(buf, sp.category);
    put_u32_le(buf, sp.category_cooldown);
    reveal(item_query_spell_2);
    assert(buf@ =~= old(buf)@ + item_query_spell_2(*t));
}

/// Writes the part of the item query response for spell entry 3.
fn write_item_query_spell_3(buf: &mut Vec<u8>, t: &ItemTemplate)
    ensures
        final(buf)@ == old(buf)@ + item_query_spell_3(*t),
{
    let sp = spell_proc_at_exec(&t.spell_procs, 3);
    put_u32_le(buf, sp.spell_id);
    put_u32_le(buf, sp.trigger_type);
    put_u32_le(buf, 0xffff_ffffu32);
    put_u32_le(buf, sp.cooldown);
    put_u32_le(buf, sp.category);
    put_u32_le(buf, sp.category_cooldown);
    reveal(item_query_spell_3);
    assert(buf@ =~= old(buf)@ + item_query_spell_3(*t));
}

/// Writes the part of the item query response for spell entry 4.
fn write_item_query_spell_4(buf: &mut Vec<u8>, t: &ItemTemplate)
    ensures
        final(buf)@ == old(buf)@ + item_query_spell_4(*t),
{
    let sp = spell_proc_at_exec(&t.spell_procs, 4);
    put_u32_le(buf, sp.spell_id);
    put_u32_le(buf, sp.trigger_type);
    put_u32_le(buf, 0xffff_ffffu32);
    put_u32_le(buf, sp.cooldown);
    put_u32_le(buf, sp.category);
    put_u32_le(buf, sp.category_cooldown);
    reveal(item_query_spell_4);
    assert(buf@ =~= old(buf)@ + item_query_spell_4(*t));
}

/// Writes the part of the item query response for bonding, description and readable text.
fn write_item_query_text(buf: &mut Vec<u8>, t: &ItemTemplate)
    ensures
        final(buf)@ == old(buf)@ + item_query_text(*t),
{
    let page = page_text_or_default_exec(t.readable_info);
    put_u32_le(buf, t.bonding);
    put_bytes(buf, t.description.as_slice());
    put_u8(buf, 0u8);
    put_u32_le(buf, page.text_id);
    put_u32_le(buf, page.language_id);
    put_u32_le(buf, page.page_material);
    reveal(item_query_text);
    assert(buf@ =~= old(buf)@ + item_query_text(*t));
}

/// Writes the part of the item query response for quest, lock, material, sets, durability and where it is usable.
fn write_item_query_misc(buf: &mut Vec<u8>, t: &ItemTemplate)
    ensures
        final(buf)@ == old(buf)@ + item_query_misc(*t),
{
    put_u32_le(buf, or_zero_exec(t.start_quest_id));
    put_u32_le(buf, or_zero_exec(t.lock_id));
    put_i32_le(buf, t.material);
    put_u32_le(buf, t.sheath_style);
    put_u32_le(buf, t.random_property);
    put_u32_le(buf, t.random_suffix);
    put_u32_le(buf, or_zero_exec(t.block_value));
    put_u32_le(buf, or_zero_exec(t.item_set_id));
    put_u32_le(buf, t.max_durability);
    put_u32_le(buf, or_zero_exec(t.usable_area));
    put_u32_le(buf, or_zero_exec(t.usable_map));
    put_u32_le(buf, or_zero_exec(t.bag_family_mask));
    put_u32_le(buf, or_zero_exec(t.totem_category));
    reveal(item_query_misc);
    assert(buf@ =~= old(buf)@ + item_query_misc(*t));
}

/// Writes the part of the item query response for socket 0.
fn write_item_query_socket_0(buf: &mut Vec<u8>, t: &ItemTemplate)
    ensures
        final(buf)@ == old(buf)@ + item_query_socket_0(*t),
{
    let so = socket_at_exec(&t.sockets, 0);
    put_u32_le(buf, so.color);
    put_u32_le(buf, so.content);
    reveal(item_query_socket_0);
    assert(buf@ =~= old(buf)@ + item_query_socket_0(*t));
}

/// Writes the part of the item query response for socket 1.
fn write_item_query_socket_1(buf: &mut Vec<u8>, t: &ItemTemplate)
    ensures
        final(buf)@ == old(buf)@ + item_query_socket_1(*t),
{
    let so = socket_at_exec(&t.sockets, 1);
    put_u32_le(buf, so.color);
    put_u32_le(buf, so.content);
    reveal(item_query_socket_1);
    assert(buf@ =~= old(buf)@ + item_query_socket_1(*t));
}

/// Writes the part of the item query response for socket 2.
fn write_item_query_socket_2(buf: &mut Vec<u8>, t: &ItemTemplate)
    ensures
        final(buf)@ == old(buf)@ + item_query_socket_2(*t),
{
    let so = socket_at_exec(&t.sockets, 2);
    put_u32_le(buf, so.color);
    put_u32_le(buf, so.content);
    reveal(item_query_socket_2);
    assert(buf@ =~= old(buf)@ + item_query_socket_2(*t));
}

/// Writes the part of the item query response for socket bonus, gems, disenchanting, armor modifier, duration and limits.
fn write_item_query_tail(buf: &mut Vec<u8>, t: &ItemTemplate)
    ensures
        final(buf)@ == old(buf)@ + item_query_tail(*t),
{
    put_u32_le(buf, or_zero_exec(t.socket_bonus));
    put_u32_le(buf, t.gem_properties);
    put_i32_le(buf, i_or_zero_exec(t.required_disenchant_skill));
    put_u32_le(buf, t.armor_damage_modifier_bits);
    put_u32_le(buf, t.duration);
    put_u32_le(buf, t.item_limit_category);
    put_u32_le(buf, t.holiday_id);
    reveal(item_query_tail);
    assert(buf@ =~= old(buf)@ + item_query_tail(*t));
}

/// The body of the answer to an item query for the item of template `t`;
/// see `item_query_single_response`.
pub fn write_item_query_single_response(t: &ItemTemplate) -> (r: Vec<u8>)
    ensures
        r@ == item_query_single_response(*t),
{
    let mut buf: Vec<u8> = Vec::new();
    write_item_query_header(&mut buf, t);
    write_item_query_appearance(&mut buf, t);
    write_item_query_requirements(&mut buf, t);
    write_item_query_stacking(&mut buf, t);
    write_item_query_damage_0(&mut buf, t);
    write_item_query_damage_1(&mut buf, t);
    write_item_query_defense(&mut buf, t);
    write_item_query_spell_0(&mut buf, t);
    write_item_query_spell_1(&mut buf, t);
    write_item_query_spell_2(&mut buf, t);
    write_item_query_spell_3(&mut buf, t);
    write_item_query_spell_4(&mut buf, t);
    write_item_query_text(&mut buf, t);
    write_item_query_misc(&mut buf, t);
    write_item_query_socket_0(&mut buf, t);
    write_item_query_socket_1(&mut buf, t);
    write_item_query_socket_2(&mut buf, t);
    write_item_query_tail(&mut buf, t);
    assert(buf@ =~= item_query_single_response(*t));
    buf
}

/// The answer to an item query has a fixed layout: 421 bytes besides the
/// item's name and description.
pub proof fn lemma_item_query_response_length(t: ItemTemplate)
    ensures
        item_query_single_response(t).len() == 421 + t.name@.len() + t.description@.len(),
{
    assert(item_query_header(t).len() == 20 + t.name@.len()) by {
        reveal(item_query_header);
    }
    assert(item_query_appearance(t).len() == 28) by {
        reveal(item_query_appearance);
    }
    assert(item_query_requirements(t).len() == 44) by {
        reveal(item_query_requirements);
    }
    assert(item_query_stacking(t).len() == 24) by {
        reveal(item_query_stacking);
    }
    assert(item_query_damage_0(t).len() == 12) by {
        reveal(item_query_damage_0);
    }
    assert(item_query_damage_1(t).len() == 12) by {
        reveal(item_query_damage_1);
    }
    assert(item_query_defense(t).len() == 40) by {
        reveal(item_query_defense);
    }
    assert(item_query_spell_0(t).len() == 24) by {
        reveal(item_query_spell_0);
    }
    assert(item_query_spell_1(t).len() == 24) by {
        reveal(item_query_spell_1);
    }
    assert(item_query_spell_2(t).len() == 24) by {
        reveal(item_query_spell_2);
    }
    assert(item_query_spell_3(t).len() == 24) by {
        reveal(item_query_spell_3);
    }
    assert(item_query_spell_4(t).len() == 24) by {
        reveal(item_query_spell_4);
    }
    assert(item_query_text(t).len() == 17 + t.description@.len()) by {
        reveal(item_query_text);
    }
    assert(item_query_misc(t).len() == 52) by {
        reveal(item_query_misc);
    }
    assert(item_query_socket_0(t).len() == 8) by {
        reveal(item_query_socket_0);
    }
    assert(item_query_socket_1(t).len() == 8) by {
        reveal(item_query_socket_1);
    }
    assert(item_query_socket_2(t).len() == 8) by {
        reveal(item_query_socket_2);
    }
    assert(item_query_tail(t).len() == 28) by {
        reveal(item_query_tail);
    }
}

/// The `u32` that the answer to an item query holds at byte `offset`.
pub open spec fn response_u32_at(t: ItemTemplate, offset: int) -> u32 {
    le_u32_of(item_query_single_response(t).subrange(offset, offset + 4))
}

/// A stretch of bytes inside the first part of a concatenation is read
/// from that part.
proof fn lemma_prefix_subrange(p: Seq<u8>, q: Seq<u8>, i: int, j: int)
    requires
        0 <= i <= j <= p.len(),
    ensures
        (p + q).subrange(i, j) == p.subrange(i, j),
{
    assert((p + q).subrange(i, j) =~= p.subrange(i, j));
}

/// The answer to an item query starts with its header and the part for
/// the item's appearance.
proof fn lemma_response_starts_with_appearance(t: ItemTemplate, i: int, j: int)
    requires
        0 <= i <= j <= (item_query_header(t) + item_query_appearance(t)).len(),
    ensures
        item_query_single_response(t).subrange(i, j) == (item_query_header(t)
            + item_query_appearance(t)).subrange(i, j),
{
    let s1 = item_query_header(t) + item_query_appearance(t);
    let s2 = s1 + item_query_requirements(t);
    let s3 = s2 + item_query_stacking(t);
    let s4 = s3 + item_query_damage_0(t);
    let s5 = s4 + item_query_damage_1(t);
    let s6 = s5 + item_query_defense(t);
    let s7 = s6 + item_query_spell_0(t);
    let s8 = s7 + item_query_spell_1(t);
    let s9 = s8 + item_query_spell_2(t);
    let s10 = s9 + item_query_spell_3(t);
    let s11 = s10 + item_query_spell_4(t);
    let s12 = s11 + item_query_text(t);
    let s13 = s12 + item_query_misc(t);
    let s14 = s13 + item_query_socket_0(t);
    let s15 = s14 + item_query_socket_1(t);
    let s16 = s15 + item_query_socket_2(t);
    assert(item_query_single_response(t) == s16 + item_query_tail(t));
    lemma_prefix_subrange(s16, item_query_tail(t), i, j);
    lemma_prefix_subrange(s15, item_query_socket_2(t), i, j);
    lemma_prefix_subrange(s14, item_query_socket_1(t), i, j);
    lemma_prefix_subrange(s13, item_query_socket_0(t), i, j);
    lemma_prefix_subrange(s12, item_query_misc(t), i, j);
    lemma_prefix_subrange(s11, item_query_text(t), i, j);
    lemma_prefix_subrange(s10, item_query_spell_4(t), i, j);
    lemma_prefix_subrange(s9, item_query_spell_3(t), i, j);
    lemma_prefix_subrange(s8, item_query_spell_2(t), i, j);
    lemma_prefix_subrange(s7, item_query_spell_1(t), i, j);
    lemma_prefix_subrange(s6, item_query_spell_0(t), i, j);
    lemma_prefix_subrange(s5, item_query_defense(t), i, j);
    lemma_prefix_subrange(s4, item_query_damage_1(t), i, j);
    lemma_prefix_subrange(s3, item_query_damage_0(t), i, j);
    lemma_prefix_subrange(s2, item_query_stacking(t), i, j);
    lemma_prefix_subrange(s1, item_query_requirements(t), i, j);
}

/// The `u32` of the answer at `offset`, inside the header and appearance.
proof fn lemma_response_word(t: ItemTemplate, offset: int, v: u32)
    requires
        0 <= offset,
        offset + 4 <= (item_query_header(t) + item_query_appearance(t)).len(),
        (item_query_header(t) + item_query_appearance(t)).subrange(offset, offset + 4)
            == le_bytes_u32(v),
    ensures
        response_u32_at(t, offset) == v,
{
    lemma_response_starts_with_appearance(t, offset, offset + 4);
    crate::wire::lemma_le_u32_roundtrip(v);
}

/// Where the answer to an item query holds the fields that follow the
/// name: with `n` the name's length, the display id at byte `20 + n`, then
/// the quality, the flags, the second flags, the buy price at `36 + n`, the
/// sell price at `40 + n` and the inventory type at `44 + n`. The id, class
/// and subclass are the first three words.
pub proof fn lemma_item_query_field_offsets(t: ItemTemplate)
    ensures
        response_u32_at(t, 0) == t.id,
        response_u32_at(t, 4) == t.class,
        response_u32_at(t, 8) == t.subclass,
        response_u32_at(t, 20 + t.name@.len() as int) == t.display_id,
        response_u32_at(t, 24 + t.name@.len() as int) == t.quality,
        response_u32_at(t, 28 + t.name@.len() as int) == t.flags,
        response_u32_at(t, 32 + t.name@.len() as int) == t.flags2,
        response_u32_at(t, 36 + t.name@.len() as int) == t.buy_price,
        response_u32_at(t, 40 + t.name@.len() as int) == t.sell_price,
        response_u32_at(t, 44 + t.name@.len() as int) == t.inventory_type,
{
    reveal(item_query_header);
    reveal(item_query_appearance);
    let n = t.name@.len() as int;
    let p = item_query_header(t) + item_query_appearance(t);
    assert(p.len() == 48 + n);
    assert(p.subrange(0, 4) =~= le_bytes_u32(t.id));
    assert(p.subrange(4, 8) =~= le_bytes_u32(t.class));
    assert(p.subrange(8, 12) =~= le_bytes_u32(t.subclass));
    assert(p.subrange(20 + n, 24 + n) =~= le_bytes_u32(t.display_id));
    assert(p.subrange(24 + n, 28 + n) =~= le_bytes_u32(t.quality));
    assert(p.subrange(28 + n, 32 + n) =~= le_bytes_u32(t.flags));
    assert(p.subrange(32 + n, 36 + n) =~= le_bytes_u32(t.flags2));
    assert(p.subrange(36 + n, 40 + n) =~= le_bytes_u32(t.buy_price));
    assert(p.subrange(40 + n, 44 + n) =~= le_bytes_u32(t.sell_price));
    assert(p.subrange(44 + n, 48 + n) =~= le_bytes_u32(t.inventory_type));
    lemma_response_word(t, 0, t.id);
    lemma_response_word(t, 4, t.class);
    lemma_response_word(t, 8, t.subclass);
    lemma_response_word(t, 20 + n, t.display_id);
    lemma_response_word(t, 24 + n, t.quality);
    lemma_response_word(t, 28 + n, t.flags);
    lemma_response_word(t, 32 + n, t.flags2);
    lemma_response_word(t, 36 + n, t.buy_price);
    lemma_response_word(t, 40 + n, t.sell_price);
    lemma_response_word(t, 44 + n, t.inventory_type);
}

} // verus!
