use world_server::handlers::spell_handler::write_initial_spells;
use world_server::handlers::equipment_handler::{
    read_item_query_item_id, write_item_query_single_response, ItemDamage, ItemRequirement, ItemSocket,
    ItemSpellProc, ItemTemplate,
};

fn template() -> ItemTemplate {
    ItemTemplate {
        id: 25,
        class: 2,
        subclass: 7,
        name: b"Worn Shortsword".to_vec(),
        display_id: 1542,
        quality: 1,
        flags: 0,
        flags2: 0,
        buy_price: 35,
        sell_price: 7,
        inventory_type: 21,
        allowed_classes_mask: None,
        allowed_races_mask: Some(0x1FF),
        item_level: 2,
        required_level: Some(1),
        required_skill: Some(ItemRequirement { id: 43, rank: 1 }),
        required_spell_id: None,
        required_honor_rank: None,
        required_faction: None,
        max_count: 0,
        stackable: 1,
        container_slots: 0,
        granted_stats: vec![],
        scaling_stat_distribution: 0,
        scaling_stat_value: 0,
        damage: vec![ItemDamage { min_bits: 1.0f32.to_bits(), max_bits: 3.0f32.to_bits(), damage_type: 0 }],
        granted_armor: None,
        granted_resistances: None,
        delay: Some(1900),
        ammo_type: None,
        ranged_mod_range_bits: 0.0f32.to_bits(),
        spell_procs: vec![ItemSpellProc { spell_id: 18, trigger_type: 1, cooldown: 0, category: 0, category_cooldown: 0 }],
        bonding: 0,
        description: b"".to_vec(),
        readable_info: None,
        start_quest_id: None,
        lock_id: None,
        material: -1,
        sheath_style: 3,
        random_property: 0,
        random_suffix: 0,
        block_value: None,
        item_set_id: None,
        max_durability: 20,
        usable_area: None,
        usable_map: None,
        bag_family_mask: None,
        totem_category: None,
        sockets: vec![ItemSocket { color: 2, content: 0 }],
        socket_bonus: None,
        gem_properties: 0,
        required_disenchant_skill: Some(-1),
        armor_damage_modifier_bits: 0.0f32.to_bits(),
        duration: 0,
        item_limit_category: 0,
        holiday_id: 0,
    }
}

fn u32_at(b: &[u8], at: usize) -> u32 {
    u32::from_le_bytes([b[at], b[at + 1], b[at + 2], b[at + 3]])
}

#[test]
fn item_query_response_layout() {
    let t = template();
    let b = write_item_query_single_response(&t);
    assert_eq!(b.len(), 421 + 15);
    assert_eq!(u32_at(&b, 0), 25);
    assert_eq!(u32_at(&b, 4), 2);
    assert_eq!(u32_at(&b, 8), 7);
    assert_eq!(u32_at(&b, 12), u32::MAX);
    assert_eq!(&b[16..31], b"Worn Shortsword");
    assert_eq!(&b[31..35], &[0, 0, 0, 0]);
    let after_name = 35;
    assert_eq!(u32_at(&b, after_name), 1542);
    // Missing class mask is every class; the race mask is given.
    assert_eq!(u32_at(&b, after_name + 28), u32::MAX);
    assert_eq!(u32_at(&b, after_name + 32), 0x1FF);
    // Required level, then the skill and its rank.
    assert_eq!(u32_at(&b, after_name + 40), 1);
    assert_eq!(u32_at(&b, after_name + 44), 43);
    assert_eq!(u32_at(&b, after_name + 48), 1);
    // The second damage entry is zeros.
    let damage = after_name + 28 + 44 + 24;
    assert_eq!(u32_at(&b, damage), 1.0f32.to_bits());
    assert_eq!(u32_at(&b, damage + 4), 3.0f32.to_bits());
    assert_eq!(&b[damage + 12..damage + 24], &[0u8; 12]);
    // Delay follows armor and six resistances.
    assert_eq!(u32_at(&b, damage + 24 + 28), 1900);
    // Each spell entry has charges written as all bits set.
    let spells = damage + 24 + 40;
    assert_eq!(u32_at(&b, spells), 18);
    assert_eq!(u32_at(&b, spells + 8), u32::MAX);
    assert_eq!(u32_at(&b, spells + 24 + 8), u32::MAX);
    // The disenchanting skill is written signed.
    let end = b.len();
    assert_eq!(u32_at(&b, end - 20), u32::MAX);
}

#[test]
fn item_query_response_grows_with_the_texts() {
    let mut t = template();
    t.name = b"X".to_vec();
    t.description = b"Sharp.".to_vec();
    assert_eq!(write_item_query_single_response(&t).len(), 421 + 1 + 6);
}

#[test]
fn item_query_asks_for_an_item_id() {
    assert_eq!(read_item_query_item_id(&[0x19, 0, 0, 0, 0xFF]), Some(25));
    assert_eq!(read_item_query_item_id(&[0x19, 0, 0]), None);
}

#[test]
fn initial_spells_list_two_spells_and_no_cooldowns() {
    let b = write_initial_spells();
    assert_eq!(
        b,
        vec![0, 2, 0, 0x8A, 0x12, 0x01, 0x00, 0, 0, 0x8B, 0x12, 0x01, 0x00, 0, 0, 0, 0]
    );
}
