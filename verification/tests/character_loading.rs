use world_server::character::character_database::{
    character_state_from_lookups, load_character_state, loaded_character_state, CharacterRow, LoadError,
    RaceDisplayIds, RowLookups, DEFAULT_AREA, PLAYER_OBJECT_TYPE, UNIT_SCALE_BITS,
};
use world_server::character::character_fields::Power;
use world_server::game_enums::{Class, Gender, Race};
use world_server::guid::Guid;

fn human_warrior() -> CharacterRow {
    CharacterRow {
        guid: Guid(0x0000_0007_0000_0042),
        name: String::from("Arthas"),
        race: 1,
        class: 1,
        gender: 0,
        map: 0,
        zone: 12,
        x_bits: 0x45e0_0000,
        y_bits: 0x4300_0000,
        z_bits: 0x4280_0000,
        bind_map: 0,
        bind_zone: 0,
        bind_x_bits: 1,
        bind_y_bits: 2,
        bind_z_bits: 3,
        playtime_total: 0,
        playtime_level: 0,
    }
}

fn ids() -> Option<RaceDisplayIds> {
    Some(RaceDisplayIds { male_display_id: 49, female_display_id: 50 })
}

fn all_known() -> RowLookups {
    RowLookups {
        bind_map_known: true,
        map_known: true,
        bind_zone_known: true,
        zone_known: true,
        starter_skills: vec![26, 43],
        starter_spells: vec![78],
    }
}

fn tutorial_bytes() -> Vec<u8> {
    let mut b = vec![0u8; 32];
    b[0] = 1;
    b[4] = 2;
    b
}

#[test]
fn a_stored_character_becomes_a_character_in_play() {
    let row = human_warrior();
    let s = character_state_from_lookups(&row, &tutorial_bytes(), ids(), Some(1), 1_700_000_000, all_known())
        .ok()
        .unwrap();
    assert_eq!(s.name, "Arthas");
    assert_eq!(s.guid, Guid(0x0000_0007_0000_0042));
    assert_eq!(s.object_low_guid, 0x42);
    assert_eq!(s.object_high_guid, 7);
    assert_eq!(s.object_type, PLAYER_OBJECT_TYPE);
    assert_eq!(PLAYER_OBJECT_TYPE, 1 | (1 << 3) | (1 << 4));
    assert_eq!(s.map, 0);
    assert_eq!(s.area, 12);
    assert_eq!(s.bind_location.zone, 0);
    assert_eq!(s.bind_location.map, 0);
    assert_eq!((s.bind_location.x_bits, s.bind_location.y_bits, s.bind_location.z_bits, s.bind_location.o_bits), (1, 2, 3, 0));
    assert_eq!(s.movement_info.position.x_bits, 0x45e0_0000);
    assert_eq!(s.movement_info.position.o_bits, 0);
    assert_eq!(s.movement_info.movement_flags, 0);
    assert_eq!(s.tutorial_flags.flag_data, [1, 2, 0, 0, 0, 0, 0, 0]);
    assert_eq!(s.last_playtime_calculation_timestamp, 1_700_000_000);
    assert_eq!(s.display_id, Some(49));
    assert_eq!(s.unit_bytes_0, (Race::Human, Class::Warrior, Gender::Male, Power::Rage));
    assert_eq!((s.health, s.max_health, s.level, s.faction_template), (100, 100, 1, 1));
    assert_eq!(s.scale_x_bits, UNIT_SCALE_BITS);
    assert_eq!(f32::from_bits(s.scale_x_bits), 1.0f32);
    assert!(s.needs_first_login);
    assert_eq!(s.starter_skills, vec![26, 43]);
    assert_eq!(s.starter_spells, vec![78]);
}

#[test]
fn time_played_means_no_first_login() {
    let row = CharacterRow { playtime_total: 3600, playtime_level: 60, gender: 1, ..human_warrior() };
    let s = character_state_from_lookups(&row, &[0u8; 32], ids(), Some(1), 5, all_known()).ok().unwrap();
    assert!(!s.needs_first_login);
    assert_eq!(s.seconds_played_total, 3600);
    assert_eq!(s.seconds_played_at_level, 60);
    assert_eq!(s.display_id, Some(50));
}

#[test]
fn unknown_zones_fall_back_to_northshire_abbey() {
    let lookups = RowLookups { bind_zone_known: false, zone_known: false, ..all_known() };
    let s = character_state_from_lookups(&human_warrior(), &[0u8; 32], None, Some(1), 5, lookups).ok().unwrap();
    assert_eq!(s.area, DEFAULT_AREA);
    assert_eq!(s.bind_location.zone, 24);
    assert_eq!(s.display_id, None);
}

#[test]
fn each_failed_check_has_its_error() {
    let row = human_warrior();
    let data = [0u8; 32];
    let err = |row: &CharacterRow, data: &[u8], power: Option<u8>, lookups: RowLookups| {
        character_state_from_lookups(row, data, ids(), power, 0, lookups).err().unwrap()
    };
    assert_eq!(err(&row, &data, Some(1), RowLookups { bind_map_known: false, map_known: false, ..all_known() }), LoadError::UnknownBindMap);
    assert_eq!(err(&row, &data, Some(1), RowLookups { map_known: false, ..all_known() }), LoadError::UnknownMap);
    assert_eq!(err(&row, &data[..31], Some(1), all_known()), LoadError::IncorrectTutorialData);
    assert_eq!(err(&CharacterRow { gender: 3, race: 0, ..row.clone() }, &data, Some(1), all_known()), LoadError::UnknownGender);
    assert_eq!(err(&CharacterRow { race: 0, class: 0, ..row.clone() }, &data, Some(1), all_known()), LoadError::UnknownRace);
    assert_eq!(err(&CharacterRow { class: 0, ..row.clone() }, &data, Some(1), all_known()), LoadError::UnknownClass);
    assert_eq!(err(&row, &data, None, all_known()), LoadError::NoClassInfo);
    assert_eq!(err(&row, &data, Some(9), all_known()), LoadError::UnknownPower);
}

#[test]
fn loading_asks_the_game_tables_of_wow_world_base() {
    let expected_skills: Vec<u16> = wow_world_base::wrath::RaceClass::HumanWarrior
        .starter_skills()
        .iter()
        .map(|s| s.as_int())
        .collect();
    let expected_spells = wow_world_base::wrath::RaceClass::HumanWarrior.starter_spells().to_vec();
    // Zone 0 is the area "None" of the game; a number past every area is no area.
    let row = CharacterRow { bind_zone: 0xffff_fff0, ..human_warrior() };
    let s = loaded_character_state(&row, &[0u8; 32], ids(), Some(1), 7).ok().unwrap();
    assert_eq!(s.area, 12);
    assert_eq!(s.bind_location.zone, DEFAULT_AREA);
    let s = loaded_character_state(&human_warrior(), &[0u8; 32], ids(), Some(1), 7).ok().unwrap();
    assert_eq!(s.bind_location.zone, 0);
    assert_eq!(s.starter_skills, expected_skills);
    assert_eq!(s.starter_skills[0], 26);
    assert_eq!(s.starter_spells, expected_spells);
    assert_eq!(s.starter_spells[0], 78);
}

#[test]
fn loading_refuses_an_unknown_map() {
    let row = CharacterRow { map: 0xffff_fff0, ..human_warrior() };
    assert_eq!(loaded_character_state(&row, &[0u8; 32], ids(), Some(1), 7).err(), Some(LoadError::UnknownMap));
    let row = CharacterRow { bind_map: 0xffff_fff0, ..human_warrior() };
    assert_eq!(loaded_character_state(&row, &[0u8; 32], ids(), Some(1), 7).err(), Some(LoadError::UnknownBindMap));
}

#[test]
fn a_race_and_class_that_do_not_go_together_are_refused() {
    // A human druid passes every check but is no race and class of the game.
    let row = CharacterRow { class: 11, ..human_warrior() };
    assert!(load_character_state(&row, &[0u8; 32], ids(), Some(0), 7).is_none());
    // A failed check comes first.
    let r = load_character_state(&row, &[0u8; 31], ids(), Some(0), 7);
    assert_eq!(r.map(|x| x.err()), Some(Some(LoadError::IncorrectTutorialData)));
    let r = load_character_state(&human_warrior(), &[0u8; 32], ids(), Some(1), 7).unwrap().ok().unwrap();
    assert_eq!(r.unit_bytes_0.1, Class::Warrior);
}
