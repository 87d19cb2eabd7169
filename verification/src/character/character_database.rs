//! A character as the realm database stores it, turned into the state the
//! server keeps for a character in play.

use crate::character::character_fields::Power;
use crate::data::location::WorldZoneLocation;
use crate::data::movement_info::{MovementInfo, PositionAndOrientation};
use crate::data::tutorial_flags::{word_of_bytes, TutorialFlags};
use crate::game_enums::{Class, Gender, Race};
use crate::guid::Guid;
use vstd::prelude::*;

verus! {

/// The area a character is placed in when its stored zone names none:
/// Northshire Abbey.
pub const DEFAULT_AREA: u32 = 24;

/// The bit pattern of the 32-bit float 1.0, the scale of a character.
pub const UNIT_SCALE_BITS: u32 = 0x3f80_0000;

/// Whether `value` names a map of the game, as `Map::try_from` of
/// `wow_world_base` decides.
pub uninterp spec fn is_wrath_map(value: u32) -> bool;

/// Whether `value` names an area of the game, as `Area::try_from` of
/// `wow_world_base` decides.
pub uninterp spec fn is_wrath_area(value: u32) -> bool;

/// Whether the race and class numbers name a pair the game allows, as
/// `RaceClass::try_from` of `wow_world_base` decides.
pub uninterp spec fn is_wrath_race_class(race: u8, class: u8) -> bool;

/// The numbers of the skills a new character of this race and class knows,
/// as `RaceClass::starter_skills` of `wow_world_base` lists them.
pub uninterp spec fn wrath_starter_skills(race: u8, class: u8) -> Seq<u16>;

/// The spells a new character of this race and class knows, as
/// `RaceClass::starter_spells` of `wow_world_base` lists them.
pub uninterp spec fn wrath_starter_spells(race: u8, class: u8) -> Seq<u32>;

/// Whether `value` names a map: `wow_world_base::wrath::Map::try_from`
/// succeeds on it. The contract only names the answer.
#[verifier::external_body]
pub(crate) fn wrath_map_exists(value: u32) -> (r: bool)
    ensures
        r == is_wrath_map(value),
{
    wow_world_base::wrath::Map::try_from(value).is_ok()
}

/// Whether `value` names an area: `wow_world_base::wrath::Area::try_from`
/// succeeds on it. The contract only names the answer.
#[verifier::external_body]
pub(crate) fn wrath_area_exists(value: u32) -> (r: bool)
    ensures
        r == is_wrath_area(value),
{
    wow_world_base::wrath::Area::try_from(value).is_ok()
}

/// Whether the race and class numbers make a `RaceClass` of
/// `wow_world_base`: both numbers are read with `TryFrom<u8>` and the pair
/// with `RaceClass::try_from`. The contract only names the answer.
#[verifier::external_body]
fn wrath_race_class_exists(race: u8, class: u8) -> (r: bool)
    ensures
        r == is_wrath_race_class(race, class),
{
    match (wow_world_base::wrath::Race::try_from(race), wow_world_base::wrath::Class::try_from(class)) {
        (Ok(race), Ok(class)) => wow_world_base::wrath::RaceClass::try_from((race, class)).is_ok(),
        _ => false,
    }
}

/// `RaceClass::starter_skills` of `wow_world_base` for the pair, each skill
/// by its number (`Skill::as_int`). The contract only names the list.
#[verifier::external_body]
fn wrath_starter_skills_of(race: u8, class: u8) -> (r: Vec<u16>)
    requires
        is_wrath_race_class(race, class),
    ensures
        r@ == wrath_starter_skills(race, class),
{
    let race = wow_world_base::wrath::Race::try_from(race).unwrap();
    let class = wow_world_base::wrath::Class::try_from(class).unwrap();
    wow_world_base::wrath::RaceClass::try_from((race, class)).unwrap().starter_skills().iter().map(|s| s.as_int()).collect()
}

/// `RaceClass::starter_spells` of `wow_world_base` for the pair. The
/// contract only names the list.
#[verifier::external_body]
fn wrath_starter_spells_of(race: u8, class: u8) -> (r: Vec<u32>)
    requires
        is_wrath_race_class(race, class),
    ensures
        r@ == wrath_starter_spells(race, class),
{
    let race = wow_world_base::wrath::Race::try_from(race).unwrap();
    let class = wow_world_base::wrath::Class::try_from(class).unwrap();
    wow_world_base::wrath::RaceClass::try_from((race, class)).unwrap().starter_spells().to_vec()
}

/// A character's row in the realm database, as far as loading reads it,
/// with the object id of the character it belongs to. Coordinates are
/// carried as the bit patterns of their 32-bit floats.
#[derive(Clone, Debug)]
pub struct CharacterRow {
    pub guid: Guid,
    pub name: String,
    pub race: u8,
    pub class: u8,
    pub gender: u8,
    pub map: u32,
    pub zone: u32,
    pub x_bits: u32,
    pub y_bits: u32,
    pub z_bits: u32,
    pub bind_map: u32,
    pub bind_zone: u32,
    pub bind_x_bits: u32,
    pub bind_y_bits: u32,
    pub bind_z_bits: u32,
    pub playtime_total: u32,
    pub playtime_level: u32,
}

/// The display ids the race table gives a race, by gender.
#[derive(PartialEq, Eq, Structural, Clone, Copy, Debug)]
pub struct RaceDisplayIds {
    pub male_display_id: u32,
    pub female_display_id: u32,
}

/// Why a stored character could not be loaded.
#[derive(PartialEq, Eq, Structural, Clone, Copy, Debug)]
pub enum LoadError {
    /// The map of the bind point names no map.
    UnknownBindMap,
    /// The map the character is on names no map.
    UnknownMap,
    /// The tutorial data does not hold exactly 32 bytes.
    IncorrectTutorialData,
    /// The gender number names no gender.
    UnknownGender,
    /// The race number names no race.
    UnknownRace,
    /// The class number names no class.
    UnknownClass,
    /// The class table has no row for the class.
    NoClassInfo,
    /// The class's display power names no power.
    UnknownPower,
}

/// What the outside lookups said of a row: whether its maps and zones name
/// maps and areas, and the starter skills and spells of its race and
/// class.
pub struct RowLookups {
    pub bind_map_known: bool,
    pub map_known: bool,
    pub bind_zone_known: bool,
    pub zone_known: bool,
    pub starter_skills: Vec<u16>,
    pub starter_spells: Vec<u32>,
}

/// The object type field of a player: the bits of an object, a unit and a
/// player (bits 0, 3 and 4).
pub const PLAYER_OBJECT_TYPE: u32 = 25;

/// The state of a character in play that loading fills in.
pub struct LoadedCharacterState {
    pub guid: Guid,
    pub name: String,
    /// The object fields: the low and high halves of the object id, and the
    /// object type.
    pub object_low_guid: u32,
    pub object_high_guid: u32,
    pub object_type: u32,
    pub bind_location: WorldZoneLocation,
    pub map: u32,
    pub area: u32,
    pub movement_info: MovementInfo,
    pub tutorial_flags: TutorialFlags,
    pub last_playtime_calculation_timestamp: u32,
    pub seconds_played_total: u32,
    pub seconds_played_at_level: u32,
    /// The display id, when the race table has the race.
    pub display_id: Option<u32>,
    pub unit_bytes_0: (Race, Class, Gender, Power),
    pub health: u32,
    pub max_health: u32,
    pub level: u32,
    pub faction_template: u32,
    pub scale_x_bits: u32,
    /// No time played yet: the character logs in for the first time.
    pub needs_first_login: bool,
    pub starter_skills: Vec<u16>,
    pub starter_spells: Vec<u32>,
}

/// The first check that a row fails, in the order loading makes them: the
/// bind map, the map, the tutorial data, the gender, the race, the class,
/// the class table and the class's power.
pub open spec fn row_load_error(
    row: CharacterRow,
    tutorial_data: Seq<u8>,
    class_display_power: Option<u8>,
    bind_map_known: bool,
    map_known: bool,
) -> Option<LoadError> {
    if !bind_map_known {
        Some(LoadError::UnknownBindMap)
    } else if !map_known {
        Some(LoadError::UnknownMap)
    } else if tutorial_data.len() != 32 {
        Some(LoadError::IncorrectTutorialData)
    } else if Gender::spec_from_int(row.gender) is None {
        Some(LoadError::UnknownGender)
    } else if Race::spec_from_int(row.race) is None {
        Some(LoadError::UnknownRace)
    } else if Class::spec_from_int(row.class) is None {
        Some(LoadError::UnknownClass)
    } else if class_display_power is None {
        Some(LoadError::NoClassInfo)
    } else if Power::spec_from_int(class_display_power->0) is None {
        Some(LoadError::UnknownPower)
    } else {
        None
    }
}

/// The area of a stored zone: the zone itself when it names an area, else
/// the default area.
pub open spec fn area_or_default(zone: u32, known: bool) -> u32 {
    if known {
        zone
    } else {
        DEFAULT_AREA
    }
}

/// The display id of a character: the male one for a male, the female one
/// otherwise.
pub open spec fn display_id_for(gender: Gender, ids: RaceDisplayIds) -> u32 {
    match gender {
        Gender::Male => ids.male_display_id,
        _ => ids.female_display_id,
    }
}

/// Whether `s` is the state loading gives a row that passed every check,
/// with `bind_area` and `area` as its areas and the given starter skills
/// and spells.
pub open spec fn loaded_as(
    s: LoadedCharacterState,
    row: CharacterRow,
    tutorial_data: Seq<u8>,
    race_display_ids: Option<RaceDisplayIds>,
    class_display_power: Option<u8>,
    unix_time: u32,
    bind_area: u32,
    area: u32,
    skills: Seq<u16>,
    spells: Seq<u32>,
) -> bool {
    let gender = Gender::spec_from_int(row.gender)->0;
    let race = Race::spec_from_int(row.race)->0;
    let class = Class::spec_from_int(row.class)->0;
    let power = Power::spec_from_int(class_display_power->0)->0;
    &&& s.guid == row.guid
    &&& s.name@ == row.name@
    &&& s.object_low_guid as u64 == row.guid.0 & 0xFFFF_FFFF
    &&& s.object_high_guid as u64 == row.guid.0 >> 32u64
    &&& s.object_type == PLAYER_OBJECT_TYPE
    &&& s.bind_location == WorldZoneLocation {
        x_bits: row.bind_x_bits,
        y_bits: row.bind_y_bits,
        z_bits: row.bind_z_bits,
        o_bits: 0,
        zone: bind_area,
        map: row.bind_map,
    }
    &&& s.map == row.map
    &&& s.area == area
    &&& s.movement_info == MovementInfo {
        movement_flags: 0,
        movement_flags2: 0,
        time: 0,
        position: PositionAndOrientation {
            x_bits: row.x_bits,
            y_bits: row.y_bits,
            z_bits: row.z_bits,
            o_bits: 0,
        },
        falltime: 0,
    }
    &&& forall|i: int| 0 <= i < 8 ==> s.tutorial_flags.flag_data@[i] == word_of_bytes(tutorial_data, i)
    &&& s.last_playtime_calculation_timestamp == unix_time
    &&& s.seconds_played_total == row.playtime_total
    &&& s.seconds_played_at_level == row.playtime_level
    &&& s.display_id == match race_display_ids {
        Some(ids) => Some(display_id_for(gender, ids)),
        None => None,
    }
    &&& s.unit_bytes_0 == (race, class, gender, power)
    &&& s.health == 100
    &&& s.max_health == 100
    &&& s.level == 1
    &&& s.faction_template == 1
    &&& s.scale_x_bits == UNIT_SCALE_BITS
    &&& s.needs_first_login == (row.playtime_total == 0)
    &&& s.starter_skills@ == skills
    &&& s.starter_spells@ == spells
}

/// A loaded character stands where its row says, facing north: its
/// position holds the row's x, y and z, each in its own coordinate, and
/// its bind point holds the row's bind coordinates on the row's bind map.
/// It carries the row's object id and name, and its object fields hold the
/// two halves of that id and the player's object type.
pub proof fn lemma_loaded_character_stands_where_stored(
    s: LoadedCharacterState,
    row: CharacterRow,
    tutorial_data: Seq<u8>,
    race_display_ids: Option<RaceDisplayIds>,
    class_display_power: Option<u8>,
    unix_time: u32,
    bind_area: u32,
    area: u32,
    skills: Seq<u16>,
    spells: Seq<u32>,
)
    requires
        loaded_as(
            s,
            row,
            tutorial_data,
            race_display_ids,
            class_display_power,
            unix_time,
            bind_area,
            area,
            skills,
            spells,
        ),
        row_load_error(row, tutorial_data, class_display_power, true, true) is None,
    ensures
        s.movement_info.position.x_bits == row.x_bits,
        s.movement_info.position.y_bits == row.y_bits,
        s.movement_info.position.z_bits == row.z_bits,
        s.movement_info.position.o_bits == 0,
        s.movement_info.movement_flags == 0,
        s.bind_location.x_bits == row.bind_x_bits,
        s.bind_location.y_bits == row.bind_y_bits,
        s.bind_location.z_bits == row.bind_z_bits,
        s.bind_location.map == row.bind_map,
        s.map == row.map,
        s.guid == row.guid,
        s.name@ == row.name@,
        s.object_low_guid as u64 == row.guid.0 % 0x1_0000_0000,
        s.object_high_guid as u64 == row.guid.0 / 0x1_0000_0000,
        s.object_type == 25,
        s.seconds_played_total == row.playtime_total,
        s.seconds_played_at_level == row.playtime_level,
        s.needs_first_login <==> row.playtime_total == 0,
        s.last_playtime_calculation_timestamp == unix_time,
        s.area == area,
        s.bind_location.zone == bind_area,
        Race::spec_from_int(row.race) == Some(s.unit_bytes_0.0),
        Class::spec_from_int(row.class) == Some(s.unit_bytes_0.1),
        Gender::spec_from_int(row.gender) == Some(s.unit_bytes_0.2),
        class_display_power matches Some(p) && Power::spec_from_int(p) == Some(s.unit_bytes_0.3),
        race_display_ids is Some && row.gender == 0 ==> s.display_id == Some(
            race_display_ids->0.male_display_id,
        ),
        race_display_ids is Some && row.gender != 0 ==> s.display_id == Some(
            race_display_ids->0.female_display_id,
        ),
        race_display_ids is None ==> s.display_id is None,
        s.health == 100 && s.max_health == 100 && s.level == 1 && s.faction_template == 1,
        s.starter_skills@ == skills && s.starter_spells@ == spells,
{
    let g = row.guid.0;
    assert(g & 0xFFFF_FFFF == g % 0x1_0000_0000) by (bit_vector);
    assert(g >> 32u64 == g / 0x1_0000_0000) by (bit_vector);
}

/// Turns a stored row into the state of a character in play, given what
/// the outside lookups said of it (`lookups`), the race's display ids and
/// the class's display power from the game tables (`None` where a table
/// has no row) and the current time. Fails with the first check the row
/// fails, as `row_load_error` orders them.
pub fn character_state_from_lookups(
    row: &CharacterRow,
    tutorial_data: &[u8],
    race_display_ids: Option<RaceDisplayIds>,
    class_display_power: Option<u8>,
    unix_time: u32,
    lookups: RowLookups,
) -> (r: Result<LoadedCharacterState, LoadError>)
    ensures
        r is Err <==> row_load_error(
            *row,
            tutorial_data@,
            class_display_power,
            lookups.bind_map_known,
            lookups.map_known,
        ) is Some,
        r matches Err(e) ==> row_load_error(
            *row,
            tutorial_data@,
            class_display_power,
            lookups.bind_map_known,
            lookups.map_known,
        ) == Some(e),
        r matches Ok(s) ==> loaded_as(
            s,
            *row,
            tutorial_data@,
            race_display_ids,
            class_display_power,
            unix_time,
            area_or_default(row.bind_zone, lookups.bind_zone_known),
            area_or_default(row.zone, lookups.zone_known),
            lookups.starter_skills@,
            lookups.starter_spells@,
        ),
{
    let bind_area = if lookups.bind_zone_known {
        row.bind_zone
    } else {
        DEFAULT_AREA
    };
    if !lookups.bind_map_known {
        return Err(LoadError::UnknownBindMap);
    }
    let bind_location = WorldZoneLocation {
        x_bits: row.bind_x_bits,
        y_bits: row.bind_y_bits,
        z_bits: row.bind_z_bits,
        o_bits: 0,
        zone: bind_area,
        map: row.bind_map,
    };
    if !lookups.map_known {
        return Err(LoadError::UnknownMap);
    }
    let area = if lookups.zone_known {
        row.zone
    } else {
        DEFAULT_AREA
    };
    let movement_info = MovementInfo {
        movement_flags: 0,
        movement_flags2: 0,
        time: 0,
        position: PositionAndOrientation {
            x_bits: row.x_bits,
            y_bits: row.y_bits,
            z_bits: row.z_bits,
            o_bits: 0,
        },
        falltime: 0,
    };
    let tutorial_flags = match TutorialFlags::from_database_entry(tutorial_data) {
        Ok(flags) => flags,
        Err(_) => {
            return Err(LoadError::IncorrectTutorialData);
        },
    };
    let gender = match Gender::from_int(row.gender) {
        Ok(g) => g,
        Err(_) => {
            return Err(LoadError::UnknownGender);
        },
    };
    let race = match Race::from_int(row.race) {
        Ok(v) => v,
        Err(_) => {
            return Err(LoadError::UnknownRace);
        },
    };
    let class = match Class::from_int(row.class) {
        Ok(v) => v,
        Err(_) => {
            return Err(LoadError::UnknownClass);
        },
    };
    let display_id = match race_display_ids {
        Some(ids) => Some(
            match gender {
                Gender::Male => ids.male_display_id,
                _ => ids.female_display_id,
            },
        ),
        None => None,
    };
    let display_power = match class_display_power {
        Some(p) => p,
        None => {
            return Err(LoadError::NoClassInfo);
        },
    };
    let power = match Power::from_int(display_power) {
        Ok(p) => p,
        Err(_) => {
            return Err(LoadError::UnknownPower);
        },
    };
    Ok(
        LoadedCharacterState {
            guid: row.guid,
            name: row.name.clone(),
            object_low_guid: row.guid.get_low_part(),
            object_high_guid: row.guid.get_high_part(),
            object_type: PLAYER_OBJECT_TYPE,
            bind_location,
            map: row.map,
            area,
            movement_info,
            tutorial_flags,
            last_playtime_calculation_timestamp: unix_time,
            seconds_played_total: row.playtime_total,
            seconds_played_at_level: row.playtime_level,
            display_id,
            unit_bytes_0: (race, class, gender, power),
            health: 100,
            max_health: 100,
            level: 1,
            faction_template: 1,
            scale_x_bits: UNIT_SCALE_BITS,
            needs_first_login: row.playtime_total == 0,
            starter_skills: lookups.starter_skills,
            starter_spells: lookups.starter_spells,
        },
    )
}

/// Whether loading the row gets as far as the starter skills and spells:
/// every check passes.
pub open spec fn row_passes_checks(
    row: CharacterRow,
    tutorial_data: Seq<u8>,
    class_display_power: Option<u8>,
) -> bool {
    row_load_error(
        row,
        tutorial_data,
        class_display_power,
        is_wrath_map(row.bind_map),
        is_wrath_map(row.map),
    ) is None
}

/// Loads a stored character: asks `wow_world_base` whether its maps and
/// zones are known and for the starter skills and spells of its race and
/// class, then builds its state as `character_state_from_lookups` does. A
/// row that passes every check must name a race and class that go
/// together.
pub fn loaded_character_state(
    row: &CharacterRow,
    tutorial_data: &[u8],
    race_display_ids: Option<RaceDisplayIds>,
    class_display_power: Option<u8>,
    unix_time: u32,
) -> (r: Result<LoadedCharacterState, LoadError>)
    requires
        row_passes_checks(*row, tutorial_data@, class_display_power) ==> is_wrath_race_class(
            row.race,
            row.class,
        ),
    ensures
        r is Err <==> !row_passes_checks(*row, tutorial_data@, class_display_power),
        r matches Err(e) ==> row_load_error(
            *row,
            tutorial_data@,
            class_display_power,
            is_wrath_map(row.bind_map),
            is_wrath_map(row.map),
        ) == Some(e),
        r matches Ok(s) ==> loaded_as(
            s,
            *row,
            tutorial_data@,
            race_display_ids,
            class_display_power,
            unix_time,
            area_or_default(row.bind_zone, is_wrath_area(row.bind_zone)),
            area_or_default(row.zone, is_wrath_area(row.zone)),
            wrath_starter_skills(row.race, row.class),
            wrath_starter_spells(row.race, row.class),
        ),
{
    let pair_known = wrath_race_class_exists(row.race, row.class);
    let (starter_skills, starter_spells) = if pair_known {
        (wrath_starter_skills_of(row.race, row.class), wrath_starter_spells_of(row.race, row.class))
    } else {
        (Vec::new(), Vec::new())
    };
    let lookups = RowLookups {
        bind_map_known: wrath_map_exists(row.bind_map),
        map_known: wrath_map_exists(row.map),
        bind_zone_known: wrath_area_exists(row.bind_zone),
        zone_known: wrath_area_exists(row.zone),
        starter_skills,
        starter_spells,
    };
    character_state_from_lookups(
        row,
        tutorial_data,
        race_display_ids,
        class_display_power,
        unix_time,
        lookups,
    )
}

/// Loads a stored character as `loaded_character_state` does, and gives
/// `None` where that is refused: the row passes every check but its race
/// and class do not go together.
pub fn load_character_state(
    row: &CharacterRow,
    tutorial_data: &[u8],
    race_display_ids: Option<RaceDisplayIds>,
    class_display_power: Option<u8>,
    unix_time: u32,
) -> (r: Option<Result<LoadedCharacterState, LoadError>>)
    ensures
        r is None <==> row_passes_checks(*row, tutorial_data@, class_display_power)
            && !is_wrath_race_class(row.race, row.class),
        r matches Some(Err(e)) ==> row_load_error(
            *row,
            tutorial_data@,
            class_display_power,
            is_wrath_map(row.bind_map),
            is_wrath_map(row.map),
        ) == Some(e),
        r matches Some(Ok(s)) ==> loaded_as(
            s,
            *row,
            tutorial_data@,
            race_display_ids,
            class_display_power,
            unix_time,
            area_or_default(row.bind_zone, is_wrath_area(row.bind_zone)),
            area_or_default(row.zone, is_wrath_area(row.zone)),
            wrath_starter_skills(row.race, row.class),
            wrath_starter_spells(row.race, row.class),
        ),
{
    let checks_pass = wrath_map_exists(row.bind_map) && wrath_map_exists(row.map) && tutorial_data.len()
        == 32 && Gender::from_int(row.gender).is_ok() && Race::from_int(row.race).is_ok()
        && Class::from_int(row.class).is_ok() && match class_display_power {
        Some(p) => Power::from_int(p).is_ok(),
        None => false,
    };
    if checks_pass && !wrath_race_class_exists(row.race, row.class) {
        return None;
    }
    Some(loaded_character_state(row, tutorial_data, race_display_ids, class_display_power, unix_time))
}

} // verus!
