use world_server::character::character_cinematic::{CharacterCinematicState, CinematicError, WatchingCinematicStateData};
use world_server::character::character_fields::{set_action_bar_button, CharacterFields, PlayedTime, Power};
use world_server::character::character_first_login::{perform_first_login, try_perform_first_time_login_if_required};
use world_server::character::character_rested::{RestedLocation, RestedState};
use world_server::constants::cinematic::get_opening_cinematic_for_race_class;
use world_server::constants::stand_state::UnitStandState;
use world_server::constants::unit_flags::{UnitFlagIndex, UnitFlags};
use world_server::data::action_bar::{ActionBar, ActionButton};
use world_server::game_enums::{CinematicSequenceId, Class, Gender, Race};
use world_server::guid::Guid;
use world_server::handlers::social_handler::handle_cmsg_set_selection;

#[test]
fn opening_cinematic_by_race_and_class() {
    assert_eq!(get_opening_cinematic_for_race_class(&Race::Orc, &Class::Warrior), Some(CinematicSequenceId::Orc));
    assert_eq!(get_opening_cinematic_for_race_class(&Race::Orc, &Class::DeathKnight), Some(CinematicSequenceId::DeathKnight));
    assert_eq!(get_opening_cinematic_for_race_class(&Race::Goblin, &Class::Warrior), None);
}

#[test]
fn cinematic_is_queued_watched_and_ended() {
    let mut state = CharacterCinematicState::NoCinematic;
    assert!(!state.is_watching_cinematic());
    assert_eq!(state.handle_cinematic_next_camera(), Err(CinematicError::NothingQueued));
    assert_eq!(state.start_cinematic(CinematicSequenceId::Human), Ok(()));
    assert!(state.is_watching_cinematic());
    assert_eq!(state.start_cinematic(CinematicSequenceId::Orc), Err(CinematicError::AlreadyWatching));
    assert_eq!(state.handle_cinematic_ended(), Err(CinematicError::NothingPlaying));
    assert_eq!(state.handle_cinematic_next_camera(), Ok(()));
    assert_eq!(
        state,
        CharacterCinematicState::Watching(WatchingCinematicStateData {
            cinematic_id: CinematicSequenceId::Human,
            cinematic_spline_index: 0
        })
    );
    assert_eq!(state.handle_cinematic_next_camera(), Ok(()));
    assert_eq!(
        state,
        CharacterCinematicState::Watching(WatchingCinematicStateData {
            cinematic_id: CinematicSequenceId::Human,
            cinematic_spline_index: 1
        })
    );
    assert_eq!(state.handle_cinematic_ended(), Ok(()));
    assert_eq!(state, CharacterCinematicState::NoCinematic);
}

#[test]
fn first_login_plays_the_opening_cinematic_once() {
    let mut needs = true;
    let mut cinematic = CharacterCinematicState::NoCinematic;
    let r = try_perform_first_time_login_if_required(&mut needs, Race::Dwarf, Class::Warrior, &mut cinematic);
    assert_eq!(r, Ok(Some(CinematicSequenceId::Dwarf)));
    assert!(!needs);
    assert_eq!(cinematic, CharacterCinematicState::Queued(CinematicSequenceId::Dwarf));
    let again = try_perform_first_time_login_if_required(&mut needs, Race::Dwarf, Class::Warrior, &mut cinematic);
    assert_eq!(again, Ok(None));
}

#[test]
fn first_login_waits_while_a_cinematic_plays() {
    let mut needs = true;
    let mut cinematic = CharacterCinematicState::Queued(CinematicSequenceId::Human);
    let r = try_perform_first_time_login_if_required(&mut needs, Race::Human, Class::Mage, &mut cinematic);
    assert_eq!(r, Err(CinematicError::AlreadyWatching));
    assert!(needs);
    let mut none = CharacterCinematicState::NoCinematic;
    assert_eq!(perform_first_login(Race::Goblin, Class::Rogue, &mut none), Ok(None));
    assert_eq!(none, CharacterCinematicState::NoCinematic);
}

#[test]
fn resting_in_an_inn() {
    let mut rested = RestedState::NotRested;
    assert!(!rested.is_in_rested_area());
    rested.handle_enter_inn();
    assert_eq!(rested, RestedState::Rested(RestedLocation::Inn));
    assert!(rested.is_in_rested_area());
    let mut city = RestedState::Rested(RestedLocation::City);
    city.handle_enter_inn();
    assert_eq!(city, RestedState::Rested(RestedLocation::City));
}

#[test]
fn selection_of_a_zero_target_is_none() {
    let mut fields = CharacterFields::new();
    assert_eq!(fields.get_selection(), None);
    handle_cmsg_set_selection(&mut fields, Guid(33));
    assert_eq!(fields.get_selection(), Some(Guid(33)));
    assert_eq!(fields.unit_target, Some(Guid(33)));
    handle_cmsg_set_selection(&mut fields, Guid(0));
    assert_eq!(fields.get_selection(), None);
    assert_eq!(fields.unit_target, Some(Guid(0)));
    fields.set_selection(None);
    assert_eq!(fields.unit_target, Some(Guid(0)));
}

#[test]
fn unit_flags_are_set_and_cleared_one_by_one() {
    let mut fields = CharacterFields::new();
    fields.set_stunned(true);
    assert_eq!(fields.unit_flags, Some(UnitFlags::Stunned.value() as i32));
    fields.set_unit_flag_byte(UnitFlagIndex::Pvp, true);
    assert_eq!(fields.unit_flags, Some((UnitFlags::Stunned.value() | UnitFlags::Pvp.value()) as i32));
    fields.set_stunned(false);
    assert_eq!(fields.unit_flags, Some(UnitFlags::Pvp.value() as i32));
    fields.unit_flags = Some(-1);
    fields.set_unit_flag_byte(UnitFlagIndex::Unk0, false);
    assert_eq!(fields.unit_flags, Some(-2));
}

#[test]
fn stand_state_and_action_bar_mask_keep_the_other_bytes() {
    let mut fields = CharacterFields::new();
    fields.set_stand_state(UnitStandState::Sit);
    assert_eq!(fields.unit_bytes_1, Some((UnitStandState::Sit, 0, 0, 0)));
    fields.unit_bytes_1 = Some((UnitStandState::Sit, 1, 2, 3));
    fields.set_stand_state(UnitStandState::Stand);
    assert_eq!(fields.unit_bytes_1, Some((UnitStandState::Stand, 1, 2, 3)));
    fields.set_visible_actionbar_mask(15);
    assert_eq!(fields.player_features, Some((0, 0, 15, 0)));
    fields.player_features = Some((4, 5, 6, 7));
    fields.set_visible_actionbar_mask(0);
    assert_eq!(fields.player_features, Some((4, 5, 0, 7)));
}

#[test]
fn race_class_gender_and_power_default_when_unset() {
    let mut fields = CharacterFields::new();
    assert_eq!(fields.get_race(), Race::Human);
    assert_eq!(fields.get_class(), Class::Warrior);
    assert_eq!(fields.get_gender(), Gender::Male);
    assert_eq!(fields.get_power_type(), Power::Mana);
    fields.set_unit_bytes_0(Race::Troll, Class::DeathKnight, Gender::Female, Power::RunicPower);
    assert_eq!(fields.get_race(), Race::Troll);
    assert_eq!(fields.get_class(), Class::DeathKnight);
    assert_eq!(fields.get_gender(), Gender::Female);
    assert_eq!(fields.get_power_type(), Power::RunicPower);
}

#[test]
fn action_bar_buttons() {
    let mut bar = ActionBar::new();
    assert!(bar.data.iter().all(|b| *b == ActionButton::default()));
    let button = ActionButton { action: 133, action_type: 0, misc: 0 };
    set_action_bar_button(&mut bar, 143, button);
    assert_eq!(bar.data[143], button);
    assert_eq!(bar.data[0], ActionButton::default());
}

#[test]
fn played_time_counts_each_second_once() {
    let mut p = PlayedTime { seconds_played_total: 100, seconds_played_at_level: 10, last_playtime_calculation_timestamp: 1000 };
    assert_eq!(p.update(1030), (130, 40));
    assert_eq!(p.update(1100), (200, 110));
    assert_eq!(p.last_playtime_calculation_timestamp, 1100);
    let mut q = PlayedTime { seconds_played_total: 100, seconds_played_at_level: 10, last_playtime_calculation_timestamp: 1000 };
    q.update(1100);
    assert_eq!(p, q);
    assert_eq!(q.update(1100), (200, 110));
}
