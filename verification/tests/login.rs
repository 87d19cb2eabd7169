use world_server::data::movement_info::{MovementInfo, PositionAndOrientation};
use world_server::game_enums::{LogoutResult, LogoutSpeed};
use world_server::handlers::login_handler::{
    addon_info_would_panic, parse_addon_info, AddonInfoError, LogoutEffect, LogoutError, LogoutState, LogoutTick,
    BLIZZARD_ADDON_CRC, LOGOUT_DELAY_NANOS,
};

fn standing() -> MovementInfo {
    MovementInfo {
        movement_flags: 0,
        movement_flags2: 0,
        time: 0,
        position: PositionAndOrientation::default(),
        falltime: 0,
    }
}

fn falling() -> MovementInfo {
    MovementInfo { movement_flags: 0x0000_2000, ..standing() }
}

fn falling_slowly() -> MovementInfo {
    MovementInfo { movement_flags: 0x2000_0000, ..standing() }
}

fn jumping() -> MovementInfo {
    MovementInfo { movement_flags: 0x0000_1000, ..standing() }
}

fn addon_bytes() -> Vec<u8> {
    let mut b = vec![2, 0, 0, 0];
    b.extend_from_slice(b"A\0");
    b.push(1);
    b.extend_from_slice(&BLIZZARD_ADDON_CRC.to_le_bytes());
    b.extend_from_slice(&0u32.to_le_bytes());
    b.extend_from_slice(b"Bc\0");
    b.push(0);
    b.extend_from_slice(&5u32.to_le_bytes());
    b.extend_from_slice(&7u32.to_le_bytes());
    b
}

#[test]
fn addon_list_is_read_entry_by_entry() {
    let bytes = addon_bytes();
    assert!(!addon_info_would_panic(&bytes));
    let addons = parse_addon_info(&bytes).unwrap();
    assert_eq!(addons.len(), 2);
    assert_eq!(addons[0].name, "A");
    assert!(addons[0].has_signature);
    assert_eq!(addons[0].crc, BLIZZARD_ADDON_CRC);
    assert!(!addons[0].info.uses_diffent_public_key);
    assert_eq!(addons[0].info.addon_type, 2);
    assert_eq!(addons[0].info.uses_crc, 1);
    assert_eq!(addons[1].name, "Bc");
    assert!(!addons[1].has_signature);
    assert_eq!(addons[1].crc, 5);
    assert_eq!(addons[1].extra_crc, 7);
    assert!(addons[1].info.uses_diffent_public_key);
}

#[test]
fn empty_addon_list() {
    let addons = parse_addon_info(&[0, 0, 0, 0]).unwrap();
    assert!(addons.is_empty());
}

#[test]
fn addon_list_without_count_is_cut_short() {
    assert_eq!(parse_addon_info(&[1, 0]).err(), Some(AddonInfoError::UnexpectedEnd));
}

#[test]
fn addon_entry_missing_checksums_is_cut_short() {
    let mut b = vec![1, 0, 0, 0];
    b.extend_from_slice(b"A\0");
    b.push(1);
    assert_eq!(parse_addon_info(&b).err(), Some(AddonInfoError::UnexpectedEnd));
}

#[test]
fn addon_name_must_be_utf8() {
    let mut b = vec![1, 0, 0, 0];
    b.extend_from_slice(&[0xFF, 0xFE, 0]);
    b.extend_from_slice(&[0u8; 9]);
    assert_eq!(parse_addon_info(&b).err(), Some(AddonInfoError::InvalidUtf8));
}

#[test]
fn addon_count_past_the_end_would_panic() {
    assert!(addon_info_would_panic(&[1, 0, 0, 0]));
}

#[test]
fn falling_character_cannot_log_out() {
    let mut state = LogoutState::Idle;
    let r = state.try_logout(&falling(), false);
    assert_eq!(r, (LogoutResult::FailureJumpingOrFalling, LogoutSpeed::Delayed, None));
    assert_eq!(state, LogoutState::Idle);
}

#[test]
fn slowly_falling_character_cannot_log_out() {
    let mut state = LogoutState::Idle;
    let r = state.try_logout(&falling_slowly(), true);
    assert_eq!(r, (LogoutResult::FailureJumpingOrFalling, LogoutSpeed::Delayed, None));
    assert_eq!(state, LogoutState::Idle);
}

#[test]
fn the_second_flags_field_holds_no_falling_flag() {
    let mut state = LogoutState::Idle;
    let info = MovementInfo { movement_flags2: 0x2000, ..standing() };
    let r = state.try_logout(&info, true);
    assert_eq!(r, (LogoutResult::Success, LogoutSpeed::Instant, None));
    assert_eq!(state, LogoutState::Executing);
}

#[test]
fn a_plain_jump_does_not_stop_a_logout() {
    let mut state = LogoutState::Idle;
    let r = state.try_logout(&jumping(), false);
    assert_eq!(r, (LogoutResult::Success, LogoutSpeed::Delayed, Some(LogoutEffect::FreezeAndSit)));
    assert_eq!(state, LogoutState::Pending(LOGOUT_DELAY_NANOS));
}

#[test]
fn logout_outside_rest_waits_twenty_seconds() {
    let mut state = LogoutState::Idle;
    let r = state.try_logout(&standing(), false);
    assert_eq!(r, (LogoutResult::Success, LogoutSpeed::Delayed, Some(LogoutEffect::FreezeAndSit)));
    assert_eq!(state, LogoutState::Pending(LOGOUT_DELAY_NANOS));
    assert_eq!(LOGOUT_DELAY_NANOS, 20_000_000_000);

    assert_eq!(state.tick_logout_state(15_000_000_000, false), LogoutTick::Nothing);
    assert_eq!(state, LogoutState::Pending(5_000_000_000));
    assert_eq!(state.tick_logout_state(5_000_000_000, false), LogoutTick::Nothing);
    assert_eq!(state, LogoutState::Executing);
    assert_eq!(state.tick_logout_state(1, true), LogoutTick::Nothing);
    assert_eq!(state.tick_logout_state(1, false), LogoutTick::ExecuteLogout);
    state.finish_logout();
    assert_eq!(state, LogoutState::ReturnToCharSelect);
}

#[test]
fn logout_ticks_add_up() {
    let mut split = LogoutState::Pending(LOGOUT_DELAY_NANOS);
    split.tick_logout_state(7_000_000_000, false);
    split.tick_logout_state(13_000_000_000, false);
    let mut whole = LogoutState::Pending(LOGOUT_DELAY_NANOS);
    whole.tick_logout_state(20_000_000_000, false);
    assert_eq!(split, whole);
    assert_eq!(whole, LogoutState::Executing);
}

#[test]
fn logout_in_rested_area_is_instant() {
    let mut state = LogoutState::Idle;
    let r = state.try_logout(&standing(), true);
    assert_eq!(r, (LogoutResult::Success, LogoutSpeed::Instant, None));
    assert_eq!(state, LogoutState::Executing);
}

#[test]
fn repeated_logout_request_is_answered_instant() {
    let mut state = LogoutState::Pending(3);
    let r = state.try_logout(&standing(), false);
    assert_eq!(r, (LogoutResult::Success, LogoutSpeed::Instant, None));
    assert_eq!(state, LogoutState::Pending(3));
}

#[test]
fn cancel_only_a_waiting_logout() {
    let mut state = LogoutState::Pending(10);
    assert_eq!(state.cancel_logout(), Ok(LogoutEffect::UnfreezeAndStand));
    assert_eq!(state, LogoutState::Idle);
    assert_eq!(state.cancel_logout(), Err(LogoutError::NoLogoutInProgress));
    let mut executing = LogoutState::Executing;
    assert_eq!(executing.cancel_logout(), Err(LogoutError::NoLogoutInProgress));
    assert_eq!(executing, LogoutState::Executing);
}
