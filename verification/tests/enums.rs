use world_server::constants::social::RelationType;
use world_server::constants::stand_state::UnitStandState;
use world_server::constants::unit_fields::{ObjectFields, PlayerFields};
use world_server::constants::updates::{ObjectUpdateFlags, ObjectUpdateType};
use world_server::game_enums::{
    CinematicSequenceId, Class, Gender, InventoryType, LogoutResult, LogoutSpeed, Race,
};

#[test]
fn game_enum_numbers_roundtrip() {
    for v in 0..=255u8 {
        if let Ok(t) = InventoryType::from_int(v) {
            assert_eq!(t.as_int(), v);
        }
        if let Ok(r) = Race::from_int(v) {
            assert_eq!(r.as_int(), v);
        }
        if let Ok(c) = Class::from_int(v) {
            assert_eq!(c.as_int(), v);
        }
        if let Ok(g) = Gender::from_int(v) {
            assert_eq!(g.as_int(), v);
        }
        if let Ok(s) = LogoutSpeed::from_int(v) {
            assert_eq!(s.as_int(), v);
        }
    }
    for v in 0..300u32 {
        if let Ok(c) = CinematicSequenceId::from_int(v) {
            assert_eq!(c.as_int(), v);
        }
        if let Ok(r) = LogoutResult::from_int(v) {
            assert_eq!(r.as_int(), v);
        }
    }
}

#[test]
fn known_game_enum_numbers() {
    assert_eq!(InventoryType::Quiver.as_int(), 27);
    assert_eq!(InventoryType::from_int(28).unwrap(), InventoryType::Relic);
    assert_eq!(InventoryType::from_int(29).unwrap_err().value, 29);
    assert_eq!(Race::Human.as_int(), 1);
    assert!(Race::from_int(0).is_err());
    assert_eq!(Class::DeathKnight.as_int(), 6);
    assert_eq!(Gender::NoGender.as_int(), 2);
    assert_eq!(LogoutSpeed::Instant.as_int(), 1);
    assert_eq!(LogoutResult::FailureJumpingOrFalling.as_int(), 3);
}

#[test]
fn protocol_constants() {
    assert_eq!(RelationType::Friend.value(), 1);
    assert_eq!(RelationType::RecruitAFriend.value(), 8);
    assert_eq!(UnitStandState::Stand.value(), 0);
    assert_eq!(UnitStandState::Kneel.value(), 8);
    assert_eq!(ObjectUpdateType::CreateYourself.value(), 3);
    assert_eq!(ObjectUpdateFlags::Living.value(), 0x20);
    assert_eq!(ObjectFields::Entry.index(), 3);
    assert_eq!(PlayerFields::PlayerEnd.index(), 0x94 + 0x049A);
}
