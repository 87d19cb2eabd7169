use world_server::character::character_rested::{RestedLocation, RestedState};
use world_server::data::area_triggers::{AreaTrigger, AreaTriggerPurpose, AreaTriggerShape, AreaTriggers};
use world_server::data::location::WorldZoneLocation;
use world_server::data::movement_info::PositionAndOrientation;
use world_server::handlers::movement_handler::{
    handle_area_trigger, TeleportAction, TeleportationDistance, TeleportationState,
};

fn place(map: u32) -> WorldZoneLocation {
    WorldZoneLocation { x_bits: 1, y_bits: 2, z_bits: 3, o_bits: 4, zone: 12, map }
}

fn spot() -> PositionAndOrientation {
    PositionAndOrientation { x_bits: 10, y_bits: 20, z_bits: 30, o_bits: 40 }
}

#[test]
fn near_teleport_waits_for_the_acknowledgement() {
    let mut state = TeleportationState::Idle;
    assert!(state.accepts_movement());
    state.teleport_to(TeleportationDistance::Near(spot()));
    assert!(!state.accepts_movement());
    assert_eq!(state.handle_queued_teleport(0), TeleportAction::SendNearTeleport(spot()));
    assert_eq!(state, TeleportationState::Executing(TeleportationDistance::Near(spot())));
    assert_eq!(state.handle_queued_teleport(0), TeleportAction::Nothing);
    assert_eq!(state.handle_teleport_ack(), Some(spot()));
    assert_eq!(state, TeleportationState::Idle);
    assert_eq!(state.handle_teleport_ack(), None);
}

#[test]
fn far_teleport_to_the_same_map_becomes_near() {
    let mut state = TeleportationState::Idle;
    state.teleport_to(TeleportationDistance::Far(place(1)));
    assert_eq!(state.handle_queued_teleport(1), TeleportAction::Nothing);
    let position = PositionAndOrientation::from(place(1));
    assert_eq!(position, PositionAndOrientation { x_bits: 1, y_bits: 2, z_bits: 3, o_bits: 4 });
    assert_eq!(state, TeleportationState::Queued(TeleportationDistance::Near(position)));
}

#[test]
fn far_teleport_to_another_map_is_handed_over() {
    let mut state = TeleportationState::Idle;
    state.teleport_to(TeleportationDistance::Far(place(530)));
    assert_eq!(state.handle_queued_teleport(0), TeleportAction::StartFarTeleport(place(530)));
    assert_eq!(state.far_teleport_destination(), None);
    state.set_executing(TeleportationDistance::Far(place(530)));
    assert_eq!(state.far_teleport_destination(), Some(place(530)));
    // A near acknowledgement does not end a far teleport.
    assert_eq!(state.handle_teleport_ack(), None);
    state.finish();
    assert_eq!(state, TeleportationState::Idle);
}

#[test]
fn area_triggers_teleport_or_make_rest() {
    let mut teleport = TeleportationState::Idle;
    let mut rested = RestedState::NotRested;
    handle_area_trigger(&AreaTriggerPurpose::Unknown, &mut teleport, &mut rested);
    assert_eq!(teleport, TeleportationState::Idle);
    assert_eq!(rested, RestedState::NotRested);
    handle_area_trigger(&AreaTriggerPurpose::RestedArea, &mut teleport, &mut rested);
    assert_eq!(rested, RestedState::Rested(RestedLocation::Inn));
    handle_area_trigger(&AreaTriggerPurpose::Teleport(place(0)), &mut teleport, &mut rested);
    assert_eq!(teleport, TeleportationState::Queued(TeleportationDistance::Far(place(0))));
}

#[test]
fn area_triggers_are_found_by_id() {
    let mut triggers = AreaTriggers::new();
    let t = AreaTrigger {
        id: 45,
        map_id: 0,
        x_bits: 0,
        y_bits: 0,
        z_bits: 0,
        shape: AreaTriggerShape::Sphere(5.0f32.to_bits()),
        purpose: AreaTriggerPurpose::RestedArea,
    };
    triggers.insert(t);
    assert_eq!(triggers.get_area_trigger(45), Some(&t));
    assert_eq!(triggers.get_area_trigger(46), None);
    let moved = AreaTrigger { purpose: AreaTriggerPurpose::Unknown, ..t };
    triggers.insert(moved);
    assert_eq!(triggers.get_area_trigger(45), Some(&moved));
}
