//! Teleports: a destination is queued, carried out at the character's next
//! tick, and finished when the client acknowledges it.

use crate::character::character_rested::RestedState;
use crate::data::area_triggers::AreaTriggerPurpose;
use crate::data::location::WorldZoneLocation;
use crate::data::movement_info::PositionAndOrientation;
use vstd::prelude::*;

verus! {

/// Where a teleport goes: a position on the same map, or a place on
/// another map.
#[derive(PartialEq, Eq, Structural, Clone, Copy, Debug)]
pub enum TeleportationDistance {
    Near(PositionAndOrientation),
    Far(WorldZoneLocation),
}

/// Where a character is with teleporting.
#[derive(PartialEq, Eq, Structural, Clone, Copy, Debug)]
pub enum TeleportationState {
    /// Not teleporting.
    Idle,
    /// A teleport waits for the character's next tick.
    Queued(TeleportationDistance),
    /// A teleport was sent to the client, which has not acknowledged it.
    Executing(TeleportationDistance),
}

/// What the caller does for a queued teleport.
#[derive(PartialEq, Eq, Structural, Clone, Copy, Debug)]
pub enum TeleportAction {
    /// Nothing to do now.
    Nothing,
    /// Tell the client to move to this position on its map.
    SendNearTeleport(PositionAndOrientation),
    /// Tell the client a transfer is pending, take the character off its
    /// map and send the new world; then call `set_executing` with the same
    /// destination.
    StartFarTeleport(WorldZoneLocation),
}

impl TeleportationState {
    /// Whether movement reports are taken: not while teleporting.
    pub fn accepts_movement(&self) -> (r: bool)
        ensures
            r == (*self == TeleportationState::Idle),
    {
        match self {
            TeleportationState::Idle => true,
            _ => false,
        }
    }

    /// Queues a teleport, replacing anything under way.
    pub fn teleport_to(&mut self, destination: TeleportationDistance)
        ensures
            *final(self) == TeleportationState::Queued(destination),
    {
        *self = TeleportationState::Queued(destination);
    }

    /// Carries out a queued teleport of a character on map `current_map`. A
    /// near teleport is sent to the client and waits for its
    /// acknowledgement. A far teleport to the map the character is on is
    /// queued again as a near one; to another map it is handed to the
    /// caller.
    pub fn handle_queued_teleport(&mut self, current_map: u32) -> (r: TeleportAction)
        ensures
            match *old(self) {
                TeleportationState::Queued(TeleportationDistance::Near(dest)) => r
                    == TeleportAction::SendNearTeleport(dest) && *final(self)
                    == TeleportationState::Executing(TeleportationDistance::Near(dest)),
                TeleportationState::Queued(TeleportationDistance::Far(dest)) => if current_map
                    == dest.map {
                    r == TeleportAction::Nothing && *final(self) == TeleportationState::Queued(
                        TeleportationDistance::Near(dest.position()),
                    )
                } else {
                    r == TeleportAction::StartFarTeleport(dest) && *final(self) == *old(self)
                },
                _ => r == TeleportAction::Nothing && *final(self) == *old(self),
            },
    {
        match *self {
            TeleportationState::Queued(TeleportationDistance::Near(dest)) => {
                *self = TeleportationState::Executing(TeleportationDistance::Near(dest));
                TeleportAction::SendNearTeleport(dest)
            },
            TeleportationState::Queued(TeleportationDistance::Far(dest)) => {
                if current_map == dest.map {
                    self.teleport_to(TeleportationDistance::Near(PositionAndOrientation::from(dest)));
                    TeleportAction::Nothing
                } else {
                    TeleportAction::StartFarTeleport(dest)
                }
            },
            _ => TeleportAction::Nothing,
        }
    }

    /// The teleport was sent to the client.
    pub fn set_executing(&mut self, destination: TeleportationDistance)
        ensures
            *final(self) == TeleportationState::Executing(destination),
    {
        *self = TeleportationState::Executing(destination);
    }

    /// The client acknowledged a near teleport: if one was under way it is
    /// finished, and its position is returned for the character to take.
    pub fn handle_teleport_ack(&mut self) -> (r: Option<PositionAndOrientation>)
        ensures
            *old(self) matches TeleportationState::Executing(TeleportationDistance::Near(dest))
                ==> r == Some(dest) && *final(self) == TeleportationState::Idle,
            !(*old(self) matches TeleportationState::Executing(TeleportationDistance::Near(_)))
                ==> r is None && *final(self) == *old(self),
    {
        if let TeleportationState::Executing(TeleportationDistance::Near(destination)) = *self {
            *self = TeleportationState::Idle;
            Some(destination)
        } else {
            None
        }
    }

    /// The destination of the far teleport under way, if any.
    pub fn far_teleport_destination(&self) -> (r: Option<WorldZoneLocation>)
        ensures
            *self matches TeleportationState::Executing(TeleportationDistance::Far(dest)) ==> r
                == Some(dest),
            !(*self matches TeleportationState::Executing(TeleportationDistance::Far(_))) ==> r is None,
    {
        if let TeleportationState::Executing(TeleportationDistance::Far(destination)) = *self {
            Some(destination)
        } else {
            None
        }
    }

    /// The teleport is over.
    pub fn finish(&mut self)
        ensures
            *final(self) == TeleportationState::Idle,
    {
        *self = TeleportationState::Idle;
    }
}

/// A character entered an area trigger: a teleport trigger queues a far
/// teleport to its destination, a resting area makes the character rest,
/// and other triggers do nothing.
pub fn handle_area_trigger(
    purpose: &AreaTriggerPurpose,
    teleportation: &mut TeleportationState,
    rested: &mut RestedState,
)
    ensures
        *purpose matches AreaTriggerPurpose::Teleport(dest) ==> *final(teleportation)
            == TeleportationState::Queued(TeleportationDistance::Far(dest)) && *final(rested)
            == *old(rested),
        *purpose == AreaTriggerPurpose::RestedArea ==> *final(teleportation) == *old(teleportation)
            && (*old(rested) == RestedState::NotRested ==> *final(rested) == RestedState::Rested(
            crate::character::character_rested::RestedLocation::Inn,
        )) && (*old(rested) != RestedState::NotRested ==> *final(rested) == *old(rested)),
        *purpose == AreaTriggerPurpose::Unknown ==> *final(teleportation) == *old(teleportation)
            && *final(rested) == *old(rested),
{
    match purpose {
        AreaTriggerPurpose::Teleport(destination) => {
            teleportation.teleport_to(TeleportationDistance::Far(*destination));
        },
        AreaTriggerPurpose::RestedArea => {
            rested.handle_enter_inn();
        },
        AreaTriggerPurpose::Unknown => {},
    }
}

} // verus!
