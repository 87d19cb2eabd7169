//! The cinematic a character is shown: queued by the server, then watched
//! camera spline by camera spline until the client reports its end.

use crate::game_enums::CinematicSequenceId;
use vstd::prelude::*;

verus! {

/// The cinematic being watched and the camera spline it is at.
#[derive(PartialEq, Eq, Structural, Clone, Copy, Debug)]
pub struct WatchingCinematicStateData {
    pub cinematic_id: CinematicSequenceId,
    pub cinematic_spline_index: u32,
}

/// Where a character is with cinematics.
#[derive(PartialEq, Eq, Structural, Clone, Copy, Debug)]
pub enum CharacterCinematicState {
    /// No cinematic is queued or playing.
    NoCinematic,
    /// The server asked the client to play this cinematic.
    Queued(CinematicSequenceId),
    /// The client is playing a cinematic.
    Watching(WatchingCinematicStateData),
}

/// Why a cinematic event was refused.
#[derive(PartialEq, Eq, Structural, Clone, Copy, Debug)]
pub enum CinematicError {
    /// A cinematic is already queued or playing.
    AlreadyWatching,
    /// The client moved to a camera, but no cinematic was queued.
    NothingQueued,
    /// The client ended a cinematic, but none was playing.
    NothingPlaying,
}

impl CharacterCinematicState {
    /// Whether a cinematic is queued or playing.
    pub fn is_watching_cinematic(&self) -> (r: bool)
        ensures
            r == (*self != CharacterCinematicState::NoCinematic),
    {
        match self {
            CharacterCinematicState::NoCinematic => false,
            _ => true,
        }
    }

    /// Queues `cinematic_id`; refused while another is queued or playing.
    /// On success the caller asks the client to play it.
    pub fn start_cinematic(&mut self, cinematic_id: CinematicSequenceId) -> (r: Result<
        (),
        CinematicError,
    >)
        ensures
            *old(self) == CharacterCinematicState::NoCinematic ==> r is Ok && *final(self)
                == CharacterCinematicState::Queued(cinematic_id),
            *old(self) != CharacterCinematicState::NoCinematic ==> r == Err::<(), CinematicError>(
                CinematicError::AlreadyWatching,
            ) && *final(self) == *old(self),
    {
        if self.is_watching_cinematic() {
            return Err(CinematicError::AlreadyWatching);
        }
        *self = CharacterCinematicState::Queued(cinematic_id);
        Ok(())
    }

    /// The client is ready for the next camera spline (the first one too):
    /// a queued cinematic starts at spline 0, a playing one moves on by one.
    pub fn handle_cinematic_next_camera(&mut self) -> (r: Result<(), CinematicError>)
        requires
            *old(self) matches CharacterCinematicState::Watching(d) ==> d.cinematic_spline_index
                < u32::MAX,
        ensures
            match *old(self) {
                CharacterCinematicState::Queued(id) => r is Ok && *final(self)
                    == CharacterCinematicState::Watching(
                    WatchingCinematicStateData { cinematic_id: id, cinematic_spline_index: 0 },
                ),
                CharacterCinematicState::Watching(d) => r is Ok && *final(self)
                    == CharacterCinematicState::Watching(
                    WatchingCinematicStateData {
                        cinematic_id: d.cinematic_id,
                        cinematic_spline_index: (d.cinematic_spline_index + 1) as u32,
                    },
                ),
                CharacterCinematicState::NoCinematic => r == Err::<(), CinematicError>(
                    CinematicError::NothingQueued,
                ) && *final(self) == *old(self),
            },
    {
        match *self {
            CharacterCinematicState::Queued(cinematic_id) => {
                *self = CharacterCinematicState::Watching(
                    WatchingCinematicStateData { cinematic_id, cinematic_spline_index: 0 },
                );
                Ok(())
            },
            CharacterCinematicState::Watching(d) => {
                *self = CharacterCinematicState::Watching(
                    WatchingCinematicStateData {
                        cinematic_id: d.cinematic_id,
                        cinematic_spline_index: d.cinematic_spline_index + 1,
                    },
                );
                Ok(())
            },
            CharacterCinematicState::NoCinematic => Err(CinematicError::NothingQueued),
        }
    }

    /// The client finished the cinematic it was playing.
    pub fn handle_cinematic_ended(&mut self) -> (r: Result<(), CinematicError>)
        ensures
            *old(self) is Watching ==> r is Ok && *final(self) == CharacterCinematicState::NoCinematic,
            !(*old(self) is Watching) ==> r == Err::<(), CinematicError>(
                CinematicError::NothingPlaying,
            ) && *final(self) == *old(self),
    {
        match self {
            CharacterCinematicState::Watching(_) => {
                *self = CharacterCinematicState::NoCinematic;
                Ok(())
            },
            _ => Err(CinematicError::NothingPlaying),
        }
    }
}

} // verus!
