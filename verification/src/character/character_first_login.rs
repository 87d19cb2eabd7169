//! The very first login of a character: the opening cinematic of its race
//! and class, if it has one, is started once.

use crate::character::character_cinematic::{CharacterCinematicState, CinematicError};
use crate::constants::cinematic::{get_opening_cinematic_for_race_class, opening_cinematic};
use crate::game_enums::{CinematicSequenceId, Class, Race};
use vstd::prelude::*;

verus! {

/// Carries out a first login: the opening cinematic of the race and class
/// is queued, and returned for the client to be told to play it. A
/// cinematic already under way is an error.
pub fn perform_first_login(race: Race, class: Class, cinematic_state: &mut CharacterCinematicState) -> (r:
    Result<Option<CinematicSequenceId>, CinematicError>)
    ensures
        match opening_cinematic(race, class) {
            None => r == Ok::<Option<CinematicSequenceId>, CinematicError>(None) && *final(cinematic_state) == *old(cinematic_state),
            Some(id) => if *old(cinematic_state) == CharacterCinematicState::NoCinematic {
                r == Ok::<Option<CinematicSequenceId>, CinematicError>(Some(id)) && *final(cinematic_state) == CharacterCinematicState::Queued(id)
            } else {
                r == Err::<Option<CinematicSequenceId>, CinematicError>(
                    CinematicError::AlreadyWatching,
                ) && *final(cinematic_state) == *old(cinematic_state)
            },
        },
{
    match get_opening_cinematic_for_race_class(&race, &class) {
        Some(cinematic_id) => {
            cinematic_state.start_cinematic(cinematic_id)?;
            Ok(Some(cinematic_id))
        },
        None => Ok(None),
    }
}

/// The first login step of a character's tick: a character that needs its
/// first login gets it, and needs it no more once it succeeded.
pub fn try_perform_first_time_login_if_required(
    needs_first_login: &mut bool,
    race: Race,
    class: Class,
    cinematic_state: &mut CharacterCinematicState,
) -> (r: Result<Option<CinematicSequenceId>, CinematicError>)
    ensures
        !*old(needs_first_login) ==> r == Ok::<Option<CinematicSequenceId>, CinematicError>(None)
            && *final(needs_first_login) == false && *final(cinematic_state) == *old(cinematic_state),
        *old(needs_first_login) ==> match opening_cinematic(race, class) {
            None => r == Ok::<Option<CinematicSequenceId>, CinematicError>(None) && *final(cinematic_state) == *old(cinematic_state) && *final(needs_first_login) == false,
            Some(id) => if *old(cinematic_state) == CharacterCinematicState::NoCinematic {
                r == Ok::<Option<CinematicSequenceId>, CinematicError>(Some(id)) && *final(cinematic_state) == CharacterCinematicState::Queued(id) && *final(needs_first_login) == false
            } else {
                r == Err::<Option<CinematicSequenceId>, CinematicError>(
                    CinematicError::AlreadyWatching,
                ) && *final(cinematic_state) == *old(cinematic_state) && *final(needs_first_login)
                    == true
            },
        },
{
    if *needs_first_login {
        let started = perform_first_login(race, class, cinematic_state)?;
        *needs_first_login = false;
        Ok(started)
    } else {
        Ok(None)
    }
}

} // verus!
