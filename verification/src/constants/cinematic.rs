//! Which cinematic opens the game for a new character.

use crate::game_enums::{CinematicSequenceId, Class, Race};
use vstd::prelude::*;

verus! {

/// The cinematic shown at a new character's first login: death knights have
/// their own, the other classes get their race's, and races without one get
/// none.
pub open spec fn opening_cinematic(race: Race, class: Class) -> Option<CinematicSequenceId> {
    if class == Class::DeathKnight {
        Some(CinematicSequenceId::DeathKnight)
    } else {
        match race {
            Race::Human => Some(CinematicSequenceId::Human),
            Race::Orc => Some(CinematicSequenceId::Orc),
            Race::Dwarf => Some(CinematicSequenceId::Dwarf),
            Race::NightElf => Some(CinematicSequenceId::NightElf),
            Race::Undead => Some(CinematicSequenceId::Undead),
            Race::Tauren => Some(CinematicSequenceId::Tauren),
            Race::BloodElf => Some(CinematicSequenceId::BloodElf),
            Race::Draenei => Some(CinematicSequenceId::Draenei),
            Race::Gnome => Some(CinematicSequenceId::Gnome),
            _ => None,
        }
    }
}

/// The cinematic shown at the first login of a character of this race and
/// class, if any.
pub fn get_opening_cinematic_for_race_class(race: &Race, class: &Class) -> (r: Option<
    CinematicSequenceId,
>)
    ensures
        r == opening_cinematic(*race, *class),
{
    match (*race, *class) {
        (_, Class::DeathKnight) => Some(CinematicSequenceId::DeathKnight),
        (Race::Human, _) => Some(CinematicSequenceId::Human),
        (Race::Orc, _) => Some(CinematicSequenceId::Orc),
        (Race::Dwarf, _) => Some(CinematicSequenceId::Dwarf),
        (Race::NightElf, _) => Some(CinematicSequenceId::NightElf),
        (Race::Undead, _) => Some(CinematicSequenceId::Undead),
        (Race::Tauren, _) => Some(CinematicSequenceId::Tauren),
        (Race::BloodElf, _) => Some(CinematicSequenceId::BloodElf),
        (Race::Draenei, _) => Some(CinematicSequenceId::Draenei),
        (Race::Gnome, _) => Some(CinematicSequenceId::Gnome),
        _ => None,
    }
}

/// The cinematic that bears a race's name, for the races that have one.
pub open spec fn cinematic_named_for(race: Race) -> Option<CinematicSequenceId> {
    match race {
        Race::Human => Some(CinematicSequenceId::Human),
        Race::Orc => Some(CinematicSequenceId::Orc),
        Race::Dwarf => Some(CinematicSequenceId::Dwarf),
        Race::NightElf => Some(CinematicSequenceId::NightElf),
        Race::Undead => Some(CinematicSequenceId::Undead),
        Race::Tauren => Some(CinematicSequenceId::Tauren),
        Race::Gnome => Some(CinematicSequenceId::Gnome),
        Race::Troll => Some(CinematicSequenceId::Troll),
        Race::Goblin => Some(CinematicSequenceId::Goblin),
        Race::BloodElf => Some(CinematicSequenceId::BloodElf),
        Race::Draenei => Some(CinematicSequenceId::Draenei),
        _ => None,
    }
}

/// A death knight is shown the death knight cinematic, whatever its race.
/// Any other class is shown the cinematic named for its race, except that
/// trolls and goblins are shown none; the class does not matter. No two
/// races share an opening cinematic, and no race's is the death knight's.
pub proof fn lemma_opening_cinematic_is_the_race_s_own(race: Race, class: Class, other_race: Race, other_class: Class)
    ensures
        class == Class::DeathKnight ==> opening_cinematic(race, class) == Some(
            CinematicSequenceId::DeathKnight,
        ),
        class != Class::DeathKnight && race != Race::Troll && race != Race::Goblin ==> opening_cinematic(
            race,
            class,
        ) == cinematic_named_for(race),
        class != Class::DeathKnight && (race == Race::Troll || race == Race::Goblin) ==> opening_cinematic(
            race,
            class,
        ) is None,
        class != Class::DeathKnight && other_class != Class::DeathKnight ==> opening_cinematic(
            race,
            class,
        ) == opening_cinematic(race, other_class),
        class != Class::DeathKnight && other_class != Class::DeathKnight && race != other_race
            && opening_cinematic(race, class) is Some ==> opening_cinematic(race, class)
            != opening_cinematic(other_race, other_class),
        class != Class::DeathKnight ==> opening_cinematic(race, class) != Some(
            CinematicSequenceId::DeathKnight,
        ),
{
}

} // verus!
