//! The values a character shows to clients that the server's logic reads
//! and writes: its target, its race and class, how it stands, its unit
//! flags and its action bars; and the time it has played.

use crate::constants::stand_state::UnitStandState;
use crate::constants::unit_flags::UnitFlagIndex;
use crate::data::action_bar::{ActionBar, ActionButton, MAXSLOTS};
use crate::game_enums::{Class, EnumError, Gender, Race};
use crate::guid::Guid;
use bit_field::BitField;
use vstd::prelude::*;

verus! {

/// The kind of power a unit spends.
#[derive(PartialEq, Eq, Structural, Clone, Copy, Debug)]
pub enum Power {
    Mana,
    Rage,
    Focus,
    Energy,
    Happiness,
    Rune,
    RunicPower,
    Health,
}

impl Power {
    /// The variant a number stands for, if any.
    pub open spec fn spec_from_int(value: u8) -> Option<Power> {
        if value == 0 {
            Some(Power::Mana)
        } else if value == 1 {
            Some(Power::Rage)
        } else if value == 2 {
            Some(Power::Focus)
        } else if value == 3 {
            Some(Power::Energy)
        } else if value == 4 {
            Some(Power::Happiness)
        } else if value == 5 {
            Some(Power::Rune)
        } else if value == 6 {
            Some(Power::RunicPower)
        } else if value == 254 {
            Some(Power::Health)
        } else {
            None
        }
    }

    /// The variant a number stands for; an error for any other number.
    pub fn from_int(value: u8) -> (r: Result<Power, EnumError>)
        ensures
            r matches Ok(t) ==> Self::spec_from_int(value) == Some(t),
            r matches Err(e) ==> Self::spec_from_int(value) is None && e.value == value as i128,
    {
        match value {
            0 => Ok(Power::Mana),
            1 => Ok(Power::Rage),
            2 => Ok(Power::Focus),
            3 => Ok(Power::Energy),
            4 => Ok(Power::Happiness),
            5 => Ok(Power::Rune),
            6 => Ok(Power::RunicPower),
            254 => Ok(Power::Health),
            v => Err(EnumError { name: "Power", value: v as i128 }),
        }
    }
}

/// The fields of a character that the logic reads and writes. A field
/// that was never set is `None`.
#[derive(Clone, Copy, Debug)]
pub struct CharacterFields {
    /// The unit the character has selected; zero for none.
    pub unit_target: Option<Guid>,
    /// Race, class, gender and power type.
    pub unit_bytes_0: Option<(Race, Class, Gender, Power)>,
    /// How the unit stands, and three bytes the logic keeps as they are.
    pub unit_bytes_1: Option<(UnitStandState, u8, u8, u8)>,
    /// The unit flags, one bit each.
    pub unit_flags: Option<i32>,
    /// Player features; the third byte is the mask of visible action bars.
    pub player_features: Option<(u8, u8, u8, u8)>,
}

/// Sets or clears bit `bit` of `value` through `BitField::set_bit`, which
/// panics for a bit past the last.
#[verifier::external_body]
fn i32_set_bit(value: i32, bit: usize, set: bool) -> (r: i32)
    requires
        bit < 32,
    ensures
        set ==> r == value | (1i32 << bit),
        !set ==> r == value & !(1i32 << bit),
{
    let mut v = value;
    v.set_bit(bit, set);
    v
}

/// The unit selected through a target field: none for an unset field or
/// a zero target.
pub open spec fn selection_of(unit_target: Option<Guid>) -> Option<Guid> {
    match unit_target {
        Some(g) => if g.0 == 0 {
            None
        } else {
            Some(g)
        },
        None => None,
    }
}

impl CharacterFields {
    /// A character with no field set.
    pub fn new() -> (r: Self)
        ensures
            r.unit_target is None,
            r.unit_bytes_0 is None,
            r.unit_bytes_1 is None,
            r.unit_flags is None,
            r.player_features is None,
    {
        CharacterFields {
            unit_target: None,
            unit_bytes_0: None,
            unit_bytes_1: None,
            unit_flags: None,
            player_features: None,
        }
    }

    /// Selects a unit, or clears the selection.
    pub fn set_selection(&mut self, new_selection: Option<Guid>)
        ensures
            *final(self) == (CharacterFields {
                unit_target: Some(
                    match new_selection {
                        Some(g) => g,
                        None => Guid(0),
                    },
                ),
                ..*old(self)
            }),
    {
        let guid = match new_selection {
            Some(g) => g,
            None => Guid(0),
        };
        self.unit_target = Some(guid);
    }

    /// The unit the character has selected.
    pub fn get_selection(&self) -> (r: Option<Guid>)
        ensures
            r == selection_of(self.unit_target),
    {
        match self.unit_target {
            Some(g) => if g.0 == 0 {
                None
            } else {
                Some(g)
            },
            None => None,
        }
    }

    /// Sets how the character stands, keeping the rest of its bytes (zero
    /// when never set).
    pub fn set_stand_state(&mut self, state: UnitStandState)
        ensures
            *final(self) == (CharacterFields {
                unit_bytes_1: Some(
                    match old(self).unit_bytes_1 {
                        Some((_, b, c, d)) => (state, b, c, d),
                        None => (state, 0u8, 0u8, 0u8),
                    },
                ),
                ..*old(self)
            }),
    {
        let (b, c, d) = match self.unit_bytes_1 {
            Some((_, b, c, d)) => (b, c, d),
            None => (0u8, 0u8, 0u8),
        };
        self.unit_bytes_1 = Some((state, b, c, d));
    }

    /// Sets or clears one unit flag, the others unset flags counting as
    /// clear.
    pub fn set_unit_flag_byte(&mut self, unit_flag: UnitFlagIndex, value: bool)
        ensures
            *final(self) == (CharacterFields {
                unit_flags: Some(
                    {
                        let flags = match old(self).unit_flags {
                            Some(f) => f,
                            None => 0i32,
                        };
                        if value {
                            flags | (1i32 << unit_flag.spec_index())
                        } else {
                            flags & !(1i32 << unit_flag.spec_index())
                        }
                    },
                ),
                ..*old(self)
            }),
    {
        let unit_flags: i32 = match self.unit_flags {
            Some(f) => f,
            None => 0,
        };
        proof {
            crate::constants::unit_flags::lemma_unit_flag_is_bit_at_index(unit_flag);
        }
        let updated = i32_set_bit(unit_flags, unit_flag.index(), value);
        self.unit_flags = Some(updated);
    }

    /// Stuns the character, or lets it go.
    pub fn set_stunned(&mut self, stunned: bool)
        ensures
            *final(self) == (CharacterFields {
                unit_flags: Some(
                    {
                        let flags = match old(self).unit_flags {
                            Some(f) => f,
                            None => 0i32,
                        };
                        if stunned {
                            flags | (1i32 << UnitFlagIndex::Stunned.spec_index())
                        } else {
                            flags & !(1i32 << UnitFlagIndex::Stunned.spec_index())
                        }
                    },
                ),
                ..*old(self)
            }),
    {
        self.set_unit_flag_byte(UnitFlagIndex::Stunned, stunned)
    }

    /// Sets which extra action bars the client shows: no extra bar is 0,
    /// all four are 15.
    pub fn set_visible_actionbar_mask(&mut self, action_bars: u8)
        ensures
            *final(self) == (CharacterFields {
                player_features: Some(
                    match old(self).player_features {
                        Some((a, b, _, d)) => (a, b, action_bars, d),
                        None => (0u8, 0u8, action_bars, 0u8),
                    },
                ),
                ..*old(self)
            }),
    {
        let (a, b, d) = match self.player_features {
            Some((a, b, _, d)) => (a, b, d),
            None => (0u8, 0u8, 0u8),
        };
        self.player_features = Some((a, b, action_bars, d));
    }

    /// Sets race, class, gender and power type.
    pub fn set_unit_bytes_0(&mut self, race: Race, class: Class, gender: Gender, power: Power)
        ensures
            *final(self) == (CharacterFields {
                unit_bytes_0: Some((race, class, gender, power)),
                ..*old(self)
            }),
    {
        self.unit_bytes_0 = Some((race, class, gender, power));
    }

    /// The character's race; human when never set.
    pub fn get_race(&self) -> (r: Race)
        ensures
            r == match self.unit_bytes_0 {
                Some((race, _, _, _)) => race,
                None => Race::Human,
            },
    {
        match self.unit_bytes_0 {
            Some((race, _, _, _)) => race,
            None => Race::Human,
        }
    }

    /// The character's class; warrior when never set.
    pub fn get_class(&self) -> (r: Class)
        ensures
            r == match self.unit_bytes_0 {
                Some((_, class, _, _)) => class,
                None => Class::Warrior,
            },
    {
        match self.unit_bytes_0 {
            Some((_, class, _, _)) => class,
            None => Class::Warrior,
        }
    }

    /// The character's gender; male when never set.
    pub fn get_gender(&self) -> (r: Gender)
        ensures
            r == match self.unit_bytes_0 {
                Some((_, _, gender, _)) => gender,
                None => Gender::Male,
            },
    {
        match self.unit_bytes_0 {
            Some((_, _, gender, _)) => gender,
            None => Gender::Male,
        }
    }

    /// The power the character spends; mana when never set.
    pub fn get_power_type(&self) -> (r: Power)
        ensures
            r == match self.unit_bytes_0 {
                Some((_, _, _, power)) => power,
                None => Power::Mana,
            },
    {
        match self.unit_bytes_0 {
            Some((_, _, _, power)) => power,
            None => Power::Mana,
        }
    }
}

/// Sets one button of a character's action bars.
pub fn set_action_bar_button(action_bar: &mut ActionBar, slot: u8, action_button: ActionButton)
    requires
        (slot as usize) < MAXSLOTS,
    ensures
        final(action_bar).data@ == old(action_bar).data@.update(slot as int, action_button),
{
    action_bar.data[slot as usize] = action_button;
}

/// The time a character has played, counted in seconds up to the last
/// time it was brought up to date.
#[derive(PartialEq, Eq, Structural, Clone, Copy, Debug)]
pub struct PlayedTime {
    pub seconds_played_total: u32,
    pub seconds_played_at_level: u32,
    pub last_playtime_calculation_timestamp: u32,
}

/// The played time brought up to date at `unix_time`: the seconds since
/// the last update are added to both counts.
pub open spec fn played_time_at(p: PlayedTime, unix_time: u32) -> PlayedTime {
    let delta = unix_time - p.last_playtime_calculation_timestamp;
    PlayedTime {
        seconds_played_total: (p.seconds_played_total + delta) as u32,
        seconds_played_at_level: (p.seconds_played_at_level + delta) as u32,
        last_playtime_calculation_timestamp: unix_time,
    }
}

/// Whether the played time can be brought up to date at `unix_time`: the
/// clock did not go back, and neither count passes its limit.
pub open spec fn can_update_played_time(p: PlayedTime, unix_time: u32) -> bool {
    &&& p.last_playtime_calculation_timestamp <= unix_time
    &&& p.seconds_played_total + (unix_time - p.last_playtime_calculation_timestamp) <= u32::MAX
    &&& p.seconds_played_at_level + (unix_time - p.last_playtime_calculation_timestamp) <= u32::MAX
}

impl PlayedTime {
    /// Brings the played time up to date at `unix_time` and returns the
    /// total and the time at the current level, as the client is told.
    pub fn update(&mut self, unix_time: u32) -> (r: (u32, u32))
        requires
            can_update_played_time(*old(self), unix_time),
        ensures
            *final(self) == played_time_at(*old(self), unix_time),
            r == (final(self).seconds_played_total, final(self).seconds_played_at_level),
    {
        let delta_seconds = unix_time - self.last_playtime_calculation_timestamp;
        self.seconds_played_total = self.seconds_played_total + delta_seconds;
        self.seconds_played_at_level = self.seconds_played_at_level + delta_seconds;
        self.last_playtime_calculation_timestamp = unix_time;
        (self.seconds_played_total, self.seconds_played_at_level)
    }
}

/// Bringing the played time up to date twice counts each second once: it
/// is the same as one update at the later time.
pub proof fn lemma_played_time_updates_compose(p: PlayedTime, t1: u32, t2: u32)
    requires
        t1 <= t2,
        can_update_played_time(p, t2),
        p.last_playtime_calculation_timestamp <= t1,
    ensures
        can_update_played_time(p, t1),
        can_update_played_time(played_time_at(p, t1), t2),
        played_time_at(played_time_at(p, t1), t2) == played_time_at(p, t2),
{
}

} // verus!
