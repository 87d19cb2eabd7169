//! Whether a character rests: once in an inn it stays rested for the rest of
//! the session.

use vstd::prelude::*;

verus! {

/// Where a character rests.
#[derive(PartialEq, Eq, Structural, Clone, Copy, Debug)]
pub enum RestedLocation {
    City,
    Inn,
}

/// Whether, and where, a character rests.
#[derive(PartialEq, Eq, Structural, Clone, Copy, Debug)]
pub enum RestedState {
    NotRested,
    Rested(RestedLocation),
}

impl RestedState {
    /// The character entered an inn: it rests there unless it already
    /// rested.
    pub fn handle_enter_inn(&mut self)
        ensures
            *old(self) == RestedState::NotRested ==> *final(self) == RestedState::Rested(
                RestedLocation::Inn,
            ),
            *old(self) != RestedState::NotRested ==> *final(self) == *old(self),
    {
        if *self == RestedState::NotRested {
            *self = RestedState::Rested(RestedLocation::Inn);
        }
    }

    /// Whether the character rests, in a city or an inn.
    pub fn is_in_rested_area(&self) -> (r: bool)
        ensures
            r == (*self is Rested),
    {
        match self {
            RestedState::NotRested => false,
            RestedState::Rested(location) => match location {
                RestedLocation::Inn => true,
                RestedLocation::City => true,
            },
        }
    }
}

} // verus!
