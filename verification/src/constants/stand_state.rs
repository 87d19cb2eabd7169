//! Stand states of a unit.

use vstd::prelude::*;

verus! {

/// How a unit stands, sits, sleeps or kneels.
#[allow(non_camel_case_types)]
#[derive(PartialEq, Eq, Structural, Clone, Copy, Debug)]
pub enum UnitStandState {
    Stand,
    Sit,
    SitChair,
    Sleep,
    SitLowChair,
    SitMediumChair,
    SitHighChair,
    Dead,
    Kneel,
    Custom, // Depends on model animation. Submerge, freeze, hide, hibernate, rest
}

impl UnitStandState {
    /// The number the protocol uses for each variant.
    pub open spec fn spec_value(self) -> u8 {
        match self {
            UnitStandState::Stand => 0,
            UnitStandState::Sit => 1,
            UnitStandState::SitChair => 2,
            UnitStandState::Sleep => 3,
            UnitStandState::SitLowChair => 4,
            UnitStandState::SitMediumChair => 5,
            UnitStandState::SitHighChair => 6,
            UnitStandState::Dead => 7,
            UnitStandState::Kneel => 8,
            UnitStandState::Custom => 9,
        }
    }

    /// The number the protocol uses for this variant.
    pub fn value(&self) -> (r: u8)
        ensures
            r == self.spec_value(),
    {
        match self {
            UnitStandState::Stand => 0,
            UnitStandState::Sit => 1,
            UnitStandState::SitChair => 2,
            UnitStandState::Sleep => 3,
            UnitStandState::SitLowChair => 4,
            UnitStandState::SitMediumChair => 5,
            UnitStandState::SitHighChair => 6,
            UnitStandState::Dead => 7,
            UnitStandState::Kneel => 8,
            UnitStandState::Custom => 9,
        }
    }
}

} // verus!
