//! Kinds of social relation between players.

use vstd::prelude::*;

verus! {

/// A kind of social relation, as a bit of the contact list mask.
#[allow(non_camel_case_types)]
#[derive(PartialEq, Eq, Structural, Clone, Copy, Debug)]
pub enum RelationType {
    NoRelation,
    Friend,
    Ignore,
    Muted,
    RecruitAFriend,
}

impl RelationType {
    /// The number the protocol uses for each variant.
    pub open spec fn spec_value(self) -> u32 {
        match self {
            RelationType::NoRelation => 0x00,
            RelationType::Friend => 0x01,
            RelationType::Ignore => 0x02,
            RelationType::Muted => 0x04,
            RelationType::RecruitAFriend => 0x08,
        }
    }

    /// The number the protocol uses for this variant.
    pub fn value(&self) -> (r: u32)
        ensures
            r == self.spec_value(),
    {
        match self {
            RelationType::NoRelation => 0x00,
            RelationType::Friend => 0x01,
            RelationType::Ignore => 0x02,
            RelationType::Muted => 0x04,
            RelationType::RecruitAFriend => 0x08,
        }
    }
}

} // verus!
