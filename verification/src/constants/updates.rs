//! Kinds and flags of object update blocks.

use vstd::prelude::*;

verus! {

/// The kind of an object update block.
#[allow(non_camel_case_types)]
#[derive(PartialEq, Eq, Structural, Clone, Copy, Debug)]
pub enum ObjectUpdateType {
    Values,
    Movement,
    CreateObject,
    CreateYourself,
    OutOfRangeObjects,
}

impl ObjectUpdateType {
    /// The number the protocol uses for each variant.
    pub open spec fn spec_value(self) -> u8 {
        match self {
            ObjectUpdateType::Values => 0,
            ObjectUpdateType::Movement => 1,
            ObjectUpdateType::CreateObject => 2,
            ObjectUpdateType::CreateYourself => 3,
            ObjectUpdateType::OutOfRangeObjects => 4,
        }
    }

    /// The number the protocol uses for this variant.
    pub fn value(&self) -> (r: u8)
        ensures
            r == self.spec_value(),
    {
        match self {
            ObjectUpdateType::Values => 0,
            ObjectUpdateType::Movement => 1,
            ObjectUpdateType::CreateObject => 2,
            ObjectUpdateType::CreateYourself => 3,
            ObjectUpdateType::OutOfRangeObjects => 4,
        }
    }
}
/// Flags of an object update block.
#[allow(non_camel_case_types)]
#[derive(PartialEq, Eq, Structural, Clone, Copy, Debug)]
pub enum ObjectUpdateFlags {
    NoFlags,
    UpdateSelf,
    Transport,
    HasTarget,
    LowGuid,
    HighGuid,
    Living,
    HasPosition,
    Vehicle,
    Position,
    Rotation,
}

impl ObjectUpdateFlags {
    /// The number the protocol uses for each variant.
    pub open spec fn spec_value(self) -> u32 {
        match self {
            ObjectUpdateFlags::NoFlags => 0x00,
            ObjectUpdateFlags::UpdateSelf => 0x01,
            ObjectUpdateFlags::Transport => 0x02,
            ObjectUpdateFlags::HasTarget => 0x04,
            ObjectUpdateFlags::LowGuid => 0x08,
            ObjectUpdateFlags::HighGuid => 0x10,
            ObjectUpdateFlags::Living => 0x20,
            ObjectUpdateFlags::HasPosition => 0x40,
            ObjectUpdateFlags::Vehicle => 0x80,
            ObjectUpdateFlags::Position => 0x100,
            ObjectUpdateFlags::Rotation => 0x200,
        }
    }

    /// The number the protocol uses for this variant.
    pub fn value(&self) -> (r: u32)
        ensures
            r == self.spec_value(),
    {
        match self {
            ObjectUpdateFlags::NoFlags => 0x00,
            ObjectUpdateFlags::UpdateSelf => 0x01,
            ObjectUpdateFlags::Transport => 0x02,
            ObjectUpdateFlags::HasTarget => 0x04,
            ObjectUpdateFlags::LowGuid => 0x08,
            ObjectUpdateFlags::HighGuid => 0x10,
            ObjectUpdateFlags::Living => 0x20,
            ObjectUpdateFlags::HasPosition => 0x40,
            ObjectUpdateFlags::Vehicle => 0x80,
            ObjectUpdateFlags::Position => 0x100,
            ObjectUpdateFlags::Rotation => 0x200,
        }
    }
}
/// The type of an object, as the update blocks number it.
#[allow(non_camel_case_types)]
#[derive(PartialEq, Eq, Structural, Clone, Copy, Debug)]
pub enum ObjectType {
    Object,
    Item,
    Container,
    Unit,
    Player,
    GameObject,
    DynamicObject,
    Corpse,
    AIGroup,
    AreaTrigger,
}

impl ObjectType {
    /// The number the protocol uses for each variant.
    pub open spec fn spec_value(self) -> u32 {
        match self {
            ObjectType::Object => 0,
            ObjectType::Item => 1,
            ObjectType::Container => 2,
            ObjectType::Unit => 3,
            ObjectType::Player => 4,
            ObjectType::GameObject => 5,
            ObjectType::DynamicObject => 6,
            ObjectType::Corpse => 7,
            ObjectType::AIGroup => 8,
            ObjectType::AreaTrigger => 9,
        }
    }

    /// The number the protocol uses for this variant.
    pub fn value(&self) -> (r: u32)
        ensures
            r == self.spec_value(),
    {
        match self {
            ObjectType::Object => 0,
            ObjectType::Item => 1,
            ObjectType::Container => 2,
            ObjectType::Unit => 3,
            ObjectType::Player => 4,
            ObjectType::GameObject => 5,
            ObjectType::DynamicObject => 6,
            ObjectType::Corpse => 7,
            ObjectType::AIGroup => 8,
            ObjectType::AreaTrigger => 9,
        }
    }
}

} // verus!
