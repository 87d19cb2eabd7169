//! Unit flags: each flag as its bit and as the position of that bit.

use vstd::prelude::*;

verus! {

/// A unit flag, as its bit in the unit flags field.
#[allow(non_camel_case_types)]
#[derive(PartialEq, Eq, Structural, Clone, Copy, Debug)]
pub enum UnitFlags {
    Unk0,
    NonAttackable,
    DisableMove,
    PvpAttackable,
    Rename,
    Preparation,
    Unk6,
    NotAttackable1,
    OocNotAttackable,
    Passive,
    Looting,
    PetInCombat,
    Pvp,
    Silenced,
    Unk14,
    Unk15,
    Unk16,
    Pacified,
    Stunned,
    InCombat,
    TaxiFlight,
    Disarmed,
    Confused,
    Fleeing,
    PlayerControlled,
    NotSelectable,
    Skinnable,
    Mount,
    Unk28,
    Unk29,
    Sheathe,
}

impl UnitFlags {
    /// The number the protocol uses for each variant.
    pub open spec fn spec_value(self) -> u32 {
        match self {
            UnitFlags::Unk0 => 0x00000001,
            UnitFlags::NonAttackable => 0x00000002,
            UnitFlags::DisableMove => 0x00000004,
            UnitFlags::PvpAttackable => 0x00000008,
            UnitFlags::Rename => 0x00000010,
            UnitFlags::Preparation => 0x00000020,
            UnitFlags::Unk6 => 0x00000040,
            UnitFlags::NotAttackable1 => 0x00000080,
            UnitFlags::OocNotAttackable => 0x00000100,
            UnitFlags::Passive => 0x00000200,
            UnitFlags::Looting => 0x00000400,
            UnitFlags::PetInCombat => 0x00000800,
            UnitFlags::Pvp => 0x00001000,
            UnitFlags::Silenced => 0x00002000,
            UnitFlags::Unk14 => 0x00004000,
            UnitFlags::Unk15 => 0x00008000,
            UnitFlags::Unk16 => 0x00010000,
            UnitFlags::Pacified => 0x00020000,
            UnitFlags::Stunned => 0x00040000,
            UnitFlags::InCombat => 0x00080000,
            UnitFlags::TaxiFlight => 0x00100000,
            UnitFlags::Disarmed => 0x00200000,
            UnitFlags::Confused => 0x00400000,
            UnitFlags::Fleeing => 0x00800000,
            UnitFlags::PlayerControlled => 0x01000000,
            UnitFlags::NotSelectable => 0x02000000,
            UnitFlags::Skinnable => 0x04000000,
            UnitFlags::Mount => 0x08000000,
            UnitFlags::Unk28 => 0x10000000,
            UnitFlags::Unk29 => 0x20000000,
            UnitFlags::Sheathe => 0x40000000,
        }
    }

    /// The number the protocol uses for this variant.
    pub fn value(&self) -> (r: u32)
        ensures
            r == self.spec_value(),
    {
        match self {
            UnitFlags::Unk0 => 0x00000001,
            UnitFlags::NonAttackable => 0x00000002,
            UnitFlags::DisableMove => 0x00000004,
            UnitFlags::PvpAttackable => 0x00000008,
            UnitFlags::Rename => 0x00000010,
            UnitFlags::Preparation => 0x00000020,
            UnitFlags::Unk6 => 0x00000040,
            UnitFlags::NotAttackable1 => 0x00000080,
            UnitFlags::OocNotAttackable => 0x00000100,
            UnitFlags::Passive => 0x00000200,
            UnitFlags::Looting => 0x00000400,
            UnitFlags::PetInCombat => 0x00000800,
            UnitFlags::Pvp => 0x00001000,
            UnitFlags::Silenced => 0x00002000,
            UnitFlags::Unk14 => 0x00004000,
            UnitFlags::Unk15 => 0x00008000,
            UnitFlags::Unk16 => 0x00010000,
            UnitFlags::Pacified => 0x00020000,
            UnitFlags::Stunned => 0x00040000,
            UnitFlags::InCombat => 0x00080000,
            UnitFlags::TaxiFlight => 0x00100000,
            UnitFlags::Disarmed => 0x00200000,
            UnitFlags::Confused => 0x00400000,
            UnitFlags::Fleeing => 0x00800000,
            UnitFlags::PlayerControlled => 0x01000000,
            UnitFlags::NotSelectable => 0x02000000,
            UnitFlags::Skinnable => 0x04000000,
            UnitFlags::Mount => 0x08000000,
            UnitFlags::Unk28 => 0x10000000,
            UnitFlags::Unk29 => 0x20000000,
            UnitFlags::Sheathe => 0x40000000,
        }
    }
}
/// A unit flag, as the position of its bit in the unit flags field.
#[allow(non_camel_case_types)]
#[derive(PartialEq, Eq, Structural, Clone, Copy, Debug)]
pub enum UnitFlagIndex {
    Unk0,
    NonAttackable,
    DisableMove,
    PvpAttackable,
    Rename,
    Preparation,
    Unk6,
    NotAttackable1,
    OocNotAttackable,
    Passive,
    Looting,
    PetInCombat,
    Pvp,
    Silenced,
    Unk14,
    Unk15,
    Unk16,
    Pacified,
    Stunned,
    InCombat,
    TaxiFlight,
    Disarmed,
    Confused,
    Fleeing,
    PlayerControlled,
    NotSelectable,
    Skinnable,
    Mount,
    Unk28,
    Unk29,
    Sheathe,
}

impl UnitFlagIndex {
    /// The number the protocol uses for each variant.
    pub open spec fn spec_index(self) -> usize {
        match self {
            UnitFlagIndex::Unk0 => 0,
            UnitFlagIndex::NonAttackable => 1,
            UnitFlagIndex::DisableMove => 2,
            UnitFlagIndex::PvpAttackable => 3,
            UnitFlagIndex::Rename => 4,
            UnitFlagIndex::Preparation => 5,
            UnitFlagIndex::Unk6 => 6,
            UnitFlagIndex::NotAttackable1 => 7,
            UnitFlagIndex::OocNotAttackable => 8,
            UnitFlagIndex::Passive => 9,
            UnitFlagIndex::Looting => 10,
            UnitFlagIndex::PetInCombat => 11,
            UnitFlagIndex::Pvp => 12,
            UnitFlagIndex::Silenced => 13,
            UnitFlagIndex::Unk14 => 14,
            UnitFlagIndex::Unk15 => 15,
            UnitFlagIndex::Unk16 => 16,
            UnitFlagIndex::Pacified => 17,
            UnitFlagIndex::Stunned => 18,
            UnitFlagIndex::InCombat => 19,
            UnitFlagIndex::TaxiFlight => 20,
            UnitFlagIndex::Disarmed => 21,
            UnitFlagIndex::Confused => 22,
            UnitFlagIndex::Fleeing => 23,
            UnitFlagIndex::PlayerControlled => 24,
            UnitFlagIndex::NotSelectable => 25,
            UnitFlagIndex::Skinnable => 26,
            UnitFlagIndex::Mount => 27,
            UnitFlagIndex::Unk28 => 28,
            UnitFlagIndex::Unk29 => 29,
            UnitFlagIndex::Sheathe => 30,
        }
    }

    /// The number the protocol uses for this variant.
    pub fn index(&self) -> (r: usize)
        ensures
            r == self.spec_index(),
    {
        match self {
            UnitFlagIndex::Unk0 => 0,
            UnitFlagIndex::NonAttackable => 1,
            UnitFlagIndex::DisableMove => 2,
            UnitFlagIndex::PvpAttackable => 3,
            UnitFlagIndex::Rename => 4,
            UnitFlagIndex::Preparation => 5,
            UnitFlagIndex::Unk6 => 6,
            UnitFlagIndex::NotAttackable1 => 7,
            UnitFlagIndex::OocNotAttackable => 8,
            UnitFlagIndex::Passive => 9,
            UnitFlagIndex::Looting => 10,
            UnitFlagIndex::PetInCombat => 11,
            UnitFlagIndex::Pvp => 12,
            UnitFlagIndex::Silenced => 13,
            UnitFlagIndex::Unk14 => 14,
            UnitFlagIndex::Unk15 => 15,
            UnitFlagIndex::Unk16 => 16,
            UnitFlagIndex::Pacified => 17,
            UnitFlagIndex::Stunned => 18,
            UnitFlagIndex::InCombat => 19,
            UnitFlagIndex::TaxiFlight => 20,
            UnitFlagIndex::Disarmed => 21,
            UnitFlagIndex::Confused => 22,
            UnitFlagIndex::Fleeing => 23,
            UnitFlagIndex::PlayerControlled => 24,
            UnitFlagIndex::NotSelectable => 25,
            UnitFlagIndex::Skinnable => 26,
            UnitFlagIndex::Mount => 27,
            UnitFlagIndex::Unk28 => 28,
            UnitFlagIndex::Unk29 => 29,
            UnitFlagIndex::Sheathe => 30,
        }
    }
}
/// The flag whose bit sits at the position an index names.
pub open spec fn unit_flag_of_index(i: UnitFlagIndex) -> UnitFlags {
    match i {
        UnitFlagIndex::Unk0 => UnitFlags::Unk0,
        UnitFlagIndex::NonAttackable => UnitFlags::NonAttackable,
        UnitFlagIndex::DisableMove => UnitFlags::DisableMove,
        UnitFlagIndex::PvpAttackable => UnitFlags::PvpAttackable,
        UnitFlagIndex::Rename => UnitFlags::Rename,
        UnitFlagIndex::Preparation => UnitFlags::Preparation,
        UnitFlagIndex::Unk6 => UnitFlags::Unk6,
        UnitFlagIndex::NotAttackable1 => UnitFlags::NotAttackable1,
        UnitFlagIndex::OocNotAttackable => UnitFlags::OocNotAttackable,
        UnitFlagIndex::Passive => UnitFlags::Passive,
        UnitFlagIndex::Looting => UnitFlags::Looting,
        UnitFlagIndex::PetInCombat => UnitFlags::PetInCombat,
        UnitFlagIndex::Pvp => UnitFlags::Pvp,
        UnitFlagIndex::Silenced => UnitFlags::Silenced,
        UnitFlagIndex::Unk14 => UnitFlags::Unk14,
        UnitFlagIndex::Unk15 => UnitFlags::Unk15,
        UnitFlagIndex::Unk16 => UnitFlags::Unk16,
        UnitFlagIndex::Pacified => UnitFlags::Pacified,
        UnitFlagIndex::Stunned => UnitFlags::Stunned,
        UnitFlagIndex::InCombat => UnitFlags::InCombat,
        UnitFlagIndex::TaxiFlight => UnitFlags::TaxiFlight,
        UnitFlagIndex::Disarmed => UnitFlags::Disarmed,
        UnitFlagIndex::Confused => UnitFlags::Confused,
        UnitFlagIndex::Fleeing => UnitFlags::Fleeing,
        UnitFlagIndex::PlayerControlled => UnitFlags::PlayerControlled,
        UnitFlagIndex::NotSelectable => UnitFlags::NotSelectable,
        UnitFlagIndex::Skinnable => UnitFlags::Skinnable,
        UnitFlagIndex::Mount => UnitFlags::Mount,
        UnitFlagIndex::Unk28 => UnitFlags::Unk28,
        UnitFlagIndex::Unk29 => UnitFlags::Unk29,
        UnitFlagIndex::Sheathe => UnitFlags::Sheathe,
    }
}

/// Each flag is the bit one shifted left by its index.
pub proof fn lemma_unit_flag_is_bit_at_index(i: UnitFlagIndex)
    ensures
        i.spec_index() < 31,
        unit_flag_of_index(i).spec_value() == 1u32 << (i.spec_index() as u32),
{
    assert(1u32 << 0u32 == 0x1 && 1u32 << 1u32 == 0x2 && 1u32 << 2u32 == 0x4 && 1u32 << 3u32 == 0x8 && 1u32 << 4u32 == 0x10 && 1u32 << 5u32 == 0x20 && 1u32 << 6u32 == 0x40 && 1u32 << 7u32 == 0x80 && 1u32 << 8u32 == 0x100 && 1u32 << 9u32 == 0x200 && 1u32 << 10u32 == 0x400 && 1u32 << 11u32 == 0x800 && 1u32 << 12u32 == 0x1000 && 1u32 << 13u32 == 0x2000 && 1u32 << 14u32 == 0x4000 && 1u32 << 15u32 == 0x8000 && 1u32 << 16u32 == 0x10000 && 1u32 << 17u32 == 0x20000 && 1u32 << 18u32 == 0x40000 && 1u32 << 19u32 == 0x80000 && 1u32 << 20u32 == 0x100000 && 1u32 << 21u32 == 0x200000 && 1u32 << 22u32 == 0x400000 && 1u32 << 23u32 == 0x800000 && 1u32 << 24u32 == 0x1000000 && 1u32 << 25u32 == 0x2000000 && 1u32 << 26u32 == 0x4000000 && 1u32 << 27u32 == 0x8000000 && 1u32 << 28u32 == 0x10000000 && 1u32 << 29u32 == 0x20000000 && 1u32 << 30u32 == 0x40000000) by (bit_vector);
}

} // verus!
