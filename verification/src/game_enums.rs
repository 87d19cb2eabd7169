//! The game's enumerations that the logic of this crate reads: item
//! inventory types, races, classes, genders and cinematics, each with the
//! number the protocol gives it.

use vstd::prelude::*;

verus! {

/// A number that names no variant of an enumeration.
#[derive(Clone, Copy, Debug)]
pub struct EnumError {
    /// The enumeration's name.
    pub name: &'static str,
    /// The number that was read.
    pub value: i128,
}

/// Where an item can be worn, if anywhere.
#[derive(PartialEq, Eq, Structural, Clone, Copy, Debug)]
pub enum InventoryType {
    NonEquip,
    Head,
    Neck,
    Shoulders,
    Body,
    Chest,
    Waist,
    Legs,
    Feet,
    Wrists,
    Hands,
    Finger,
    Trinket,
    Weapon,
    Shield,
    Ranged,
    Cloak,
    TwoHandedWeapon,
    Bag,
    Tabard,
    Robe,
    WeaponMainHand,
    WeaponOffHand,
    Holdable,
    Ammo,
    Thrown,
    RangedRight,
    Quiver,
    Relic,
}

impl InventoryType {
    /// The number the protocol uses for each variant.
    pub open spec fn spec_as_int(self) -> u8 {
        match self {
            InventoryType::NonEquip => 0,
            InventoryType::Head => 1,
            InventoryType::Neck => 2,
            InventoryType::Shoulders => 3,
            InventoryType::Body => 4,
            InventoryType::Chest => 5,
            InventoryType::Waist => 6,
            InventoryType::Legs => 7,
            InventoryType::Feet => 8,
            InventoryType::Wrists => 9,
            InventoryType::Hands => 10,
            InventoryType::Finger => 11,
            InventoryType::Trinket => 12,
            InventoryType::Weapon => 13,
            InventoryType::Shield => 14,
            InventoryType::Ranged => 15,
            InventoryType::Cloak => 16,
            InventoryType::TwoHandedWeapon => 17,
            InventoryType::Bag => 18,
            InventoryType::Tabard => 19,
            InventoryType::Robe => 20,
            InventoryType::WeaponMainHand => 21,
            InventoryType::WeaponOffHand => 22,
            InventoryType::Holdable => 23,
            InventoryType::Ammo => 24,
            InventoryType::Thrown => 25,
            InventoryType::RangedRight => 26,
            InventoryType::Quiver => 27,
            InventoryType::Relic => 28,
        }
    }

    /// The variant a number stands for, if any.
    pub open spec fn spec_from_int(value: u8) -> Option<InventoryType> {
        if value == 0 {
            Some(InventoryType::NonEquip)
        } else if value == 1 {
            Some(InventoryType::Head)
        } else if value == 2 {
            Some(InventoryType::Neck)
        } else if value == 3 {
            Some(InventoryType::Shoulders)
        } else if value == 4 {
            Some(InventoryType::Body)
        } else if value == 5 {
            Some(InventoryType::Chest)
        } else if value == 6 {
            Some(InventoryType::Waist)
        } else if value == 7 {
            Some(InventoryType::Legs)
        } else if value == 8 {
            Some(InventoryType::Feet)
        } else if value == 9 {
            Some(InventoryType::Wrists)
        } else if value == 10 {
            Some(InventoryType::Hands)
        } else if value == 11 {
            Some(InventoryType::Finger)
        } else if value == 12 {
            Some(InventoryType::Trinket)
        } else if value == 13 {
            Some(InventoryType::Weapon)
        } else if value == 14 {
            Some(InventoryType::Shield)
        } else if value == 15 {
            Some(InventoryType::Ranged)
        } else if value == 16 {
            Some(InventoryType::Cloak)
        } else if value == 17 {
            Some(InventoryType::TwoHandedWeapon)
        } else if value == 18 {
            Some(InventoryType::Bag)
        } else if value == 19 {
            Some(InventoryType::Tabard)
        } else if value == 20 {
            Some(InventoryType::Robe)
        } else if value == 21 {
            Some(InventoryType::WeaponMainHand)
        } else if value == 22 {
            Some(InventoryType::WeaponOffHand)
        } else if value == 23 {
            Some(InventoryType::Holdable)
        } else if value == 24 {
            Some(InventoryType::Ammo)
        } else if value == 25 {
            Some(InventoryType::Thrown)
        } else if value == 26 {
            Some(InventoryType::RangedRight)
        } else if value == 27 {
            Some(InventoryType::Quiver)
        } else if value == 28 {
            Some(InventoryType::Relic)
        } else {
            None
        }
    }

    /// The number the protocol uses for this variant.
    pub fn as_int(&self) -> (r: u8)
        ensures
            r == self.spec_as_int(),
    {
        match self {
            InventoryType::NonEquip => 0,
            InventoryType::Head => 1,
            InventoryType::Neck => 2,
            InventoryType::Shoulders => 3,
            InventoryType::Body => 4,
            InventoryType::Chest => 5,
            InventoryType::Waist => 6,
            InventoryType::Legs => 7,
            InventoryType::Feet => 8,
            InventoryType::Wrists => 9,
            InventoryType::Hands => 10,
            InventoryType::Finger => 11,
            InventoryType::Trinket => 12,
            InventoryType::Weapon => 13,
            InventoryType::Shield => 14,
            InventoryType::Ranged => 15,
            InventoryType::Cloak => 16,
            InventoryType::TwoHandedWeapon => 17,
            InventoryType::Bag => 18,
            InventoryType::Tabard => 19,
            InventoryType::Robe => 20,
            InventoryType::WeaponMainHand => 21,
            InventoryType::WeaponOffHand => 22,
            InventoryType::Holdable => 23,
            InventoryType::Ammo => 24,
            InventoryType::Thrown => 25,
            InventoryType::RangedRight => 26,
            InventoryType::Quiver => 27,
            InventoryType::Relic => 28,
        }
    }

    /// The variant a number stands for; an error for any other number.
    pub fn from_int(value: u8) -> (r: Result<InventoryType, EnumError>)
        ensures
            r matches Ok(t) ==> Self::spec_from_int(value) == Some(t),
            r matches Err(e) ==> Self::spec_from_int(value) is None && e.value == value as i128,
    {
        match value {
            0 => Ok(InventoryType::NonEquip),
            1 => Ok(InventoryType::Head),
            2 => Ok(InventoryType::Neck),
            3 => Ok(InventoryType::Shoulders),
            4 => Ok(InventoryType::Body),
            5 => Ok(InventoryType::Chest),
            6 => Ok(InventoryType::Waist),
            7 => Ok(InventoryType::Legs),
            8 => Ok(InventoryType::Feet),
            9 => Ok(InventoryType::Wrists),
            10 => Ok(InventoryType::Hands),
            11 => Ok(InventoryType::Finger),
            12 => Ok(InventoryType::Trinket),
            13 => Ok(InventoryType::Weapon),
            14 => Ok(InventoryType::Shield),
            15 => Ok(InventoryType::Ranged),
            16 => Ok(InventoryType::Cloak),
            17 => Ok(InventoryType::TwoHandedWeapon),
            18 => Ok(InventoryType::Bag),
            19 => Ok(InventoryType::Tabard),
            20 => Ok(InventoryType::Robe),
            21 => Ok(InventoryType::WeaponMainHand),
            22 => Ok(InventoryType::WeaponOffHand),
            23 => Ok(InventoryType::Holdable),
            24 => Ok(InventoryType::Ammo),
            25 => Ok(InventoryType::Thrown),
            26 => Ok(InventoryType::RangedRight),
            27 => Ok(InventoryType::Quiver),
            28 => Ok(InventoryType::Relic),
            v => Err(EnumError { name: "InventoryType", value: v as i128 }),
        }
    }
}

/// Reading back the number of a variant gives the variant.
pub proof fn lemma_inventory_type_int_roundtrip(t: InventoryType)
    ensures
        InventoryType::spec_from_int(t.spec_as_int()) == Some(t),
{
}

/// A character race.
#[derive(PartialEq, Eq, Structural, Clone, Copy, Debug)]
pub enum Race {
    Human,
    Orc,
    Dwarf,
    NightElf,
    Undead,
    Tauren,
    Gnome,
    Troll,
    Goblin,
    BloodElf,
    Draenei,
    FelOrc,
    Naga,
    Broken,
    Skeleton,
    Vrykul,
    Tuskarr,
    ForestTroll,
    Taunka,
    NorthrendSkeleton,
    IceTroll,
}

impl Race {
    /// The number the protocol uses for each variant.
    pub open spec fn spec_as_int(self) -> u8 {
        match self {
            Race::Human => 1,
            Race::Orc => 2,
            Race::Dwarf => 3,
            Race::NightElf => 4,
            Race::Undead => 5,
            Race::Tauren => 6,
            Race::Gnome => 7,
            Race::Troll => 8,
            Race::Goblin => 9,
            Race::BloodElf => 10,
            Race::Draenei => 11,
            Race::FelOrc => 12,
            Race::Naga => 13,
            Race::Broken => 14,
            Race::Skeleton => 15,
            Race::Vrykul => 16,
            Race::Tuskarr => 17,
            Race::ForestTroll => 18,
            Race::Taunka => 19,
            Race::NorthrendSkeleton => 20,
            Race::IceTroll => 21,
        }
    }

    /// The variant a number stands for, if any.
    pub open spec fn spec_from_int(value: u8) -> Option<Race> {
        if value == 1 {
            Some(Race::Human)
        } else if value == 2 {
            Some(Race::Orc)
        } else if value == 3 {
            Some(Race::Dwarf)
        } else if value == 4 {
            Some(Race::NightElf)
        } else if value == 5 {
            Some(Race::Undead)
        } else if value == 6 {
            Some(Race::Tauren)
        } else if value == 7 {
            Some(Race::Gnome)
        } else if value == 8 {
            Some(Race::Troll)
        } else if value == 9 {
            Some(Race::Goblin)
        } else if value == 10 {
            Some(Race::BloodElf)
        } else if value == 11 {
            Some(Race::Draenei)
        } else if value == 12 {
            Some(Race::FelOrc)
        } else if value == 13 {
            Some(Race::Naga)
        } else if value == 14 {
            Some(Race::Broken)
        } else if value == 15 {
            Some(Race::Skeleton)
        } else if value == 16 {
            Some(Race::Vrykul)
        } else if value == 17 {
            Some(Race::Tuskarr)
        } else if value == 18 {
            Some(Race::ForestTroll)
        } else if value == 19 {
            Some(Race::Taunka)
        } else if value == 20 {
            Some(Race::NorthrendSkeleton)
        } else if value == 21 {
            Some(Race::IceTroll)
        } else {
            None
        }
    }

    /// The number the protocol uses for this variant.
    pub fn as_int(&self) -> (r: u8)
        ensures
            r == self.spec_as_int(),
    {
        match self {
            Race::Human => 1,
            Race::Orc => 2,
            Race::Dwarf => 3,
            Race::NightElf => 4,
            Race::Undead => 5,
            Race::Tauren => 6,
            Race::Gnome => 7,
            Race::Troll => 8,
            Race::Goblin => 9,
            Race::BloodElf => 10,
            Race::Draenei => 11,
            Race::FelOrc => 12,
            Race::Naga => 13,
            Race::Broken => 14,
            Race::Skeleton => 15,
            Race::Vrykul => 16,
            Race::Tuskarr => 17,
            Race::ForestTroll => 18,
            Race::Taunka => 19,
            Race::NorthrendSkeleton => 20,
            Race::IceTroll => 21,
        }
    }

    /// The variant a number stands for; an error for any other number.
    pub fn from_int(value: u8) -> (r: Result<Race, EnumError>)
        ensures
            r matches Ok(t) ==> Self::spec_from_int(value) == Some(t),
            r matches Err(e) ==> Self::spec_from_int(value) is None && e.value == value as i128,
    {
        match value {
            1 => Ok(Race::Human),
            2 => Ok(Race::Orc),
            3 => Ok(Race::Dwarf),
            4 => Ok(Race::NightElf),
            5 => Ok(Race::Undead),
            6 => Ok(Race::Tauren),
            7 => Ok(Race::Gnome),
            8 => Ok(Race::Troll),
            9 => Ok(Race::Goblin),
            10 => Ok(Race::BloodElf),
            11 => Ok(Race::Draenei),
            12 => Ok(Race::FelOrc),
            13 => Ok(Race::Naga),
            14 => Ok(Race::Broken),
            15 => Ok(Race::Skeleton),
            16 => Ok(Race::Vrykul),
            17 => Ok(Race::Tuskarr),
            18 => Ok(Race::ForestTroll),
            19 => Ok(Race::Taunka),
            20 => Ok(Race::NorthrendSkeleton),
            21 => Ok(Race::IceTroll),
            v => Err(EnumError { name: "Race", value: v as i128 }),
        }
    }
}

/// Reading back the number of a variant gives the variant.
pub proof fn lemma_race_int_roundtrip(t: Race)
    ensures
        Race::spec_from_int(t.spec_as_int()) == Some(t),
{
}

/// A character class.
#[derive(PartialEq, Eq, Structural, Clone, Copy, Debug)]
pub enum Class {
    Warrior,
    Paladin,
    Hunter,
    Rogue,
    Priest,
    DeathKnight,
    Shaman,
    Mage,
    Warlock,
    Druid,
}

impl Class {
    /// The number the protocol uses for each variant.
    pub open spec fn spec_as_int(self) -> u8 {
        match self {
            Class::Warrior => 1,
            Class::Paladin => 2,
            Class::Hunter => 3,
            Class::Rogue => 4,
            Class::Priest => 5,
            Class::DeathKnight => 6,
            Class::Shaman => 7,
            Class::Mage => 8,
            Class::Warlock => 9,
            Class::Druid => 11,
        }
    }

    /// The variant a number stands for, if any.
    pub open spec fn spec_from_int(value: u8) -> Option<Class> {
        if value == 1 {
            Some(Class::Warrior)
        } else if value == 2 {
            Some(Class::Paladin)
        } else if value == 3 {
            Some(Class::Hunter)
        } else if value == 4 {
            Some(Class::Rogue)
        } else if value == 5 {
            Some(Class::Priest)
        } else if value == 6 {
            Some(Class::DeathKnight)
        } else if value == 7 {
            Some(Class::Shaman)
        } else if value == 8 {
            Some(Class::Mage)
        } else if value == 9 {
            Some(Class::Warlock)
        } else if value == 11 {
            Some(Class::Druid)
        } else {
            None
        }
    }

    /// The number the protocol uses for this variant.
    pub fn as_int(&self) -> (r: u8)
        ensures
            r == self.spec_as_int(),
    {
        match self {
            Class::Warrior => 1,
            Class::Paladin => 2,
            Class::Hunter => 3,
            Class::Rogue => 4,
            Class::Priest => 5,
            Class::DeathKnight => 6,
            Class::Shaman => 7,
            Class::Mage => 8,
            Class::Warlock => 9,
            Class::Druid => 11,
        }
    }

    /// The variant a number stands for; an error for any other number.
    pub fn from_int(value: u8) -> (r: Result<Class, EnumError>)
        ensures
            r matches Ok(t) ==> Self::spec_from_int(value) == Some(t),
            r matches Err(e) ==> Self::spec_from_int(value) is None && e.value == value as i128,
    {
        match value {
            1 => Ok(Class::Warrior),
            2 => Ok(Class::Paladin),
            3 => Ok(Class::Hunter),
            4 => Ok(Class::Rogue),
            5 => Ok(Class::Priest),
            6 => Ok(Class::DeathKnight),
            7 => Ok(Class::Shaman),
            8 => Ok(Class::Mage),
            9 => Ok(Class::Warlock),
            11 => Ok(Class::Druid),
            v => Err(EnumError { name: "Class", value: v as i128 }),
        }
    }
}

/// Reading back the number of a variant gives the variant.
pub proof fn lemma_class_int_roundtrip(t: Class)
    ensures
        Class::spec_from_int(t.spec_as_int()) == Some(t),
{
}

/// A character gender.
#[derive(PartialEq, Eq, Structural, Clone, Copy, Debug)]
pub enum Gender {
    Male,
    Female,
    NoGender,
}

impl Gender {
    /// The number the protocol uses for each variant.
    pub open spec fn spec_as_int(self) -> u8 {
        match self {
            Gender::Male => 0,
            Gender::Female => 1,
            Gender::NoGender => 2,
        }
    }

    /// The variant a number stands for, if any.
    pub open spec fn spec_from_int(value: u8) -> Option<Gender> {
        if value == 0 {
            Some(Gender::Male)
        } else if value == 1 {
            Some(Gender::Female)
        } else if value == 2 {
            Some(Gender::NoGender)
        } else {
            None
        }
    }

    /// The number the protocol uses for this variant.
    pub fn as_int(&self) -> (r: u8)
        ensures
            r == self.spec_as_int(),
    {
        match self {
            Gender::Male => 0,
            Gender::Female => 1,
            Gender::NoGender => 2,
        }
    }

    /// The variant a number stands for; an error for any other number.
    pub fn from_int(value: u8) -> (r: Result<Gender, EnumError>)
        ensures
            r matches Ok(t) ==> Self::spec_from_int(value) == Some(t),
            r matches Err(e) ==> Self::spec_from_int(value) is None && e.value == value as i128,
    {
        match value {
            0 => Ok(Gender::Male),
            1 => Ok(Gender::Female),
            2 => Ok(Gender::NoGender),
            v => Err(EnumError { name: "Gender", value: v as i128 }),
        }
    }
}

/// Reading back the number of a variant gives the variant.
pub proof fn lemma_gender_int_roundtrip(t: Gender)
    ensures
        Gender::spec_from_int(t.spec_as_int()) == Some(t),
{
}

/// A cinematic the client can play.
#[derive(PartialEq, Eq, Structural, Clone, Copy, Debug)]
pub enum CinematicSequenceId {
    Goblin,
    PalantirOfAzora,
    Undead,
    Orc,
    Dwarf,
    NightElf,
    Human,
    Gnome,
    Troll,
    Tauren,
    ScryCam,
    BloodElf,
    Draenei,
    SunwellFiveMan,
    DeathKnight,
}

impl CinematicSequenceId {
    /// The number the protocol uses for each variant.
    pub open spec fn spec_as_int(self) -> u32 {
        match self {
            CinematicSequenceId::Goblin => 0,
            CinematicSequenceId::PalantirOfAzora => 1,
            CinematicSequenceId::Undead => 2,
            CinematicSequenceId::Orc => 21,
            CinematicSequenceId::Dwarf => 41,
            CinematicSequenceId::NightElf => 61,
            CinematicSequenceId::Human => 81,
            CinematicSequenceId::Gnome => 101,
            CinematicSequenceId::Troll => 121,
            CinematicSequenceId::Tauren => 141,
            CinematicSequenceId::ScryCam => 161,
            CinematicSequenceId::BloodElf => 162,
            CinematicSequenceId::Draenei => 163,
            CinematicSequenceId::SunwellFiveMan => 164,
            CinematicSequenceId::DeathKnight => 165,
        }
    }

    /// The variant a number stands for, if any.
    pub open spec fn spec_from_int(value: u32) -> Option<CinematicSequenceId> {
        if value == 0 {
            Some(CinematicSequenceId::Goblin)
        } else if value == 1 {
            Some(CinematicSequenceId::PalantirOfAzora)
        } else if value == 2 {
            Some(CinematicSequenceId::Undead)
        } else if value == 21 {
            Some(CinematicSequenceId::Orc)
        } else if value == 41 {
            Some(CinematicSequenceId::Dwarf)
        } else if value == 61 {
            Some(CinematicSequenceId::NightElf)
        } else if value == 81 {
            Some(CinematicSequenceId::Human)
        } else if value == 101 {
            Some(CinematicSequenceId::Gnome)
        } else if value == 121 {
            Some(CinematicSequenceId::Troll)
        } else if value == 141 {
            Some(CinematicSequenceId::Tauren)
        } else if value == 161 {
            Some(CinematicSequenceId::ScryCam)
        } else if value == 162 {
            Some(CinematicSequenceId::BloodElf)
        } else if value == 163 {
            Some(CinematicSequenceId::Draenei)
        } else if value == 164 {
            Some(CinematicSequenceId::SunwellFiveMan)
        } else if value == 165 {
            Some(CinematicSequenceId::DeathKnight)
        } else {
            None
        }
    }

    /// The number the protocol uses for this variant.
    pub fn as_int(&self) -> (r: u32)
        ensures
            r == self.spec_as_int(),
    {
        match self {
            CinematicSequenceId::Goblin => 0,
            CinematicSequenceId::PalantirOfAzora => 1,
            CinematicSequenceId::Undead => 2,
            CinematicSequenceId::Orc => 21,
            CinematicSequenceId::Dwarf => 41,
            CinematicSequenceId::NightElf => 61,
            CinematicSequenceId::Human => 81,
            CinematicSequenceId::Gnome => 101,
            CinematicSequenceId::Troll => 121,
            CinematicSequenceId::Tauren => 141,
            CinematicSequenceId::ScryCam => 161,
            CinematicSequenceId::BloodElf => 162,
            CinematicSequenceId::Draenei => 163,
            CinematicSequenceId::SunwellFiveMan => 164,
            CinematicSequenceId::DeathKnight => 165,
        }
    }

    /// The variant a number stands for; an error for any other number.
    pub fn from_int(value: u32) -> (r: Result<CinematicSequenceId, EnumError>)
        ensures
            r matches Ok(t) ==> Self::spec_from_int(value) == Some(t),
            r matches Err(e) ==> Self::spec_from_int(value) is None && e.value == value as i128,
    {
        match value {
            0 => Ok(CinematicSequenceId::Goblin),
            1 => Ok(CinematicSequenceId::PalantirOfAzora),
            2 => Ok(CinematicSequenceId::Undead),
            21 => Ok(CinematicSequenceId::Orc),
            41 => Ok(CinematicSequenceId::Dwarf),
            61 => Ok(CinematicSequenceId::NightElf),
            81 => Ok(CinematicSequenceId::Human),
            101 => Ok(CinematicSequenceId::Gnome),
            121 => Ok(CinematicSequenceId::Troll),
            141 => Ok(CinematicSequenceId::Tauren),
            161 => Ok(CinematicSequenceId::ScryCam),
            162 => Ok(CinematicSequenceId::BloodElf),
            163 => Ok(CinematicSequenceId::Draenei),
            164 => Ok(CinematicSequenceId::SunwellFiveMan),
            165 => Ok(CinematicSequenceId::DeathKnight),
            v => Err(EnumError { name: "CinematicSequenceId", value: v as i128 }),
        }
    }
}

/// Reading back the number of a variant gives the variant.
pub proof fn lemma_cinematic_sequence_id_int_roundtrip(t: CinematicSequenceId)
    ensures
        CinematicSequenceId::spec_from_int(t.spec_as_int()) == Some(t),
{
}

/// The answer to a logout request.
#[derive(PartialEq, Eq, Structural, Clone, Copy, Debug)]
pub enum LogoutResult {
    Success,
    FailureInCombat,
    FailureFrozenByGm,
    FailureJumpingOrFalling,
}

impl LogoutResult {
    /// The number the protocol uses for each variant.
    pub open spec fn spec_as_int(self) -> u32 {
        match self {
            LogoutResult::Success => 0,
            LogoutResult::FailureInCombat => 1,
            LogoutResult::FailureFrozenByGm => 2,
            LogoutResult::FailureJumpingOrFalling => 3,
        }
    }

    /// The variant a number stands for, if any.
    pub open spec fn spec_from_int(value: u32) -> Option<LogoutResult> {
        if value == 0 {
            Some(LogoutResult::Success)
        } else if value == 1 {
            Some(LogoutResult::FailureInCombat)
        } else if value == 2 {
            Some(LogoutResult::FailureFrozenByGm)
        } else if value == 3 {
            Some(LogoutResult::FailureJumpingOrFalling)
        } else {
            None
        }
    }

    /// The number the protocol uses for this variant.
    pub fn as_int(&self) -> (r: u32)
        ensures
            r == self.spec_as_int(),
    {
        match self {
            LogoutResult::Success => 0,
            LogoutResult::FailureInCombat => 1,
            LogoutResult::FailureFrozenByGm => 2,
            LogoutResult::FailureJumpingOrFalling => 3,
        }
    }

    /// The variant a number stands for; an error for any other number.
    pub fn from_int(value: u32) -> (r: Result<LogoutResult, EnumError>)
        ensures
            r matches Ok(t) ==> Self::spec_from_int(value) == Some(t),
            r matches Err(e) ==> Self::spec_from_int(value) is None && e.value == value as i128,
    {
        match value {
            0 => Ok(LogoutResult::Success),
            1 => Ok(LogoutResult::FailureInCombat),
            2 => Ok(LogoutResult::FailureFrozenByGm),
            3 => Ok(LogoutResult::FailureJumpingOrFalling),
            v => Err(EnumError { name: "LogoutResult", value: v as i128 }),
        }
    }
}

/// Reading back the number of a variant gives the variant.
pub proof fn lemma_logout_result_int_roundtrip(t: LogoutResult)
    ensures
        LogoutResult::spec_from_int(t.spec_as_int()) == Some(t),
{
}

/// Whether a logout happens at once or after a delay.
#[derive(PartialEq, Eq, Structural, Clone, Copy, Debug)]
pub enum LogoutSpeed {
    Delayed,
    Instant,
}

impl LogoutSpeed {
    /// The number the protocol uses for each variant.
    pub open spec fn spec_as_int(self) -> u8 {
        match self {
            LogoutSpeed::Delayed => 0,
            LogoutSpeed::Instant => 1,
        }
    }

    /// The variant a number stands for, if any.
    pub open spec fn spec_from_int(value: u8) -> Option<LogoutSpeed> {
        if value == 0 {
            Some(LogoutSpeed::Delayed)
        } else if value == 1 {
            Some(LogoutSpeed::Instant)
        } else {
            None
        }
    }

    /// The number the protocol uses for this variant.
    pub fn as_int(&self) -> (r: u8)
        ensures
            r == self.spec_as_int(),
    {
        match self {
            LogoutSpeed::Delayed => 0,
            LogoutSpeed::Instant => 1,
        }
    }

    /// The variant a number stands for; an error for any other number.
    pub fn from_int(value: u8) -> (r: Result<LogoutSpeed, EnumError>)
        ensures
            r matches Ok(t) ==> Self::spec_from_int(value) == Some(t),
            r matches Err(e) ==> Self::spec_from_int(value) is None && e.value == value as i128,
    {
        match value {
            0 => Ok(LogoutSpeed::Delayed),
            1 => Ok(LogoutSpeed::Instant),
            v => Err(EnumError { name: "LogoutSpeed", value: v as i128 }),
        }
    }
}

/// Reading back the number of a variant gives the variant.
pub proof fn lemma_logout_speed_int_roundtrip(t: LogoutSpeed)
    ensures
        LogoutSpeed::spec_from_int(t.spec_as_int()) == Some(t),
{
}

} // verus!
