//! Indices of the update fields of each object type (client build 3.3.5
//! 12340). Each type's fields follow those of the type it extends.

use vstd::prelude::*;

verus! {

/// Update-field indices shared by every object.
#[allow(non_camel_case_types)]
#[derive(PartialEq, Eq, Structural, Clone, Copy, Debug)]
pub enum ObjectFields {
    LowGuid, // Size: 2, Type: Long, Flags: Public
    HighGuid, //Not auto-generated, inserted that myself
    Type, // Size: 1, Type: Int, Flags: Public
    Entry, // Size: 1, Type: Int, Flags: Public
    Scale, // Size: 1, Type: Float, Flags: Public
    Padding, // Size: 1, Type: Int, Flags: None
    End, //(ObjectFields::End as isize) = 0x0006
}

impl ObjectFields {
    /// The number the protocol uses for each variant.
    pub open spec fn spec_index(self) -> u32 {
        match self {
            ObjectFields::LowGuid => 0x0000,
            ObjectFields::HighGuid => 0x0001,
            ObjectFields::Type => 0x0002,
            ObjectFields::Entry => 0x0003,
            ObjectFields::Scale => 0x0004,
            ObjectFields::Padding => 0x0005,
            ObjectFields::End => 0x0006,
        }
    }

    /// The number the protocol uses for this variant.
    pub fn index(&self) -> (r: u32)
        ensures
            r == self.spec_index(),
    {
        match self {
            ObjectFields::LowGuid => 0x0000,
            ObjectFields::HighGuid => 0x0001,
            ObjectFields::Type => 0x0002,
            ObjectFields::Entry => 0x0003,
            ObjectFields::Scale => 0x0004,
            ObjectFields::Padding => 0x0005,
            ObjectFields::End => 0x0006,
        }
    }
}

/// Update-field indices of an item, after the object fields.
#[allow(non_camel_case_types)]
#[derive(PartialEq, Eq, Structural, Clone, Copy, Debug)]
pub enum ItemFields {
    Owner, // Size: 2, Type: Long, Flags: Public
    Contained, // Size: 2, Type: Long, Flags: Public
    Creator, // Size: 2, Type: Long, Flags: Public
    Giftcreator, // Size: 2, Type: Long, Flags: Public
    StackCount, // Size: 1, Type: Int, Flags: Owner, ItemOwner
    Duration, // Size: 1, Type: Int, Flags: Owner, ItemOwner
    SpellCharges, // Size: 5, Type: Int, Flags: Owner, ItemOwner
    Flags, // Size: 1, Type: Int, Flags: Public
    Enchantment_1_1, // Size: 2, Type: Int, Flags: Public
    Enchantment_1_3, // Size: 1, Type: TwoShort, Flags: Public
    Enchantment_2_1, // Size: 2, Type: Int, Flags: Public
    Enchantment_2_3, // Size: 1, Type: TwoShort, Flags: Public
    Enchantment_3_1, // Size: 2, Type: Int, Flags: Public
    Enchantment_3_3, // Size: 1, Type: TwoShort, Flags: Public
    Enchantment_4_1, // Size: 2, Type: Int, Flags: Public
    Enchantment_4_3, // Size: 1, Type: TwoShort, Flags: Public
    Enchantment_5_1, // Size: 2, Type: Int, Flags: Public
    Enchantment_5_3, // Size: 1, Type: TwoShort, Flags: Public
    Enchantment_6_1, // Size: 2, Type: Int, Flags: Public
    Enchantment_6_3, // Size: 1, Type: TwoShort, Flags: Public
    Enchantment_7_1, // Size: 2, Type: Int, Flags: Public
    Enchantment_7_3, // Size: 1, Type: TwoShort, Flags: Public
    Enchantment_8_1, // Size: 2, Type: Int, Flags: Public
    Enchantment_8_3, // Size: 1, Type: TwoShort, Flags: Public
    Enchantment_9_1, // Size: 2, Type: Int, Flags: Public
    Enchantment_9_3, // Size: 1, Type: TwoShort, Flags: Public
    Enchantment_10_1, // Size: 2, Type: Int, Flags: Public
    Enchantment_10_3, // Size: 1, Type: TwoShort, Flags: Public
    Enchantment_11_1, // Size: 2, Type: Int, Flags: Public
    Enchantment_11_3, // Size: 1, Type: TwoShort, Flags: Public
    Enchantment_12_1, // Size: 2, Type: Int, Flags: Public
    Enchantment_12_3, // Size: 1, Type: TwoShort, Flags: Public
    PropertySeed, // Size: 1, Type: Int, Flags: Public
    RandomPropertiesId, // Size: 1, Type: Int, Flags: Public
    Durability, // Size: 1, Type: Int, Flags: Owner, ItemOwner
    Maxdurability, // Size: 1, Type: Int, Flags: Owner, ItemOwner
    CreatePlayedTime, // Size: 1, Type: Int, Flags: Public
    Pad, // Size: 1, Type: Int, Flags: None
    End,
}

impl ItemFields {
    /// The number the protocol uses for each variant.
    pub open spec fn spec_index(self) -> u32 {
        match self {
            ItemFields::Owner => 6,
            ItemFields::Contained => 8,
            ItemFields::Creator => 10,
            ItemFields::Giftcreator => 12,
            ItemFields::StackCount => 14,
            ItemFields::Duration => 15,
            ItemFields::SpellCharges => 16,
            ItemFields::Flags => 21,
            ItemFields::Enchantment_1_1 => 22,
            ItemFields::Enchantment_1_3 => 24,
            ItemFields::Enchantment_2_1 => 25,
            ItemFields::Enchantment_2_3 => 27,
            ItemFields::Enchantment_3_1 => 28,
            ItemFields::Enchantment_3_3 => 30,
            ItemFields::Enchantment_4_1 => 31,
            ItemFields::Enchantment_4_3 => 33,
            ItemFields::Enchantment_5_1 => 34,
            ItemFields::Enchantment_5_3 => 36,
            ItemFields::Enchantment_6_1 => 37,
            ItemFields::Enchantment_6_3 => 39,
            ItemFields::Enchantment_7_1 => 40,
            ItemFields::Enchantment_7_3 => 42,
            ItemFields::Enchantment_8_1 => 43,
            ItemFields::Enchantment_8_3 => 45,
            ItemFields::Enchantment_9_1 => 46,
            ItemFields::Enchantment_9_3 => 48,
            ItemFields::Enchantment_10_1 => 49,
            ItemFields::Enchantment_10_3 => 51,
            ItemFields::Enchantment_11_1 => 52,
            ItemFields::Enchantment_11_3 => 54,
            ItemFields::Enchantment_12_1 => 55,
            ItemFields::Enchantment_12_3 => 57,
            ItemFields::PropertySeed => 58,
            ItemFields::RandomPropertiesId => 59,
            ItemFields::Durability => 60,
            ItemFields::Maxdurability => 61,
            ItemFields::CreatePlayedTime => 62,
            ItemFields::Pad => 63,
            ItemFields::End => 64,
        }
    }

    /// The number the protocol uses for this variant.
    pub fn index(&self) -> (r: u32)
        ensures
            r == self.spec_index(),
    {
        match self {
            ItemFields::Owner => 6 + 0x0000,
            ItemFields::Contained => 6 + 0x0002,
            ItemFields::Creator => 6 + 0x0004,
            ItemFields::Giftcreator => 6 + 0x0006,
            ItemFields::StackCount => 6 + 0x0008,
            ItemFields::Duration => 6 + 0x0009,
            ItemFields::SpellCharges => 6 + 0x000A,
            ItemFields::Flags => 6 + 0x000F,
            ItemFields::Enchantment_1_1 => 6 + 0x0010,
            ItemFields::Enchantment_1_3 => 6 + 0x0012,
            ItemFields::Enchantment_2_1 => 6 + 0x0013,
            ItemFields::Enchantment_2_3 => 6 + 0x0015,
            ItemFields::Enchantment_3_1 => 6 + 0x0016,
            ItemFields::Enchantment_3_3 => 6 + 0x0018,
            ItemFields::Enchantment_4_1 => 6 + 0x0019,
            ItemFields::Enchantment_4_3 => 6 + 0x001B,
            ItemFields::Enchantment_5_1 => 6 + 0x001C,
            ItemFields::Enchantment_5_3 => 6 + 0x001E,
            ItemFields::Enchantment_6_1 => 6 + 0x001F,
            ItemFields::Enchantment_6_3 => 6 + 0x0021,
            ItemFields::Enchantment_7_1 => 6 + 0x0022,
            ItemFields::Enchantment_7_3 => 6 + 0x0024,
            ItemFields::Enchantment_8_1 => 6 + 0x0025,
            ItemFields::Enchantment_8_3 => 6 + 0x0027,
            ItemFields::Enchantment_9_1 => 6 + 0x0028,
            ItemFields::Enchantment_9_3 => 6 + 0x002A,
            ItemFields::Enchantment_10_1 => 6 + 0x002B,
            ItemFields::Enchantment_10_3 => 6 + 0x002D,
            ItemFields::Enchantment_11_1 => 6 + 0x002E,
            ItemFields::Enchantment_11_3 => 6 + 0x0030,
            ItemFields::Enchantment_12_1 => 6 + 0x0031,
            ItemFields::Enchantment_12_3 => 6 + 0x0033,
            ItemFields::PropertySeed => 6 + 0x0034,
            ItemFields::RandomPropertiesId => 6 + 0x0035,
            ItemFields::Durability => 6 + 0x0036,
            ItemFields::Maxdurability => 6 + 0x0037,
            ItemFields::CreatePlayedTime => 6 + 0x0038,
            ItemFields::Pad => 6 + 0x0039,
            ItemFields::End => 6 + 0x003A,
        }
    }
}

/// Update-field indices of a container, after the item fields.
#[allow(non_camel_case_types)]
#[derive(PartialEq, Eq, Structural, Clone, Copy, Debug)]
pub enum ContainerFields {
    NumSlots, // Size: 1, Type: Int, Flags: Public
    ContainerAlignPad, // Size: 1, Type: Bytes, Flags: None
    Slot1, // Size: 72, Type: Long, Flags: Public
    ContainerEnd,
}

impl ContainerFields {
    /// The number the protocol uses for each variant.
    pub open spec fn spec_index(self) -> u32 {
        match self {
            ContainerFields::NumSlots => 64,
            ContainerFields::ContainerAlignPad => 65,
            ContainerFields::Slot1 => 66,
            ContainerFields::ContainerEnd => 138,
        }
    }

    /// The number the protocol uses for this variant.
    pub fn index(&self) -> (r: u32)
        ensures
            r == self.spec_index(),
    {
        match self {
            ContainerFields::NumSlots => 0x40 + 0x0000,
            ContainerFields::ContainerAlignPad => 0x40 + 0x0001,
            ContainerFields::Slot1 => 0x40 + 0x0002,
            ContainerFields::ContainerEnd => 0x40 + 0x004A,
        }
    }
}

/// Update-field indices of a unit, after the object fields.
#[allow(non_camel_case_types)]
#[derive(PartialEq, Eq, Structural, Clone, Copy, Debug)]
pub enum UnitFields {
    Charm, // Size: 2, Type: Long, Flags: Public
    Summon, // Size: 2, Type: Long, Flags: Public
    Critter, // Size: 2, Type: Long, Flags: Private
    Charmedby, // Size: 2, Type: Long, Flags: Public
    Summonedby, // Size: 2, Type: Long, Flags: Public
    Createdby, // Size: 2, Type: Long, Flags: Public
    Target, // Size: 2, Type: Long, Flags: Public
    ChannelObject, // Size: 2, Type: Long, Flags: Public
    UnitChannelSpell, // Size: 1, Type: Int, Flags: Public
    UnitBytes0, // Size: 1, Type: Bytes, Flags: Public
    Health, // Size: 1, Type: Int, Flags: Public
    Power1, // Size: 1, Type: Int, Flags: Public
    Power2, // Size: 1, Type: Int, Flags: Public
    Power3, // Size: 1, Type: Int, Flags: Public
    Power4, // Size: 1, Type: Int, Flags: Public
    Power5, // Size: 1, Type: Int, Flags: Public
    Power6, // Size: 1, Type: Int, Flags: Public
    Power7, // Size: 1, Type: Int, Flags: Public
    Maxhealth, // Size: 1, Type: Int, Flags: Public
    Maxpower1, // Size: 1, Type: Int, Flags: Public
    Maxpower2, // Size: 1, Type: Int, Flags: Public
    Maxpower3, // Size: 1, Type: Int, Flags: Public
    Maxpower4, // Size: 1, Type: Int, Flags: Public
    Maxpower5, // Size: 1, Type: Int, Flags: Public
    Maxpower6, // Size: 1, Type: Int, Flags: Public
    Maxpower7, // Size: 1, Type: Int, Flags: Public
    PowerRegenFlatModifier, // Size: 7, Type: Float, Flags: Private, Owner
    PowerRegenInterruptedFlatModifier, // Size: 7, Type: Float, Flags: Private, Owner
    Level, // Size: 1, Type: Int, Flags: Public
    Factiontemplate, // Size: 1, Type: Int, Flags: Public
    UnitVirtualItemSlotId, // Size: 3, Type: Int, Flags: Public
    UnitFlags, // Size: 1, Type: Int, Flags: Public
    UnitFlags2, // Size: 1, Type: Int, Flags: Public
    Aurastate, // Size: 1, Type: Int, Flags: Public
    Baseattacktime, // Size: 2, Type: Int, Flags: Public
    Rangedattacktime, // Size: 1, Type: Int, Flags: Private
    Boundingradius, // Size: 1, Type: Float, Flags: Public
    Combatreach, // Size: 1, Type: Float, Flags: Public
    Displayid, // Size: 1, Type: Int, Flags: Public
    Nativedisplayid, // Size: 1, Type: Int, Flags: Public
    Mountdisplayid, // Size: 1, Type: Int, Flags: Public
    Mindamage, // Size: 1, Type: Float, Flags: Private, Owner, PartyLeader
    Maxdamage, // Size: 1, Type: Float, Flags: Private, Owner, PartyLeader
    Minoffhanddamage, // Size: 1, Type: Float, Flags: Private, Owner, PartyLeader
    Maxoffhanddamage, // Size: 1, Type: Float, Flags: Private, Owner, PartyLeader
    UnitBytes1, // Size: 1, Type: Bytes, Flags: Public
    Petnumber, // Size: 1, Type: Int, Flags: Public
    PetNameTimestamp, // Size: 1, Type: Int, Flags: Public
    Petexperience, // Size: 1, Type: Int, Flags: Owner
    Petnextlevelexp, // Size: 1, Type: Int, Flags: Owner
    UnitDynamicFlags, // Size: 1, Type: Int, Flags: Dynamic
    UnitModCastSpeed, // Size: 1, Type: Float, Flags: Public
    UnitCreatedBySpell, // Size: 1, Type: Int, Flags: Public
    UnitNpcFlags, // Size: 1, Type: Int, Flags: Dynamic
    UnitNpcEmotestate, // Size: 1, Type: Int, Flags: Public
    Stat0, // Size: 1, Type: Int, Flags: Private, Owner
    Stat1, // Size: 1, Type: Int, Flags: Private, Owner
    Stat2, // Size: 1, Type: Int, Flags: Private, Owner
    Stat3, // Size: 1, Type: Int, Flags: Private, Owner
    Stat4, // Size: 1, Type: Int, Flags: Private, Owner
    Posstat0, // Size: 1, Type: Int, Flags: Private, Owner
    Posstat1, // Size: 1, Type: Int, Flags: Private, Owner
    Posstat2, // Size: 1, Type: Int, Flags: Private, Owner
    Posstat3, // Size: 1, Type: Int, Flags: Private, Owner
    Posstat4, // Size: 1, Type: Int, Flags: Private, Owner
    Negstat0, // Size: 1, Type: Int, Flags: Private, Owner
    Negstat1, // Size: 1, Type: Int, Flags: Private, Owner
    Negstat2, // Size: 1, Type: Int, Flags: Private, Owner
    Negstat3, // Size: 1, Type: Int, Flags: Private, Owner
    Negstat4, // Size: 1, Type: Int, Flags: Private, Owner
    Resistances, // Size: 7, Type: Int, Flags: Private, Owner, PartyLeader
    Resistancebuffmodspositive, // Size: 7, Type: Int, Flags: Private, Owner
    Resistancebuffmodsnegative, // Size: 7, Type: Int, Flags: Private, Owner
    BaseMana, // Size: 1, Type: Int, Flags: Public
    BaseHealth, // Size: 1, Type: Int, Flags: Private, Owner
    UnitBytes2, // Size: 1, Type: Bytes, Flags: Public
    AttackPower, // Size: 1, Type: Int, Flags: Private, Owner
    AttackPowerMods, // Size: 1, Type: TwoShort, Flags: Private, Owner
    AttackPowerMultiplier, // Size: 1, Type: Float, Flags: Private, Owner
    RangedAttackPower, // Size: 1, Type: Int, Flags: Private, Owner
    RangedAttackPowerMods, // Size: 1, Type: TwoShort, Flags: Private, Owner
    RangedAttackPowerMultiplier, // Size: 1, Type: Float, Flags: Private, Owner
    Minrangeddamage, // Size: 1, Type: Float, Flags: Private, Owner
    Maxrangeddamage, // Size: 1, Type: Float, Flags: Private, Owner
    PowerCostModifier, // Size: 7, Type: Int, Flags: Private, Owner
    PowerCostMultiplier, // Size: 7, Type: Float, Flags: Private, Owner
    Maxhealthmodifier, // Size: 1, Type: Float, Flags: Private, Owner
    Hoverheight, // Size: 1, Type: Float, Flags: Public
    Padding, // Size: 1, Type: Int, Flags: None
    UnitEnd,
}

impl UnitFields {
    /// The number the protocol uses for each variant.
    pub open spec fn spec_index(self) -> u32 {
        match self {
            UnitFields::Charm => 6,
            UnitFields::Summon => 8,
            UnitFields::Critter => 10,
            UnitFields::Charmedby => 12,
            UnitFields::Summonedby => 14,
            UnitFields::Createdby => 16,
            UnitFields::Target => 18,
            UnitFields::ChannelObject => 20,
            UnitFields::UnitChannelSpell => 22,
            UnitFields::UnitBytes0 => 23,
            UnitFields::Health => 24,
            UnitFields::Power1 => 25,
            UnitFields::Power2 => 26,
            UnitFields::Power3 => 27,
            UnitFields::Power4 => 28,
            UnitFields::Power5 => 29,
            UnitFields::Power6 => 30,
            UnitFields::Power7 => 31,
            UnitFields::Maxhealth => 32,
            UnitFields::Maxpower1 => 33,
            UnitFields::Maxpower2 => 34,
            UnitFields::Maxpower3 => 35,
            UnitFields::Maxpower4 => 36,
            UnitFields::Maxpower5 => 37,
            UnitFields::Maxpower6 => 38,
            UnitFields::Maxpower7 => 39,
            UnitFields::PowerRegenFlatModifier => 40,
            UnitFields::PowerRegenInterruptedFlatModifier => 47,
            UnitFields::Level => 54,
            UnitFields::Factiontemplate => 55,
            UnitFields::UnitVirtualItemSlotId => 56,
            UnitFields::UnitFlags => 59,
            UnitFields::UnitFlags2 => 60,
            UnitFields::Aurastate => 61,
            UnitFields::Baseattacktime => 62,
            UnitFields::Rangedattacktime => 64,
            UnitFields::Boundingradius => 65,
            UnitFields::Combatreach => 66,
            UnitFields::Displayid => 67,
            UnitFields::Nativedisplayid => 68,
            UnitFields::Mountdisplayid => 69,
            UnitFields::Mindamage => 70,
            UnitFields::Maxdamage => 71,
            UnitFields::Minoffhanddamage => 72,
            UnitFields::Maxoffhanddamage => 73,
            UnitFields::UnitBytes1 => 74,
            UnitFields::Petnumber => 75,
            UnitFields::PetNameTimestamp => 76,
            UnitFields::Petexperience => 77,
            UnitFields::Petnextlevelexp => 78,
            UnitFields::UnitDynamicFlags => 79,
            UnitFields::UnitModCastSpeed => 80,
            UnitFields::UnitCreatedBySpell => 81,
            UnitFields::UnitNpcFlags => 82,
            UnitFields::UnitNpcEmotestate => 83,
            UnitFields::Stat0 => 84,
            UnitFields::Stat1 => 85,
            UnitFields::Stat2 => 86,
            UnitFields::Stat3 => 87,
            UnitFields::Stat4 => 88,
            UnitFields::Posstat0 => 89,
            UnitFields::Posstat1 => 90,
            UnitFields::Posstat2 => 91,
            UnitFields::Posstat3 => 92,
            UnitFields::Posstat4 => 93,
            UnitFields::Negstat0 => 94,
            UnitFields::Negstat1 => 95,
            UnitFields::Negstat2 => 96,
            UnitFields::Negstat3 => 97,
            UnitFields::Negstat4 => 98,
            UnitFields::Resistances => 99,
            UnitFields::Resistancebuffmodspositive => 106,
            UnitFields::Resistancebuffmodsnegative => 113,
            UnitFields::BaseMana => 120,
            UnitFields::BaseHealth => 121,
            UnitFields::UnitBytes2 => 122,
            UnitFields::AttackPower => 123,
            UnitFields::AttackPowerMods => 124,
            UnitFields::AttackPowerMultiplier => 125,
            UnitFields::RangedAttackPower => 126,
            UnitFields::RangedAttackPowerMods => 127,
            UnitFields::RangedAttackPowerMultiplier => 128,
            UnitFields::Minrangeddamage => 129,
            UnitFields::Maxrangeddamage => 130,
            UnitFields::PowerCostModifier => 131,
            UnitFields::PowerCostMultiplier => 138,
            UnitFields::Maxhealthmodifier => 145,
            UnitFields::Hoverheight => 146,
            UnitFields::Padding => 147,
            UnitFields::UnitEnd => 148,
        }
    }

    /// The number the protocol uses for this variant.
    pub fn index(&self) -> (r: u32)
        ensures
            r == self.spec_index(),
    {
        match self {
            UnitFields::Charm => 6 + 0x0000,
            UnitFields::Summon => 6 + 0x0002,
            UnitFields::Critter => 6 + 0x0004,
            UnitFields::Charmedby => 6 + 0x0006,
            UnitFields::Summonedby => 6 + 0x0008,
            UnitFields::Createdby => 6 + 0x000A,
            UnitFields::Target => 6 + 0x000C,
            UnitFields::ChannelObject => 6 + 0x000E,
            UnitFields::UnitChannelSpell => 6 + 0x0010,
            UnitFields::UnitBytes0 => 6 + 0x0011,
            UnitFields::Health => 6 + 0x0012,
            UnitFields::Power1 => 6 + 0x0013,
            UnitFields::Power2 => 6 + 0x0014,
            UnitFields::Power3 => 6 + 0x0015,
            UnitFields::Power4 => 6 + 0x0016,
            UnitFields::Power5 => 6 + 0x0017,
            UnitFields::Power6 => 6 + 0x0018,
            UnitFields::Power7 => 6 + 0x0019,
            UnitFields::Maxhealth => 6 + 0x001A,
            UnitFields::Maxpower1 => 6 + 0x001B,
            UnitFields::Maxpower2 => 6 + 0x001C,
            UnitFields::Maxpower3 => 6 + 0x001D,
            UnitFields::Maxpower4 => 6 + 0x001E,
            UnitFields::Maxpower5 => 6 + 0x001F,
            UnitFields::Maxpower6 => 6 + 0x0020,
            UnitFields::Maxpower7 => 6 + 0x0021,
            UnitFields::PowerRegenFlatModifier => 6 + 0x0022,
            UnitFields::PowerRegenInterruptedFlatModifier => 6 + 0x0029,
            UnitFields::Level => 6 + 0x0030,
            UnitFields::Factiontemplate => 6 + 0x0031,
            UnitFields::UnitVirtualItemSlotId => 6 + 0x0032,
            UnitFields::UnitFlags => 6 + 0x0035,
            UnitFields::UnitFlags2 => 6 + 0x0036,
            UnitFields::Aurastate => 6 + 0x0037,
            UnitFields::Baseattacktime => 6 + 0x0038,
            UnitFields::Rangedattacktime => 6 + 0x003A,
            UnitFields::Boundingradius => 6 + 0x003B,
            UnitFields::Combatreach => 6 + 0x003C,
            UnitFields::Displayid => 6 + 0x003D,
            UnitFields::Nativedisplayid => 6 + 0x003E,
            UnitFields::Mountdisplayid => 6 + 0x003F,
            UnitFields::Mindamage => 6 + 0x0040,
            UnitFields::Maxdamage => 6 + 0x0041,
            UnitFields::Minoffhanddamage => 6 + 0x0042,
            UnitFields::Maxoffhanddamage => 6 + 0x0043,
            UnitFields::UnitBytes1 => 6 + 0x0044,
            UnitFields::Petnumber => 6 + 0x0045,
            UnitFields::PetNameTimestamp => 6 + 0x0046,
            UnitFields::Petexperience => 6 + 0x0047,
            UnitFields::Petnextlevelexp => 6 + 0x0048,
            UnitFields::UnitDynamicFlags => 6 + 0x0049,
            UnitFields::UnitModCastSpeed => 6 + 0x004A,
            UnitFields::UnitCreatedBySpell => 6 + 0x004B,
            UnitFields::UnitNpcFlags => 6 + 0x004C,
            UnitFields::UnitNpcEmotestate => 6 + 0x004D,
            UnitFields::Stat0 => 6 + 0x004E,
            UnitFields::Stat1 => 6 + 0x004F,
            UnitFields::Stat2 => 6 + 0x0050,
            UnitFields::Stat3 => 6 + 0x0051,
            UnitFields::Stat4 => 6 + 0x0052,
            UnitFields::Posstat0 => 6 + 0x0053,
            UnitFields::Posstat1 => 6 + 0x0054,
            UnitFields::Posstat2 => 6 + 0x0055,
            UnitFields::Posstat3 => 6 + 0x0056,
            UnitFields::Posstat4 => 6 + 0x0057,
            UnitFields::Negstat0 => 6 + 0x0058,
            UnitFields::Negstat1 => 6 + 0x0059,
            UnitFields::Negstat2 => 6 + 0x005A,
            UnitFields::Negstat3 => 6 + 0x005B,
            UnitFields::Negstat4 => 6 + 0x005C,
            UnitFields::Resistances => 6 + 0x005D,
            UnitFields::Resistancebuffmodspositive => 6 + 0x0064,
            UnitFields::Resistancebuffmodsnegative => 6 + 0x006B,
            UnitFields::BaseMana => 6 + 0x0072,
            UnitFields::BaseHealth => 6 + 0x0073,
            UnitFields::UnitBytes2 => 6 + 0x0074,
            UnitFields::AttackPower => 6 + 0x0075,
            UnitFields::AttackPowerMods => 6 + 0x0076,
            UnitFields::AttackPowerMultiplier => 6 + 0x0077,
            UnitFields::RangedAttackPower => 6 + 0x0078,
            UnitFields::RangedAttackPowerMods => 6 + 0x0079,
            UnitFields::RangedAttackPowerMultiplier => 6 + 0x007A,
            UnitFields::Minrangeddamage => 6 + 0x007B,
            UnitFields::Maxrangeddamage => 6 + 0x007C,
            UnitFields::PowerCostModifier => 6 + 0x007D,
            UnitFields::PowerCostMultiplier => 6 + 0x0084,
            UnitFields::Maxhealthmodifier => 6 + 0x008B,
            UnitFields::Hoverheight => 6 + 0x008C,
            UnitFields::Padding => 6 + 0x008D,
            UnitFields::UnitEnd => 6 + 0x008E,
        }
    }
}

/// Update-field indices of a player, after the unit fields.
#[allow(non_camel_case_types)]
#[derive(PartialEq, Eq, Structural, Clone, Copy, Debug)]
pub enum PlayerFields {
    PlayerDuelArbiter, // Size: 2, Type: Long, Flags: Public
    PlayerFlags, // Size: 1, Type: Int, Flags: Public
    PlayerGuildid, // Size: 1, Type: Int, Flags: Public
    PlayerGuildrank, // Size: 1, Type: Int, Flags: Public
    PlayerBytes, // Size: 1, Type: Bytes, Flags: Public
    PlayerBytes2, // Size: 1, Type: Bytes, Flags: Public
    PlayerBytes3, // Size: 1, Type: Bytes, Flags: Public
    PlayerDuelTeam, // Size: 1, Type: Int, Flags: Public
    PlayerGuildTimestamp, // Size: 1, Type: Int, Flags: Public
    PlayerQuestLog_1_1, // Size: 1, Type: Int, Flags: PartyMember
    PlayerQuestLog_1_2, // Size: 1, Type: Int, Flags: Private
    PlayerQuestLog_1_3, // Size: 2, Type: TwoShort, Flags: Private
    PlayerQuestLog_1_4, // Size: 1, Type: Int, Flags: Private
    PlayerQuestLog_2_1, // Size: 1, Type: Int, Flags: PartyMember
    PlayerQuestLog_2_2, // Size: 1, Type: Int, Flags: Private
    PlayerQuestLog_2_3, // Size: 2, Type: TwoShort, Flags: Private
    PlayerQuestLog_2_5, // Size: 1, Type: Int, Flags: Private
    PlayerQuestLog_3_1, // Size: 1, Type: Int, Flags: PartyMember
    PlayerQuestLog_3_2, // Size: 1, Type: Int, Flags: Private
    PlayerQuestLog_3_3, // Size: 2, Type: TwoShort, Flags: Private
    PlayerQuestLog_3_5, // Size: 1, Type: Int, Flags: Private
    PlayerQuestLog_4_1, // Size: 1, Type: Int, Flags: PartyMember
    PlayerQuestLog_4_2, // Size: 1, Type: Int, Flags: Private
    PlayerQuestLog_4_3, // Size: 2, Type: TwoShort, Flags: Private
    PlayerQuestLog_4_5, // Size: 1, Type: Int, Flags: Private
    PlayerQuestLog_5_1, // Size: 1, Type: Int, Flags: PartyMember
    PlayerQuestLog_5_2, // Size: 1, Type: Int, Flags: Private
    PlayerQuestLog_5_3, // Size: 2, Type: TwoShort, Flags: Private
    PlayerQuestLog_5_5, // Size: 1, Type: Int, Flags: Private
    PlayerQuestLog_6_1, // Size: 1, Type: Int, Flags: PartyMember
    PlayerQuestLog_6_2, // Size: 1, Type: Int, Flags: Private
    PlayerQuestLog_6_3, // Size: 2, Type: TwoShort, Flags: Private
    PlayerQuestLog_6_5, // Size: 1, Type: Int, Flags: Private
    PlayerQuestLog_7_1, // Size: 1, Type: Int, Flags: PartyMember
    PlayerQuestLog_7_2, // Size: 1, Type: Int, Flags: Private
    PlayerQuestLog_7_3, // Size: 2, Type: TwoShort, Flags: Private
    PlayerQuestLog_7_5, // Size: 1, Type: Int, Flags: Private
    PlayerQuestLog_8_1, // Size: 1, Type: Int, Flags: PartyMember
    PlayerQuestLog_8_2, // Size: 1, Type: Int, Flags: Private
    PlayerQuestLog_8_3, // Size: 2, Type: TwoShort, Flags: Private
    PlayerQuestLog_8_5, // Size: 1, Type: Int, Flags: Private
    PlayerQuestLog_9_1, // Size: 1, Type: Int, Flags: PartyMember
    PlayerQuestLog_9_2, // Size: 1, Type: Int, Flags: Private
    PlayerQuestLog_9_3, // Size: 2, Type: TwoShort, Flags: Private
    PlayerQuestLog_9_5, // Size: 1, Type: Int, Flags: Private
    PlayerQuestLog_10_1, // Size: 1, Type: Int, Flags: PartyMember
    PlayerQuestLog_10_2, // Size: 1, Type: Int, Flags: Private
    PlayerQuestLog_10_3, // Size: 2, Type: TwoShort, Flags: Private
    PlayerQuestLog_10_5, // Size: 1, Type: Int, Flags: Private
    PlayerQuestLog_11_1, // Size: 1, Type: Int, Flags: PartyMember
    PlayerQuestLog_11_2, // Size: 1, Type: Int, Flags: Private
    PlayerQuestLog_11_3, // Size: 2, Type: TwoShort, Flags: Private
    PlayerQuestLog_11_5, // Size: 1, Type: Int, Flags: Private
    PlayerQuestLog_12_1, // Size: 1, Type: Int, Flags: PartyMember
    PlayerQuestLog_12_2, // Size: 1, Type: Int, Flags: Private
    PlayerQuestLog_12_3, // Size: 2, Type: TwoShort, Flags: Private
    PlayerQuestLog_12_5, // Size: 1, Type: Int, Flags: Private
    PlayerQuestLog_13_1, // Size: 1, Type: Int, Flags: PartyMember
    PlayerQuestLog_13_2, // Size: 1, Type: Int, Flags: Private
    PlayerQuestLog_13_3, // Size: 2, Type: TwoShort, Flags: Private
    PlayerQuestLog_13_5, // Size: 1, Type: Int, Flags: Private
    PlayerQuestLog_14_1, // Size: 1, Type: Int, Flags: PartyMember
    PlayerQuestLog_14_2, // Size: 1, Type: Int, Flags: Private
    PlayerQuestLog_14_3, // Size: 2, Type: TwoShort, Flags: Private
    PlayerQuestLog_14_5, // Size: 1, Type: Int, Flags: Private
    PlayerQuestLog_15_1, // Size: 1, Type: Int, Flags: PartyMember
    PlayerQuestLog_15_2, // Size: 1, Type: Int, Flags: Private
    PlayerQuestLog_15_3, // Size: 2, Type: TwoShort, Flags: Private
    PlayerQuestLog_15_5, // Size: 1, Type: Int, Flags: Private
    PlayerQuestLog_16_1, // Size: 1, Type: Int, Flags: PartyMember
    PlayerQuestLog_16_2, // Size: 1, Type: Int, Flags: Private
    PlayerQuestLog_16_3, // Size: 2, Type: TwoShort, Flags: Private
    PlayerQuestLog_16_5, // Size: 1, Type: Int, Flags: Private
    PlayerQuestLog_17_1, // Size: 1, Type: Int, Flags: PartyMember
    PlayerQuestLog_17_2, // Size: 1, Type: Int, Flags: Private
    PlayerQuestLog_17_3, // Size: 2, Type: TwoShort, Flags: Private
    PlayerQuestLog_17_5, // Size: 1, Type: Int, Flags: Private
    PlayerQuestLog_18_1, // Size: 1, Type: Int, Flags: PartyMember
    PlayerQuestLog_18_2, // Size: 1, Type: Int, Flags: Private
    PlayerQuestLog_18_3, // Size: 2, Type: TwoShort, Flags: Private
    PlayerQuestLog_18_5, // Size: 1, Type: Int, Flags: Private
    PlayerQuestLog_19_1, // Size: 1, Type: Int, Flags: PartyMember
    PlayerQuestLog_19_2, // Size: 1, Type: Int, Flags: Private
    PlayerQuestLog_19_3, // Size: 2, Type: TwoShort, Flags: Private
    PlayerQuestLog_19_5, // Size: 1, Type: Int, Flags: Private
    PlayerQuestLog_20_1, // Size: 1, Type: Int, Flags: PartyMember
    PlayerQuestLog_20_2, // Size: 1, Type: Int, Flags: Private
    PlayerQuestLog_20_3, // Size: 2, Type: TwoShort, Flags: Private
    PlayerQuestLog_20_5, // Size: 1, Type: Int, Flags: Private
    PlayerQuestLog_21_1, // Size: 1, Type: Int, Flags: PartyMember
    PlayerQuestLog_21_2, // Size: 1, Type: Int, Flags: Private
    PlayerQuestLog_21_3, // Size: 2, Type: TwoShort, Flags: Private
    PlayerQuestLog_21_5, // Size: 1, Type: Int, Flags: Private
    PlayerQuestLog_22_1, // Size: 1, Type: Int, Flags: PartyMember
    PlayerQuestLog_22_2, // Size: 1, Type: Int, Flags: Private
    PlayerQuestLog_22_3, // Size: 2, Type: TwoShort, Flags: Private
    PlayerQuestLog_22_5, // Size: 1, Type: Int, Flags: Private
    PlayerQuestLog_23_1, // Size: 1, Type: Int, Flags: PartyMember
    PlayerQuestLog_23_2, // Size: 1, Type: Int, Flags: Private
    PlayerQuestLog_23_3, // Size: 2, Type: TwoShort, Flags: Private
    PlayerQuestLog_23_5, // Size: 1, Type: Int, Flags: Private
    PlayerQuestLog_24_1, // Size: 1, Type: Int, Flags: PartyMember
    PlayerQuestLog_24_2, // Size: 1, Type: Int, Flags: Private
    PlayerQuestLog_24_3, // Size: 2, Type: TwoShort, Flags: Private
    PlayerQuestLog_24_5, // Size: 1, Type: Int, Flags: Private
    PlayerQuestLog_25_1, // Size: 1, Type: Int, Flags: PartyMember
    PlayerQuestLog_25_2, // Size: 1, Type: Int, Flags: Private
    PlayerQuestLog_25_3, // Size: 2, Type: TwoShort, Flags: Private
    PlayerQuestLog_25_5, // Size: 1, Type: Int, Flags: Private
    PlayerVisibleItem_1Entryid, // Size: 1, Type: Int, Flags: Public
    PlayerVisibleItem_1Enchantment, // Size: 1, Type: TwoShort, Flags: Public
    PlayerVisibleItem_2Entryid, // Size: 1, Type: Int, Flags: Public
    PlayerVisibleItem_2Enchantment, // Size: 1, Type: TwoShort, Flags: Public
    PlayerVisibleItem_3Entryid, // Size: 1, Type: Int, Flags: Public
    PlayerVisibleItem_3Enchantment, // Size: 1, Type: TwoShort, Flags: Public
    PlayerVisibleItem_4Entryid, // Size: 1, Type: Int, Flags: Public
    PlayerVisibleItem_4Enchantment, // Size: 1, Type: TwoShort, Flags: Public
    PlayerVisibleItem_5Entryid, // Size: 1, Type: Int, Flags: Public
    PlayerVisibleItem_5Enchantment, // Size: 1, Type: TwoShort, Flags: Public
    PlayerVisibleItem_6Entryid, // Size: 1, Type: Int, Flags: Public
    PlayerVisibleItem_6Enchantment, // Size: 1, Type: TwoShort, Flags: Public
    PlayerVisibleItem_7Entryid, // Size: 1, Type: Int, Flags: Public
    PlayerVisibleItem_7Enchantment, // Size: 1, Type: TwoShort, Flags: Public
    PlayerVisibleItem_8Entryid, // Size: 1, Type: Int, Flags: Public
    PlayerVisibleItem_8Enchantment, // Size: 1, Type: TwoShort, Flags: Public
    PlayerVisibleItem_9Entryid, // Size: 1, Type: Int, Flags: Public
    PlayerVisibleItem_9Enchantment, // Size: 1, Type: TwoShort, Flags: Public
    PlayerVisibleItem_10Entryid, // Size: 1, Type: Int, Flags: Public
    PlayerVisibleItem_10Enchantment, // Size: 1, Type: TwoShort, Flags: Public
    PlayerVisibleItem_11Entryid, // Size: 1, Type: Int, Flags: Public
    PlayerVisibleItem_11Enchantment, // Size: 1, Type: TwoShort, Flags: Public
    PlayerVisibleItem_12Entryid, // Size: 1, Type: Int, Flags: Public
    PlayerVisibleItem_12Enchantment, // Size: 1, Type: TwoShort, Flags: Public
    PlayerVisibleItem_13Entryid, // Size: 1, Type: Int, Flags: Public
    PlayerVisibleItem_13Enchantment, // Size: 1, Type: TwoShort, Flags: Public
    PlayerVisibleItem_14Entryid, // Size: 1, Type: Int, Flags: Public
    PlayerVisibleItem_14Enchantment, // Size: 1, Type: TwoShort, Flags: Public
    PlayerVisibleItem_15Entryid, // Size: 1, Type: Int, Flags: Public
    PlayerVisibleItem_15Enchantment, // Size: 1, Type: TwoShort, Flags: Public
    PlayerVisibleItem_16Entryid, // Size: 1, Type: Int, Flags: Public
    PlayerVisibleItem_16Enchantment, // Size: 1, Type: TwoShort, Flags: Public
    PlayerVisibleItem_17Entryid, // Size: 1, Type: Int, Flags: Public
    PlayerVisibleItem_17Enchantment, // Size: 1, Type: TwoShort, Flags: Public
    PlayerVisibleItem_18Entryid, // Size: 1, Type: Int, Flags: Public
    PlayerVisibleItem_18Enchantment, // Size: 1, Type: TwoShort, Flags: Public
    PlayerVisibleItem_19Entryid, // Size: 1, Type: Int, Flags: Public
    PlayerVisibleItem_19Enchantment, // Size: 1, Type: TwoShort, Flags: Public
    PlayerChosenTitle, // Size: 1, Type: Int, Flags: Public
    PlayerFakeInebriation, // Size: 1, Type: Int, Flags: Public
    Pad_0, // Size: 1, Type: Int, Flags: None
    InvSlotHead, // Size: 46, Type: Long, Flags: Private
    PackSlot_1, // Size: 32, Type: Long, Flags: Private
    BankSlot_1, // Size: 56, Type: Long, Flags: Private
    BankbagSlot_1, // Size: 14, Type: Long, Flags: Private
    VendorbuybackSlot_1, // Size: 24, Type: Long, Flags: Private
    KeyringSlot_1, // Size: 64, Type: Long, Flags: Private
    CurrencytokenSlot_1, // Size: 64, Type: Long, Flags: Private
    PlayerFarsight, // Size: 2, Type: Long, Flags: Private
    PlayerFieldKnownTitles, // Size: 2, Type: Long, Flags: Private
    PlayerFieldKnownTitles1, // Size: 2, Type: Long, Flags: Private
    PlayerFieldKnownTitles2, // Size: 2, Type: Long, Flags: Private
    KnownCurrencies, // Size: 2, Type: Long, Flags: Private
    PlayerXp, // Size: 1, Type: Int, Flags: Private
    PlayerNextLevelXp, // Size: 1, Type: Int, Flags: Private
    PlayerSkillInfo_1_1, // Size: 384, Type: TwoShort, Flags: Private
    PlayerCharacterPoints1, // Size: 1, Type: Int, Flags: Private
    PlayerCharacterPoints2, // Size: 1, Type: Int, Flags: Private
    PlayerTrackCreatures, // Size: 1, Type: Int, Flags: Private
    PlayerTrackResources, // Size: 1, Type: Int, Flags: Private
    PlayerBlockPercentage, // Size: 1, Type: Float, Flags: Private
    PlayerDodgePercentage, // Size: 1, Type: Float, Flags: Private
    PlayerParryPercentage, // Size: 1, Type: Float, Flags: Private
    PlayerExpertise, // Size: 1, Type: Int, Flags: Private
    PlayerOffhandExpertise, // Size: 1, Type: Int, Flags: Private
    PlayerCritPercentage, // Size: 1, Type: Float, Flags: Private
    PlayerRangedCritPercentage, // Size: 1, Type: Float, Flags: Private
    PlayerOffhandCritPercentage, // Size: 1, Type: Float, Flags: Private
    PlayerSpellCritPercentage1, // Size: 7, Type: Float, Flags: Private
    PlayerShieldBlock, // Size: 1, Type: Int, Flags: Private
    PlayerShieldBlockCritPercentage, // Size: 1, Type: Float, Flags: Private
    PlayerExploredZones_1, // Size: 128, Type: Bytes, Flags: Private
    PlayerRestStateExperience, // Size: 1, Type: Int, Flags: Private
    Coinage, // Size: 1, Type: Int, Flags: Private
    ModDamageDonePos, // Size: 7, Type: Int, Flags: Private
    ModDamageDoneNeg, // Size: 7, Type: Int, Flags: Private
    ModDamageDonePct, // Size: 7, Type: Int, Flags: Private
    ModHealingDonePos, // Size: 1, Type: Int, Flags: Private
    ModHealingPct, // Size: 1, Type: Float, Flags: Private
    ModHealingDonePct, // Size: 1, Type: Float, Flags: Private
    ModTargetResistance, // Size: 1, Type: Int, Flags: Private
    ModTargetPhysicalResistance, // Size: 1, Type: Int, Flags: Private
    Bytes, // Size: 1, Type: Bytes, Flags: Private
    PlayerAmmoId, // Size: 1, Type: Int, Flags: Private
    PlayerSelfResSpell, // Size: 1, Type: Int, Flags: Private
    PvpMedals, // Size: 1, Type: Int, Flags: Private
    BuybackPrice_1, // Size: 12, Type: Int, Flags: Private
    BuybackTimestamp_1, // Size: 12, Type: Int, Flags: Private
    Kills, // Size: 1, Type: TwoShort, Flags: Private
    TodayContribution, // Size: 1, Type: Int, Flags: Private
    YesterdayContribution, // Size: 1, Type: Int, Flags: Private
    LifetimeHonorbaleKills, // Size: 1, Type: Int, Flags: Private
    Bytes2, // Size: 1, Type: 6, Flags: Private
    WatchedFactionIndex, // Size: 1, Type: Int, Flags: Private
    CombatRating_1, // Size: 25, Type: Int, Flags: Private
    ArenaTeamInfo_1_1, // Size: 21, Type: Int, Flags: Private
    HonorCurrency, // Size: 1, Type: Int, Flags: Private
    ArenaCurrency, // Size: 1, Type: Int, Flags: Private
    MaxLevel, // Size: 1, Type: Int, Flags: Private
    DailyQuests_1, // Size: 25, Type: Int, Flags: Private
    PlayerRuneRegen_1, // Size: 4, Type: Float, Flags: Private
    PlayerNoReagentCost_1, // Size: 3, Type: Int, Flags: Private
    GlyphSlots_1, // Size: 6, Type: Int, Flags: Private
    Glyphs_1, // Size: 6, Type: Int, Flags: Private
    PlayerGlyphsEnabled, // Size: 1, Type: Int, Flags: Private
    PlayerPetSpellPower, // Size: 1, Type: Int, Flags: Private
    PlayerEnd,
}

impl PlayerFields {
    /// The number the protocol uses for each variant.
    pub open spec fn spec_index(self) -> u32 {
        match self {
            PlayerFields::PlayerDuelArbiter => 148,
            PlayerFields::PlayerFlags => 150,
            PlayerFields::PlayerGuildid => 151,
            PlayerFields::PlayerGuildrank => 152,
            PlayerFields::PlayerBytes => 153,
            PlayerFields::PlayerBytes2 => 154,
            PlayerFields::PlayerBytes3 => 155,
            PlayerFields::PlayerDuelTeam => 156,
            PlayerFields::PlayerGuildTimestamp => 157,
            PlayerFields::PlayerQuestLog_1_1 => 158,
            PlayerFields::PlayerQuestLog_1_2 => 159,
            PlayerFields::PlayerQuestLog_1_3 => 160,
            PlayerFields::PlayerQuestLog_1_4 => 162,
            PlayerFields::PlayerQuestLog_2_1 => 163,
            PlayerFields::PlayerQuestLog_2_2 => 164,
            PlayerFields::PlayerQuestLog_2_3 => 165,
            PlayerFields::PlayerQuestLog_2_5 => 167,
            PlayerFields::PlayerQuestLog_3_1 => 168,
            PlayerFields::PlayerQuestLog_3_2 => 169,
            PlayerFields::PlayerQuestLog_3_3 => 170,
            PlayerFields::PlayerQuestLog_3_5 => 172,
            PlayerFields::PlayerQuestLog_4_1 => 173,
            PlayerFields::PlayerQuestLog_4_2 => 174,
            PlayerFields::PlayerQuestLog_4_3 => 175,
            PlayerFields::PlayerQuestLog_4_5 => 177,
            PlayerFields::PlayerQuestLog_5_1 => 178,
            PlayerFields::PlayerQuestLog_5_2 => 179,
            PlayerFields::PlayerQuestLog_5_3 => 180,
            PlayerFields::PlayerQuestLog_5_5 => 182,
            PlayerFields::PlayerQuestLog_6_1 => 183,
            PlayerFields::PlayerQuestLog_6_2 => 184,
            PlayerFields::PlayerQuestLog_6_3 => 185,
            PlayerFields::PlayerQuestLog_6_5 => 187,
            PlayerFields::PlayerQuestLog_7_1 => 188,
            PlayerFields::PlayerQuestLog_7_2 => 189,
            PlayerFields::PlayerQuestLog_7_3 => 190,
            PlayerFields::PlayerQuestLog_7_5 => 192,
            PlayerFields::PlayerQuestLog_8_1 => 193,
            PlayerFields::PlayerQuestLog_8_2 => 194,
            PlayerFields::PlayerQuestLog_8_3 => 195,
            PlayerFields::PlayerQuestLog_8_5 => 197,
            PlayerFields::PlayerQuestLog_9_1 => 198,
            PlayerFields::PlayerQuestLog_9_2 => 199,
            PlayerFields::PlayerQuestLog_9_3 => 200,
            PlayerFields::PlayerQuestLog_9_5 => 202,
            PlayerFields::PlayerQuestLog_10_1 => 203,
            PlayerFields::PlayerQuestLog_10_2 => 204,
            PlayerFields::PlayerQuestLog_10_3 => 205,
            PlayerFields::PlayerQuestLog_10_5 => 207,
            PlayerFields::PlayerQuestLog_11_1 => 208,
            PlayerFields::PlayerQuestLog_11_2 => 209,
            PlayerFields::PlayerQuestLog_11_3 => 210,
            PlayerFields::PlayerQuestLog_11_5 => 212,
            PlayerFields::PlayerQuestLog_12_1 => 213,
            PlayerFields::PlayerQuestLog_12_2 => 214,
            PlayerFields::PlayerQuestLog_12_3 => 215,
            PlayerFields::PlayerQuestLog_12_5 => 217,
            PlayerFields::PlayerQuestLog_13_1 => 218,
            PlayerFields::PlayerQuestLog_13_2 => 219,
            PlayerFields::PlayerQuestLog_13_3 => 220,
            PlayerFields::PlayerQuestLog_13_5 => 222,
            PlayerFields::PlayerQuestLog_14_1 => 223,
            PlayerFields::PlayerQuestLog_14_2 => 224,
            PlayerFields::PlayerQuestLog_14_3 => 225,
            PlayerFields::PlayerQuestLog_14_5 => 227,
            PlayerFields::PlayerQuestLog_15_1 => 228,
            PlayerFields::PlayerQuestLog_15_2 => 229,
            PlayerFields::PlayerQuestLog_15_3 => 230,
            PlayerFields::PlayerQuestLog_15_5 => 232,
            PlayerFields::PlayerQuestLog_16_1 => 233,
            PlayerFields::PlayerQuestLog_16_2 => 234,
            PlayerFields::PlayerQuestLog_16_3 => 235,
            PlayerFields::PlayerQuestLog_16_5 => 237,
            PlayerFields::PlayerQuestLog_17_1 => 238,
            PlayerFields::PlayerQuestLog_17_2 => 239,
            PlayerFields::PlayerQuestLog_17_3 => 240,
            PlayerFields::PlayerQuestLog_17_5 => 242,
            PlayerFields::PlayerQuestLog_18_1 => 243,
            PlayerFields::PlayerQuestLog_18_2 => 244,
            PlayerFields::PlayerQuestLog_18_3 => 245,
            PlayerFields::PlayerQuestLog_18_5 => 247,
            PlayerFields::PlayerQuestLog_19_1 => 248,
            PlayerFields::PlayerQuestLog_19_2 => 249,
            PlayerFields::PlayerQuestLog_19_3 => 250,
            PlayerFields::PlayerQuestLog_19_5 => 252,
            PlayerFields::PlayerQuestLog_20_1 => 253,
            PlayerFields::PlayerQuestLog_20_2 => 254,
            PlayerFields::PlayerQuestLog_20_3 => 255,
            PlayerFields::PlayerQuestLog_20_5 => 257,
            PlayerFields::PlayerQuestLog_21_1 => 258,
            PlayerFields::PlayerQuestLog_21_2 => 259,
            PlayerFields::PlayerQuestLog_21_3 => 260,
            PlayerFields::PlayerQuestLog_21_5 => 262,
            PlayerFields::PlayerQuestLog_22_1 => 263,
            PlayerFields::PlayerQuestLog_22_2 => 264,
            PlayerFields::PlayerQuestLog_22_3 => 265,
            PlayerFields::PlayerQuestLog_22_5 => 267,
            PlayerFields::PlayerQuestLog_23_1 => 268,
            PlayerFields::PlayerQuestLog_23_2 => 269,
            PlayerFields::PlayerQuestLog_23_3 => 270,
            PlayerFields::PlayerQuestLog_23_5 => 272,
            PlayerFields::PlayerQuestLog_24_1 => 273,
            PlayerFields::PlayerQuestLog_24_2 => 274,
            PlayerFields::PlayerQuestLog_24_3 => 275,
            PlayerFields::PlayerQuestLog_24_5 => 277,
            PlayerFields::PlayerQuestLog_25_1 => 278,
            PlayerFields::PlayerQuestLog_25_2 => 279,
            PlayerFields::PlayerQuestLog_25_3 => 280,
            PlayerFields::PlayerQuestLog_25_5 => 282,
            PlayerFields::PlayerVisibleItem_1Entryid => 283,
            PlayerFields::PlayerVisibleItem_1Enchantment => 284,
            PlayerFields::PlayerVisibleItem_2Entryid => 285,
            PlayerFields::PlayerVisibleItem_2Enchantment => 286,
            PlayerFields::PlayerVisibleItem_3Entryid => 287,
            PlayerFields::PlayerVisibleItem_3Enchantment => 288,
            PlayerFields::PlayerVisibleItem_4Entryid => 289,
            PlayerFields::PlayerVisibleItem_4Enchantment => 290,
            PlayerFields::PlayerVisibleItem_5Entryid => 291,
            PlayerFields::PlayerVisibleItem_5Enchantment => 292,
            PlayerFields::PlayerVisibleItem_6Entryid => 293,
            PlayerFields::PlayerVisibleItem_6Enchantment => 294,
            PlayerFields::PlayerVisibleItem_7Entryid => 295,
            PlayerFields::PlayerVisibleItem_7Enchantment => 296,
            PlayerFields::PlayerVisibleItem_8Entryid => 297,
            PlayerFields::PlayerVisibleItem_8Enchantment => 298,
            PlayerFields::PlayerVisibleItem_9Entryid => 299,
            PlayerFields::PlayerVisibleItem_9Enchantment => 300,
            PlayerFields::PlayerVisibleItem_10Entryid => 301,
            PlayerFields::PlayerVisibleItem_10Enchantment => 302,
            PlayerFields::PlayerVisibleItem_11Entryid => 303,
            PlayerFields::PlayerVisibleItem_11Enchantment => 304,
            PlayerFields::PlayerVisibleItem_12Entryid => 305,
            PlayerFields::PlayerVisibleItem_12Enchantment => 306,
            PlayerFields::PlayerVisibleItem_13Entryid => 307,
            PlayerFields::PlayerVisibleItem_13Enchantment => 308,
            PlayerFields::PlayerVisibleItem_14Entryid => 309,
            PlayerFields::PlayerVisibleItem_14Enchantment => 310,
            PlayerFields::PlayerVisibleItem_15Entryid => 311,
            PlayerFields::PlayerVisibleItem_15Enchantment => 312,
            PlayerFields::PlayerVisibleItem_16Entryid => 313,
            PlayerFields::PlayerVisibleItem_16Enchantment => 314,
            PlayerFields::PlayerVisibleItem_17Entryid => 315,
            PlayerFields::PlayerVisibleItem_17Enchantment => 316,
            PlayerFields::PlayerVisibleItem_18Entryid => 317,
            PlayerFields::PlayerVisibleItem_18Enchantment => 318,
            PlayerFields::PlayerVisibleItem_19Entryid => 319,
            PlayerFields::PlayerVisibleItem_19Enchantment => 320,
            PlayerFields::PlayerChosenTitle => 321,
            PlayerFields::PlayerFakeInebriation => 322,
            PlayerFields::Pad_0 => 323,
            PlayerFields::InvSlotHead => 324,
            PlayerFields::PackSlot_1 => 370,
            PlayerFields::BankSlot_1 => 402,
            PlayerFields::BankbagSlot_1 => 458,
            PlayerFields::VendorbuybackSlot_1 => 472,
            PlayerFields::KeyringSlot_1 => 496,
            PlayerFields::CurrencytokenSlot_1 => 560,
            PlayerFields::PlayerFarsight => 624,
            PlayerFields::PlayerFieldKnownTitles => 626,
            PlayerFields::PlayerFieldKnownTitles1 => 628,
            PlayerFields::PlayerFieldKnownTitles2 => 630,
            PlayerFields::KnownCurrencies => 632,
            PlayerFields::PlayerXp => 634,
            PlayerFields::PlayerNextLevelXp => 635,
            PlayerFields::PlayerSkillInfo_1_1 => 636,
            PlayerFields::PlayerCharacterPoints1 => 1020,
            PlayerFields::PlayerCharacterPoints2 => 1021,
            PlayerFields::PlayerTrackCreatures => 1022,
            PlayerFields::PlayerTrackResources => 1023,
            PlayerFields::PlayerBlockPercentage => 1024,
            PlayerFields::PlayerDodgePercentage => 1025,
            PlayerFields::PlayerParryPercentage => 1026,
            PlayerFields::PlayerExpertise => 1027,
            PlayerFields::PlayerOffhandExpertise => 1028,
            PlayerFields::PlayerCritPercentage => 1029,
            PlayerFields::PlayerRangedCritPercentage => 1030,
            PlayerFields::PlayerOffhandCritPercentage => 1031,
            PlayerFields::PlayerSpellCritPercentage1 => 1032,
            PlayerFields::PlayerShieldBlock => 1039,
            PlayerFields::PlayerShieldBlockCritPercentage => 1040,
            PlayerFields::PlayerExploredZones_1 => 1041,
            PlayerFields::PlayerRestStateExperience => 1169,
            PlayerFields::Coinage => 1170,
            PlayerFields::ModDamageDonePos => 1171,
            PlayerFields::ModDamageDoneNeg => 1178,
            PlayerFields::ModDamageDonePct => 1185,
            PlayerFields::ModHealingDonePos => 1192,
            PlayerFields::ModHealingPct => 1193,
            PlayerFields::ModHealingDonePct => 1194,
            PlayerFields::ModTargetResistance => 1195,
            PlayerFields::ModTargetPhysicalResistance => 1196,
            PlayerFields::Bytes => 1197,
            PlayerFields::PlayerAmmoId => 1198,
            PlayerFields::PlayerSelfResSpell => 1199,
            PlayerFields::PvpMedals => 1200,
            PlayerFields::BuybackPrice_1 => 1201,
            PlayerFields::BuybackTimestamp_1 => 1213,
            PlayerFields::Kills => 1225,
            PlayerFields::TodayContribution => 1226,
            PlayerFields::YesterdayContribution => 1227,
            PlayerFields::LifetimeHonorbaleKills => 1228,
            PlayerFields::Bytes2 => 1229,
            PlayerFields::WatchedFactionIndex => 1230,
            PlayerFields::CombatRating_1 => 1231,
            PlayerFields::ArenaTeamInfo_1_1 => 1256,
            PlayerFields::HonorCurrency => 1277,
            PlayerFields::ArenaCurrency => 1278,
            PlayerFields::MaxLevel => 1279,
            PlayerFields::DailyQuests_1 => 1280,
            PlayerFields::PlayerRuneRegen_1 => 1305,
            PlayerFields::PlayerNoReagentCost_1 => 1309,
            PlayerFields::GlyphSlots_1 => 1312,
            PlayerFields::Glyphs_1 => 1318,
            PlayerFields::PlayerGlyphsEnabled => 1324,
            PlayerFields::PlayerPetSpellPower => 1325,
            PlayerFields::PlayerEnd => 1326,
        }
    }

    /// The number the protocol uses for this variant.
    pub fn index(&self) -> (r: u32)
        ensures
            r == self.spec_index(),
    {
        match self {
            PlayerFields::PlayerDuelArbiter => 0x94 + 0x0000,
            PlayerFields::PlayerFlags => 0x94 + 0x0002,
            PlayerFields::PlayerGuildid => 0x94 + 0x0003,
            PlayerFields::PlayerGuildrank => 0x94 + 0x0004,
            PlayerFields::PlayerBytes => 0x94 + 0x0005,
            PlayerFields::PlayerBytes2 => 0x94 + 0x0006,
            PlayerFields::PlayerBytes3 => 0x94 + 0x0007,
            PlayerFields::PlayerDuelTeam => 0x94 + 0x0008,
            PlayerFields::PlayerGuildTimestamp => 0x94 + 0x0009,
            PlayerFields::PlayerQuestLog_1_1 => 0x94 + 0x000A,
            PlayerFields::PlayerQuestLog_1_2 => 0x94 + 0x000B,
            PlayerFields::PlayerQuestLog_1_3 => 0x94 + 0x000C,
            PlayerFields::PlayerQuestLog_1_4 => 0x94 + 0x000E,
            PlayerFields::PlayerQuestLog_2_1 => 0x94 + 0x000F,
            PlayerFields::PlayerQuestLog_2_2 => 0x94 + 0x0010,
            PlayerFields::PlayerQuestLog_2_3 => 0x94 + 0x0011,
            PlayerFields::PlayerQuestLog_2_5 => 0x94 + 0x0013,
            PlayerFields::PlayerQuestLog_3_1 => 0x94 + 0x0014,
            PlayerFields::PlayerQuestLog_3_2 => 0x94 + 0x0015,
            PlayerFields::PlayerQuestLog_3_3 => 0x94 + 0x0016,
            PlayerFields::PlayerQuestLog_3_5 => 0x94 + 0x0018,
            PlayerFields::PlayerQuestLog_4_1 => 0x94 + 0x0019,
            PlayerFields::PlayerQuestLog_4_2 => 0x94 + 0x001A,
            PlayerFields::PlayerQuestLog_4_3 => 0x94 + 0x001B,
            PlayerFields::PlayerQuestLog_4_5 => 0x94 + 0x001D,
            PlayerFields::PlayerQuestLog_5_1 => 0x94 + 0x001E,
            PlayerFields::PlayerQuestLog_5_2 => 0x94 + 0x001F,
            PlayerFields::PlayerQuestLog_5_3 => 0x94 + 0x0020,
            PlayerFields::PlayerQuestLog_5_5 => 0x94 + 0x0022,
            PlayerFields::PlayerQuestLog_6_1 => 0x94 + 0x0023,
            PlayerFields::PlayerQuestLog_6_2 => 0x94 + 0x0024,
            PlayerFields::PlayerQuestLog_6_3 => 0x94 + 0x0025,
            PlayerFields::PlayerQuestLog_6_5 => 0x94 + 0x0027,
            PlayerFields::PlayerQuestLog_7_1 => 0x94 + 0x0028,
            PlayerFields::PlayerQuestLog_7_2 => 0x94 + 0x0029,
            PlayerFields::PlayerQuestLog_7_3 => 0x94 + 0x002A,
            PlayerFields::PlayerQuestLog_7_5 => 0x94 + 0x002C,
            PlayerFields::PlayerQuestLog_8_1 => 0x94 + 0x002D,
            PlayerFields::PlayerQuestLog_8_2 => 0x94 + 0x002E,
            PlayerFields::PlayerQuestLog_8_3 => 0x94 + 0x002F,
            PlayerFields::PlayerQuestLog_8_5 => 0x94 + 0x0031,
            PlayerFields::PlayerQuestLog_9_1 => 0x94 + 0x0032,
            PlayerFields::PlayerQuestLog_9_2 => 0x94 + 0x0033,
            PlayerFields::PlayerQuestLog_9_3 => 0x94 + 0x0034,
            PlayerFields::PlayerQuestLog_9_5 => 0x94 + 0x0036,
            PlayerFields::PlayerQuestLog_10_1 => 0x94 + 0x0037,
            PlayerFields::PlayerQuestLog_10_2 => 0x94 + 0x0038,
            PlayerFields::PlayerQuestLog_10_3 => 0x94 + 0x0039,
            PlayerFields::PlayerQuestLog_10_5 => 0x94 + 0x003B,
            PlayerFields::PlayerQuestLog_11_1 => 0x94 + 0x003C,
            PlayerFields::PlayerQuestLog_11_2 => 0x94 + 0x003D,
            PlayerFields::PlayerQuestLog_11_3 => 0x94 + 0x003E,
            PlayerFields::PlayerQuestLog_11_5 => 0x94 + 0x0040,
            PlayerFields::PlayerQuestLog_12_1 => 0x94 + 0x0041,
            PlayerFields::PlayerQuestLog_12_2 => 0x94 + 0x0042,
            PlayerFields::PlayerQuestLog_12_3 => 0x94 + 0x0043,
            PlayerFields::PlayerQuestLog_12_5 => 0x94 + 0x0045,
            PlayerFields::PlayerQuestLog_13_1 => 0x94 + 0x0046,
            PlayerFields::PlayerQuestLog_13_2 => 0x94 + 0x0047,
            PlayerFields::PlayerQuestLog_13_3 => 0x94 + 0x0048,
            PlayerFields::PlayerQuestLog_13_5 => 0x94 + 0x004A,
            PlayerFields::PlayerQuestLog_14_1 => 0x94 + 0x004B,
            PlayerFields::PlayerQuestLog_14_2 => 0x94 + 0x004C,
            PlayerFields::PlayerQuestLog_14_3 => 0x94 + 0x004D,
            PlayerFields::PlayerQuestLog_14_5 => 0x94 + 0x004F,
            PlayerFields::PlayerQuestLog_15_1 => 0x94 + 0x0050,
            PlayerFields::PlayerQuestLog_15_2 => 0x94 + 0x0051,
            PlayerFields::PlayerQuestLog_15_3 => 0x94 + 0x0052,
            PlayerFields::PlayerQuestLog_15_5 => 0x94 + 0x0054,
            PlayerFields::PlayerQuestLog_16_1 => 0x94 + 0x0055,
            PlayerFields::PlayerQuestLog_16_2 => 0x94 + 0x0056,
            PlayerFields::PlayerQuestLog_16_3 => 0x94 + 0x0057,
            PlayerFields::PlayerQuestLog_16_5 => 0x94 + 0x0059,
            PlayerFields::PlayerQuestLog_17_1 => 0x94 + 0x005A,
            PlayerFields::PlayerQuestLog_17_2 => 0x94 + 0x005B,
            PlayerFields::PlayerQuestLog_17_3 => 0x94 + 0x005C,
            PlayerFields::PlayerQuestLog_17_5 => 0x94 + 0x005E,
            PlayerFields::PlayerQuestLog_18_1 => 0x94 + 0x005F,
            PlayerFields::PlayerQuestLog_18_2 => 0x94 + 0x0060,
            PlayerFields::PlayerQuestLog_18_3 => 0x94 + 0x0061,
            PlayerFields::PlayerQuestLog_18_5 => 0x94 + 0x0063,
            PlayerFields::PlayerQuestLog_19_1 => 0x94 + 0x0064,
            PlayerFields::PlayerQuestLog_19_2 => 0x94 + 0x0065,
            PlayerFields::PlayerQuestLog_19_3 => 0x94 + 0x0066,
            PlayerFields::PlayerQuestLog_19_5 => 0x94 + 0x0068,
            PlayerFields::PlayerQuestLog_20_1 => 0x94 + 0x0069,
            PlayerFields::PlayerQuestLog_20_2 => 0x94 + 0x006A,
            PlayerFields::PlayerQuestLog_20_3 => 0x94 + 0x006B,
            PlayerFields::PlayerQuestLog_20_5 => 0x94 + 0x006D,
            PlayerFields::PlayerQuestLog_21_1 => 0x94 + 0x006E,
            PlayerFields::PlayerQuestLog_21_2 => 0x94 + 0x006F,
            PlayerFields::PlayerQuestLog_21_3 => 0x94 + 0x0070,
            PlayerFields::PlayerQuestLog_21_5 => 0x94 + 0x0072,
            PlayerFields::PlayerQuestLog_22_1 => 0x94 + 0x0073,
            PlayerFields::PlayerQuestLog_22_2 => 0x94 + 0x0074,
            PlayerFields::PlayerQuestLog_22_3 => 0x94 + 0x0075,
            PlayerFields::PlayerQuestLog_22_5 => 0x94 + 0x0077,
            PlayerFields::PlayerQuestLog_23_1 => 0x94 + 0x0078,
            PlayerFields::PlayerQuestLog_23_2 => 0x94 + 0x0079,
            PlayerFields::PlayerQuestLog_23_3 => 0x94 + 0x007A,
            PlayerFields::PlayerQuestLog_23_5 => 0x94 + 0x007C,
            PlayerFields::PlayerQuestLog_24_1 => 0x94 + 0x007D,
            PlayerFields::PlayerQuestLog_24_2 => 0x94 + 0x007E,
            PlayerFields::PlayerQuestLog_24_3 => 0x94 + 0x007F,
            PlayerFields::PlayerQuestLog_24_5 => 0x94 + 0x0081,
            PlayerFields::PlayerQuestLog_25_1 => 0x94 + 0x0082,
            PlayerFields::PlayerQuestLog_25_2 => 0x94 + 0x0083,
            PlayerFields::PlayerQuestLog_25_3 => 0x94 + 0x0084,
            PlayerFields::PlayerQuestLog_25_5 => 0x94 + 0x0086,
            PlayerFields::PlayerVisibleItem_1Entryid => 0x94 + 0x0087,
            PlayerFields::PlayerVisibleItem_1Enchantment => 0x94 + 0x0088,
            PlayerFields::PlayerVisibleItem_2Entryid => 0x94 + 0x0089,
            PlayerFields::PlayerVisibleItem_2Enchantment => 0x94 + 0x008A,
            PlayerFields::PlayerVisibleItem_3Entryid => 0x94 + 0x008B,
            PlayerFields::PlayerVisibleItem_3Enchantment => 0x94 + 0x008C,
            PlayerFields::PlayerVisibleItem_4Entryid => 0x94 + 0x008D,
            PlayerFields::PlayerVisibleItem_4Enchantment => 0x94 + 0x008E,
            PlayerFields::PlayerVisibleItem_5Entryid => 0x94 + 0x008F,
            PlayerFields::PlayerVisibleItem_5Enchantment => 0x94 + 0x0090,
            PlayerFields::PlayerVisibleItem_6Entryid => 0x94 + 0x0091,
            PlayerFields::PlayerVisibleItem_6Enchantment => 0x94 + 0x0092,
            PlayerFields::PlayerVisibleItem_7Entryid => 0x94 + 0x0093,
            PlayerFields::PlayerVisibleItem_7Enchantment => 0x94 + 0x0094,
            PlayerFields::PlayerVisibleItem_8Entryid => 0x94 + 0x0095,
            PlayerFields::PlayerVisibleItem_8Enchantment => 0x94 + 0x0096,
            PlayerFields::PlayerVisibleItem_9Entryid => 0x94 + 0x0097,
            PlayerFields::PlayerVisibleItem_9Enchantment => 0x94 + 0x0098,
            PlayerFields::PlayerVisibleItem_10Entryid => 0x94 + 0x0099,
            PlayerFields::PlayerVisibleItem_10Enchantment => 0x94 + 0x009A,
            PlayerFields::PlayerVisibleItem_11Entryid => 0x94 + 0x009B,
            PlayerFields::PlayerVisibleItem_11Enchantment => 0x94 + 0x009C,
            PlayerFields::PlayerVisibleItem_12Entryid => 0x94 + 0x009D,
            PlayerFields::PlayerVisibleItem_12Enchantment => 0x94 + 0x009E,
            PlayerFields::PlayerVisibleItem_13Entryid => 0x94 + 0x009F,
            PlayerFields::PlayerVisibleItem_13Enchantment => 0x94 + 0x00A0,
            PlayerFields::PlayerVisibleItem_14Entryid => 0x94 + 0x00A1,
            PlayerFields::PlayerVisibleItem_14Enchantment => 0x94 + 0x00A2,
            PlayerFields::PlayerVisibleItem_15Entryid => 0x94 + 0x00A3,
            PlayerFields::PlayerVisibleItem_15Enchantment => 0x94 + 0x00A4,
            PlayerFields::PlayerVisibleItem_16Entryid => 0x94 + 0x00A5,
            PlayerFields::PlayerVisibleItem_16Enchantment => 0x94 + 0x00A6,
            PlayerFields::PlayerVisibleItem_17Entryid => 0x94 + 0x00A7,
            PlayerFields::PlayerVisibleItem_17Enchantment => 0x94 + 0x00A8,
            PlayerFields::PlayerVisibleItem_18Entryid => 0x94 + 0x00A9,
            PlayerFields::PlayerVisibleItem_18Enchantment => 0x94 + 0x00Aa,
            PlayerFields::PlayerVisibleItem_19Entryid => 0x94 + 0x00Ab,
            PlayerFields::PlayerVisibleItem_19Enchantment => 0x94 + 0x00Ac,
            PlayerFields::PlayerChosenTitle => 0x94 + 0x00Ad,
            PlayerFields::PlayerFakeInebriation => 0x94 + 0x00Ae,
            PlayerFields::Pad_0 => 0x94 + 0x00Af,
            PlayerFields::InvSlotHead => 0x94 + 0x00B0,
            PlayerFields::PackSlot_1 => 0x94 + 0x00De,
            PlayerFields::BankSlot_1 => 0x94 + 0x00Fe,
            PlayerFields::BankbagSlot_1 => 0x94 + 0x0136,
            PlayerFields::VendorbuybackSlot_1 => 0x94 + 0x0144,
            PlayerFields::KeyringSlot_1 => 0x94 + 0x015C,
            PlayerFields::CurrencytokenSlot_1 => 0x94 + 0x019C,
            PlayerFields::PlayerFarsight => 0x94 + 0x01Dc,
            PlayerFields::PlayerFieldKnownTitles => 0x94 + 0x01De,
            PlayerFields::PlayerFieldKnownTitles1 => 0x94 + 0x01E0,
            PlayerFields::PlayerFieldKnownTitles2 => 0x94 + 0x01E2,
            PlayerFields::KnownCurrencies => 0x94 + 0x01E4,
            PlayerFields::PlayerXp => 0x94 + 0x01E6,
            PlayerFields::PlayerNextLevelXp => 0x94 + 0x01E7,
            PlayerFields::PlayerSkillInfo_1_1 => 0x94 + 0x01E8,
            PlayerFields::PlayerCharacterPoints1 => 0x94 + 0x0368,
            PlayerFields::PlayerCharacterPoints2 => 0x94 + 0x0369,
            PlayerFields::PlayerTrackCreatures => 0x94 + 0x036A,
            PlayerFields::PlayerTrackResources => 0x94 + 0x036B,
            PlayerFields::PlayerBlockPercentage => 0x94 + 0x036C,
            PlayerFields::PlayerDodgePercentage => 0x94 + 0x036D,
            PlayerFields::PlayerParryPercentage => 0x94 + 0x036E,
            PlayerFields::PlayerExpertise => 0x94 + 0x036F,
            PlayerFields::PlayerOffhandExpertise => 0x94 + 0x0370,
            PlayerFields::PlayerCritPercentage => 0x94 + 0x0371,
            PlayerFields::PlayerRangedCritPercentage => 0x94 + 0x0372,
            PlayerFields::PlayerOffhandCritPercentage => 0x94 + 0x0373,
            PlayerFields::PlayerSpellCritPercentage1 => 0x94 + 0x0374,
            PlayerFields::PlayerShieldBlock => 0x94 + 0x037B,
            PlayerFields::PlayerShieldBlockCritPercentage => 0x94 + 0x037C,
            PlayerFields::PlayerExploredZones_1 => 0x94 + 0x037D,
            PlayerFields::PlayerRestStateExperience => 0x94 + 0x03Fd,
            PlayerFields::Coinage => 0x94 + 0x03Fe,
            PlayerFields::ModDamageDonePos => 0x94 + 0x03Ff,
            PlayerFields::ModDamageDoneNeg => 0x94 + 0x0406,
            PlayerFields::ModDamageDonePct => 0x94 + 0x040D,
            PlayerFields::ModHealingDonePos => 0x94 + 0x0414,
            PlayerFields::ModHealingPct => 0x94 + 0x0415,
            PlayerFields::ModHealingDonePct => 0x94 + 0x0416,
            PlayerFields::ModTargetResistance => 0x94 + 0x0417,
            PlayerFields::ModTargetPhysicalResistance => 0x94 + 0x0418,
            PlayerFields::Bytes => 0x94 + 0x0419,
            PlayerFields::PlayerAmmoId => 0x94 + 0x041A,
            PlayerFields::PlayerSelfResSpell => 0x94 + 0x041B,
            PlayerFields::PvpMedals => 0x94 + 0x041C,
            PlayerFields::BuybackPrice_1 => 0x94 + 0x041D,
            PlayerFields::BuybackTimestamp_1 => 0x94 + 0x0429,
            PlayerFields::Kills => 0x94 + 0x0435,
            PlayerFields::TodayContribution => 0x94 + 0x0436,
            PlayerFields::YesterdayContribution => 0x94 + 0x0437,
            PlayerFields::LifetimeHonorbaleKills => 0x94 + 0x0438,
            PlayerFields::Bytes2 => 0x94 + 0x0439,
            PlayerFields::WatchedFactionIndex => 0x94 + 0x043A,
            PlayerFields::CombatRating_1 => 0x94 + 0x043B,
            PlayerFields::ArenaTeamInfo_1_1 => 0x94 + 0x0454,
            PlayerFields::HonorCurrency => 0x94 + 0x0469,
            PlayerFields::ArenaCurrency => 0x94 + 0x046A,
            PlayerFields::MaxLevel => 0x94 + 0x046B,
            PlayerFields::DailyQuests_1 => 0x94 + 0x046C,
            PlayerFields::PlayerRuneRegen_1 => 0x94 + 0x0485,
            PlayerFields::PlayerNoReagentCost_1 => 0x94 + 0x0489,
            PlayerFields::GlyphSlots_1 => 0x94 + 0x048C,
            PlayerFields::Glyphs_1 => 0x94 + 0x0492,
            PlayerFields::PlayerGlyphsEnabled => 0x94 + 0x0498,
            PlayerFields::PlayerPetSpellPower => 0x94 + 0x0499,
            PlayerFields::PlayerEnd => 0x94 + 0x049A,
        }
    }
}

/// Update-field indices of a game object, after the object fields.
#[allow(non_camel_case_types)]
#[derive(PartialEq, Eq, Structural, Clone, Copy, Debug)]
pub enum GameObjectFields {
    ObjectFieldCreatedBy, // Size: 2, Type: Long, Flags: Public
    Displayid, // Size: 1, Type: Int, Flags: Public
    Flags, // Size: 1, Type: Int, Flags: Public
    Parentrotation, // Size: 4, Type: Float, Flags: Public
    Dynamic, // Size: 1, Type: TwoShort, Flags: Dynamic
    Faction, // Size: 1, Type: Int, Flags: Public
    Level, // Size: 1, Type: Int, Flags: Public
    Bytes1, // Size: 1, Type: Bytes, Flags: Public
    End,
}

impl GameObjectFields {
    /// The number the protocol uses for each variant.
    pub open spec fn spec_index(self) -> u32 {
        match self {
            GameObjectFields::ObjectFieldCreatedBy => 6,
            GameObjectFields::Displayid => 8,
            GameObjectFields::Flags => 9,
            GameObjectFields::Parentrotation => 10,
            GameObjectFields::Dynamic => 14,
            GameObjectFields::Faction => 15,
            GameObjectFields::Level => 16,
            GameObjectFields::Bytes1 => 17,
            GameObjectFields::End => 18,
        }
    }

    /// The number the protocol uses for this variant.
    pub fn index(&self) -> (r: u32)
        ensures
            r == self.spec_index(),
    {
        match self {
            GameObjectFields::ObjectFieldCreatedBy => 6 + 0x0000,
            GameObjectFields::Displayid => 6 + 0x0002,
            GameObjectFields::Flags => 6 + 0x0003,
            GameObjectFields::Parentrotation => 6 + 0x0004,
            GameObjectFields::Dynamic => 6 + 0x0008,
            GameObjectFields::Faction => 6 + 0x0009,
            GameObjectFields::Level => 6 + 0x000A,
            GameObjectFields::Bytes1 => 6 + 0x000B,
            GameObjectFields::End => 6 + 0x000C,
        }
    }
}

/// Update-field indices of a dynamic object, after the object fields.
#[allow(non_camel_case_types)]
#[derive(PartialEq, Eq, Structural, Clone, Copy, Debug)]
pub enum DynamicObjectFields {
    Caster, // Size: 2, Type: Long, Flags: Public
    Bytes, // Size: 1, Type: Bytes, Flags: Public
    Spellid, // Size: 1, Type: Int, Flags: Public
    Radius, // Size: 1, Type: Float, Flags: Public
    Casttime, // Size: 1, Type: Int, Flags: Public
    End,
}

impl DynamicObjectFields {
    /// The number the protocol uses for each variant.
    pub open spec fn spec_index(self) -> u32 {
        match self {
            DynamicObjectFields::Caster => 6,
            DynamicObjectFields::Bytes => 8,
            DynamicObjectFields::Spellid => 9,
            DynamicObjectFields::Radius => 10,
            DynamicObjectFields::Casttime => 11,
            DynamicObjectFields::End => 12,
        }
    }

    /// The number the protocol uses for this variant.
    pub fn index(&self) -> (r: u32)
        ensures
            r == self.spec_index(),
    {
        match self {
            DynamicObjectFields::Caster => 6 + 0x0000,
            DynamicObjectFields::Bytes => 6 + 0x0002,
            DynamicObjectFields::Spellid => 6 + 0x0003,
            DynamicObjectFields::Radius => 6 + 0x0004,
            DynamicObjectFields::Casttime => 6 + 0x0005,
            DynamicObjectFields::End => 6 + 0x0006,
        }
    }
}

/// Update-field indices of a corpse, after the object fields.
#[allow(non_camel_case_types)]
#[derive(PartialEq, Eq, Structural, Clone, Copy, Debug)]
pub enum CorpseFields {
    Owner, // Size: 2, Type: Long, Flags: Public
    Party, // Size: 2, Type: Long, Flags: Public
    DisplayId, // Size: 1, Type: Int, Flags: Public
    Item, // Size: 19, Type: Int, Flags: Public
    Bytes1, // Size: 1, Type: Bytes, Flags: Public
    Bytes2, // Size: 1, Type: Bytes, Flags: Public
    Guild, // Size: 1, Type: Int, Flags: Public
    Flags, // Size: 1, Type: Int, Flags: Public
    DynamicFlags, // Size: 1, Type: Int, Flags: Dynamic
    Pad, // Size: 1, Type: Int, Flags: None
    End,
}

impl CorpseFields {
    /// The number the protocol uses for each variant.
    pub open spec fn spec_index(self) -> u32 {
        match self {
            CorpseFields::Owner => 6,
            CorpseFields::Party => 8,
            CorpseFields::DisplayId => 10,
            CorpseFields::Item => 11,
            CorpseFields::Bytes1 => 30,
            CorpseFields::Bytes2 => 31,
            CorpseFields::Guild => 32,
            CorpseFields::Flags => 33,
            CorpseFields::DynamicFlags => 34,
            CorpseFields::Pad => 35,
            CorpseFields::End => 36,
        }
    }

    /// The number the protocol uses for this variant.
    pub fn index(&self) -> (r: u32)
        ensures
            r == self.spec_index(),
    {
        match self {
            CorpseFields::Owner => 6 + 0x0000,
            CorpseFields::Party => 6 + 0x0002,
            CorpseFields::DisplayId => 6 + 0x0004,
            CorpseFields::Item => 6 + 0x0005,
            CorpseFields::Bytes1 => 6 + 0x0018,
            CorpseFields::Bytes2 => 6 + 0x0019,
            CorpseFields::Guild => 6 + 0x001A,
            CorpseFields::Flags => 6 + 0x001B,
            CorpseFields::DynamicFlags => 6 + 0x001C,
            CorpseFields::Pad => 6 + 0x001D,
            CorpseFields::End => 6 + 0x001E,
        }
    }
}

} // verus!
