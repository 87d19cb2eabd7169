use world_server::constants::unit_flags::{UnitFlagIndex, UnitFlags};

#[test]
fn test_unit_flags_indices() {
    assert_eq!(1usize << UnitFlagIndex::Unk0.index(), UnitFlags::Unk0.value() as usize);
    assert_eq!(1usize << UnitFlagIndex::NonAttackable.index(), UnitFlags::NonAttackable.value() as usize);
    assert_eq!(1usize << UnitFlagIndex::DisableMove.index(), UnitFlags::DisableMove.value() as usize);
    assert_eq!(1usize << UnitFlagIndex::PvpAttackable.index(), UnitFlags::PvpAttackable.value() as usize);
    assert_eq!(1usize << UnitFlagIndex::Rename.index(), UnitFlags::Rename.value() as usize);
    assert_eq!(1usize << UnitFlagIndex::Preparation.index(), UnitFlags::Preparation.value() as usize);
    assert_eq!(1usize << UnitFlagIndex::Unk6.index(), UnitFlags::Unk6.value() as usize);
    assert_eq!(1usize << UnitFlagIndex::NotAttackable1.index(), UnitFlags::NotAttackable1.value() as usize);
    assert_eq!(1usize << UnitFlagIndex::OocNotAttackable.index(), UnitFlags::OocNotAttackable.value() as usize);
    assert_eq!(1usize << UnitFlagIndex::Passive.index(), UnitFlags::Passive.value() as usize);
    assert_eq!(1usize << UnitFlagIndex::Looting.index(), UnitFlags::Looting.value() as usize);
    assert_eq!(1usize << UnitFlagIndex::PetInCombat.index(), UnitFlags::PetInCombat.value() as usize);
    assert_eq!(1usize << UnitFlagIndex::Pvp.index(), UnitFlags::Pvp.value() as usize);
    assert_eq!(1usize << UnitFlagIndex::Silenced.index(), UnitFlags::Silenced.value() as usize);
    assert_eq!(1usize << UnitFlagIndex::Unk14.index(), UnitFlags::Unk14.value() as usize);
    assert_eq!(1usize << UnitFlagIndex::Unk15.index(), UnitFlags::Unk15.value() as usize);
    assert_eq!(1usize << UnitFlagIndex::Unk16.index(), UnitFlags::Unk16.value() as usize);
    assert_eq!(1usize << UnitFlagIndex::Pacified.index(), UnitFlags::Pacified.value() as usize);
    assert_eq!(1usize << UnitFlagIndex::Stunned.index(), UnitFlags::Stunned.value() as usize);
    assert_eq!(1usize << UnitFlagIndex::InCombat.index(), UnitFlags::InCombat.value() as usize);
    assert_eq!(1usize << UnitFlagIndex::TaxiFlight.index(), UnitFlags::TaxiFlight.value() as usize);
    assert_eq!(1usize << UnitFlagIndex::Disarmed.index(), UnitFlags::Disarmed.value() as usize);
    assert_eq!(1usize << UnitFlagIndex::Confused.index(), UnitFlags::Confused.value() as usize);
    assert_eq!(1usize << UnitFlagIndex::Fleeing.index(), UnitFlags::Fleeing.value() as usize);
    assert_eq!(1usize << UnitFlagIndex::PlayerControlled.index(), UnitFlags::PlayerControlled.value() as usize);
    assert_eq!(1usize << UnitFlagIndex::NotSelectable.index(), UnitFlags::NotSelectable.value() as usize);
    assert_eq!(1usize << UnitFlagIndex::Skinnable.index(), UnitFlags::Skinnable.value() as usize);
    assert_eq!(1usize << UnitFlagIndex::Mount.index(), UnitFlags::Mount.value() as usize);
    assert_eq!(1usize << UnitFlagIndex::Unk28.index(), UnitFlags::Unk28.value() as usize);
    assert_eq!(1usize << UnitFlagIndex::Unk29.index(), UnitFlags::Unk29.value() as usize);
    assert_eq!(1usize << UnitFlagIndex::Sheathe.index(), UnitFlags::Sheathe.value() as usize);
}
