use world_server::data::tutorial_flags::{TutorialFlags, TutorialFlagsError};
use world_server::data_types::tutorial_flags::TutorialFlags as TutorialFlagBytes;

#[test]
fn set_bit_then_get_bit() {
    let mut flags = TutorialFlags::from_words(&[0u32; 8]);
    assert_eq!(flags.bit_length(), 256);
    flags.set_bit(37, true);
    assert!(flags.get_bit(37));
    assert!(!flags.get_bit(36));
    assert_eq!(flags.flag_data[1], 1 << 5);
    flags.set_bit(37, false);
    assert!(!flags.get_bit(37));
    assert_eq!(flags.flag_data, [0u32; 8]);
}

#[test]
fn flags_from_bytes_are_little_endian_words() {
    let mut bytes = [0u8; 32];
    bytes[0] = 0x01;
    bytes[5] = 0x80;
    let flags = TutorialFlags::from_bytes(&bytes);
    assert_eq!(flags.flag_data[0], 1);
    assert_eq!(flags.flag_data[1], 0x8000);
    assert!(flags.get_bit(0));
    assert!(flags.get_bit(32 + 15));
}

#[test]
fn get_and_set_bit_ranges() {
    let mut flags = TutorialFlags::from_words(&[0u32; 8]);
    flags.set_bits(4, 12, 0xAB);
    assert_eq!(flags.get_bits(4, 12), 0xAB);
    assert_eq!(flags.flag_data[0], 0xAB0);
    assert_eq!(flags.get_bits(0, 4), 0);
}

#[test]
fn reset_clears_every_flag() {
    let mut flags = TutorialFlags::from_words(&[u32::MAX; 8]);
    flags.reset();
    assert_eq!(flags.flag_data, [0u32; 8]);
    for bit in 0..256 {
        assert!(!flags.get_bit(bit));
    }
}

#[test]
fn tutorial_flags_need_thirty_two_bytes() {
    assert_eq!(TutorialFlags::try_from_slice(&[0u8; 31]).err(), Some(TutorialFlagsError::WrongSize));
    assert_eq!(
        TutorialFlags::from_database_entry(&[0u8; 33]).err(),
        Some(TutorialFlagsError::IncorrectDatabaseArraySize)
    );
    let mut bytes = vec![0u8; 32];
    bytes[31] = 0x80;
    let flags = TutorialFlags::from_database_entry(&bytes).unwrap();
    assert!(flags.get_bit(255));
    assert_eq!(TutorialFlags::try_from_slice(&bytes).unwrap().flag_data, flags.flag_data);
}

#[test]
fn stored_tutorial_bytes_default_to_no_flag() {
    let mut bytes = [0u8; 32];
    bytes[3] = 9;
    assert_eq!(TutorialFlagBytes::from_database_entry(&bytes).flag_data, bytes);
    assert_eq!(TutorialFlagBytes::from_database_entry(&[1, 2, 3]).flag_data, [0u8; 32]);
    assert_eq!(TutorialFlagBytes::from_array(bytes).flag_data, bytes);
}
