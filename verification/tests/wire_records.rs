use world_server::data::movement_info::{
    read_movement_info, read_position_and_orientation, write_movement_info, write_position_and_orientation,
    MovementFlags, MovementInfo, PositionAndOrientation,
};
use world_server::data::packed_time::PackedTime;
use world_server::data_types::packed_time::{read_packed_time, write_packed_time};
use world_server::guid::ReadError;
use world_server::wire::ByteOrder;

fn sample_position() -> PositionAndOrientation {
    PositionAndOrientation {
        x_bits: 1.5f32.to_bits(),
        y_bits: (-2.0f32).to_bits(),
        z_bits: 3.25f32.to_bits(),
        o_bits: 0.5f32.to_bits(),
    }
}

fn sample_movement() -> MovementInfo {
    MovementInfo {
        movement_flags: 0x0000_1001,
        movement_flags2: 0x0020,
        time: 0x1234_5678,
        position: sample_position(),
        falltime: 7,
    }
}

#[test]
fn position_is_four_little_endian_floats() {
    let mut buf = Vec::new();
    write_position_and_orientation(&mut buf, &sample_position());
    assert_eq!(buf.len(), 16);
    assert_eq!(&buf[0..4], &1.5f32.to_le_bytes());
    assert_eq!(&buf[12..16], &0.5f32.to_le_bytes());
    let (p, next) = read_position_and_orientation(&buf, 0).unwrap();
    assert_eq!(p, sample_position());
    assert_eq!(next, 16);
}

#[test]
fn movement_info_roundtrips_in_thirty_bytes() {
    let mut buf = vec![0xEE];
    write_movement_info(&mut buf, &sample_movement());
    assert_eq!(buf.len(), 31);
    assert_eq!(&buf[1..5], &0x0000_1001u32.to_le_bytes());
    assert_eq!(&buf[5..7], &0x0020u16.to_le_bytes());
    let (m, next) = read_movement_info(&buf, 1).unwrap();
    assert_eq!(next, 31);
    assert_eq!(m.movement_flags, 0x0000_1001);
    assert_eq!(m.movement_flags2, 0x0020);
    assert_eq!(m.time, 0x1234_5678);
    assert_eq!(m.position, sample_position());
    assert_eq!(m.falltime, 7);
}

#[test]
fn short_movement_info_is_an_error() {
    let mut buf = Vec::new();
    write_movement_info(&mut buf, &sample_movement());
    buf.pop();
    assert_eq!(read_movement_info(&buf, 0).err(), Some(ReadError::UnexpectedEnd));
    assert_eq!(read_position_and_orientation(&[0u8; 15], 0).err(), Some(ReadError::UnexpectedEnd));
}

#[test]
fn movement_flags_are_tested_in_both_fields() {
    let m = sample_movement();
    assert!(m.has_movement_flag(&MovementFlags::Falling));
    assert!(m.has_movement_flag(&MovementFlags::Forward));
    assert!(!m.has_movement_flag(&MovementFlags::Backward));
    assert!(m.has_any_movement_flag(&[MovementFlags::Backward, MovementFlags::Falling]));
    assert!(!m.has_any_movement_flag(&[MovementFlags::Backward, MovementFlags::FallingFar]));
    assert!(!m.has_any_movement_flag(&[]));
}

#[test]
fn packed_time_places_each_calendar_part() {
    let p = PackedTime::from_components(30, 12, 5, 14, 6, 2023);
    let expected = 30 | (12 << 6) | (5 << 11) | (14 << 14) | (6 << 20) | (23 << 24);
    assert_eq!(p.as_u32(), expected);
    assert_eq!(u32::from(p), expected);
}

#[test]
fn packed_time_of_a_unix_time() {
    // 2023-07-15 12:30:00 UTC, a Saturday.
    let p = PackedTime::from_unix_timestamp(1_689_424_200).unwrap();
    assert_eq!(p, PackedTime::from_components(30, 12, 5, 14, 6, 2023));
    // 1999 cannot be packed.
    assert_eq!(PackedTime::from_unix_timestamp(915_148_800), None);
}

#[test]
fn packed_time_roundtrips() {
    let p = PackedTime(0x1765_4321);
    for order in [ByteOrder::Little, ByteOrder::Big] {
        let mut buf = Vec::new();
        write_packed_time(&mut buf, &p, order);
        assert_eq!(buf.len(), 4);
        assert_eq!(read_packed_time(&buf, order), Ok(p));
    }
    assert_eq!(read_packed_time(&[1, 2, 3], ByteOrder::Little), Err(ReadError::UnexpectedEnd));
}
