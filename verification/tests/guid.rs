use world_server::guid::{get_byte_value_at, read_guid, write_guid, write_guid_compressed, Guid, HighGuid, ReadError};
use world_server::wire::ByteOrder;

#[test]
fn guid_new_places_low_mid_and_high_parts() {
    let g = Guid::new(1, 2, HighGuid::Unit);
    assert_eq!(g.0, 0xF130_0000_0200_0001);
    assert_eq!(g.get_low_part(), 0x0200_0001);
    assert_eq!(g.get_high_part(), 0xF130_0000);
    assert_eq!(g.raw(), 0xF130_0000_0200_0001);
}

#[test]
fn guid_new_of_player_keeps_low_part() {
    let g = Guid::new(5, 0, HighGuid::Player);
    assert_eq!(g.0, 5);
    assert_eq!(g.get_low_part(), 5);
    assert_eq!(g.get_high_part(), 0);
}

#[test]
fn byte_value_at_counts_from_least_significant() {
    let v = 0x0102_0304_0506_0708u64;
    assert_eq!(get_byte_value_at(v, 0), 0x08);
    assert_eq!(get_byte_value_at(v, 3), 0x05);
    assert_eq!(get_byte_value_at(v, 7), 0x01);
}

#[test]
fn write_guid_in_both_orders() {
    let g = Guid(0x0102_0304_0506_0708);
    let mut le = Vec::new();
    write_guid(&mut le, &g, ByteOrder::Little);
    assert_eq!(le, vec![8, 7, 6, 5, 4, 3, 2, 1]);
    let mut be = Vec::new();
    write_guid(&mut be, &g, ByteOrder::Big);
    assert_eq!(be, vec![1, 2, 3, 4, 5, 6, 7, 8]);
}

#[test]
fn guid_roundtrips_through_its_bytes() {
    let g = Guid(0xDEAD_BEEF_0000_0042);
    for order in [ByteOrder::Little, ByteOrder::Big] {
        let mut buf = Vec::new();
        write_guid(&mut buf, &g, order);
        assert_eq!(read_guid(&buf, order), Ok(g));
    }
}

#[test]
fn read_guid_needs_eight_bytes() {
    assert_eq!(read_guid(&[1, 2, 3, 4, 5, 6, 7], ByteOrder::Little), Err(ReadError::UnexpectedEnd));
}

#[test]
fn compressed_guid_writes_mask_then_nonzero_bytes_from_the_top() {
    let mut buf = Vec::new();
    write_guid_compressed(&mut buf, &Guid(0x0000_0005_0000_0107));
    assert_eq!(buf, vec![0x13, 0x05, 0x01, 0x07]);
}

#[test]
fn compressed_zero_guid_is_a_zero_mask() {
    let mut buf = vec![0xAA];
    write_guid_compressed(&mut buf, &Guid(0));
    assert_eq!(buf, vec![0xAA, 0x00]);
}
