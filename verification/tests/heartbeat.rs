use world_server::auth::{heartbeat_message, HEARTBEAT};

#[test]
fn heartbeat_carries_realm_and_players_big_endian() {
    assert_eq!(HEARTBEAT, 0);
    assert_eq!(heartbeat_message(3, 0x0102_0304), vec![0, 3, 1, 2, 3, 4]);
    assert_eq!(heartbeat_message(255, 0), vec![0, 255, 0, 0, 0, 0]);
}
