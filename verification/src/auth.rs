//! The heartbeat the world server sends the auth server: which realm it
//! is and how many players are online.

use crate::wire::{bytes_u32, put_u32, put_u8, ByteOrder};
use vstd::prelude::*;

verus! {

/// The message kind of a heartbeat.
pub const HEARTBEAT: u8 = 0;

/// The bytes of a heartbeat: its kind, the realm id, and the number of
/// players online, big-endian.
pub open spec fn heartbeat_bytes(realm_id: u8, num_players_online: u32) -> Seq<u8> {
    seq![HEARTBEAT, realm_id] + bytes_u32(num_players_online, ByteOrder::Big)
}

/// The heartbeat of realm `realm_id` with `num_players_online` players.
pub fn heartbeat_message(realm_id: u8, num_players_online: u32) -> (r: Vec<u8>)
    ensures
        r@ == heartbeat_bytes(realm_id, num_players_online),
        r@.len() == 6,
{
    let mut buf: Vec<u8> = Vec::new();
    put_u8(&mut buf, HEARTBEAT);
    put_u8(&mut buf, realm_id);
    put_u32(&mut buf, num_players_online, ByteOrder::Big);
    assert(buf@ =~= heartbeat_bytes(realm_id, num_players_online));
    buf
}

} // verus!
