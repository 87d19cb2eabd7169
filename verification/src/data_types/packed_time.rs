//! A packed calendar time and its four-byte wire form.

pub use crate::data::packed_time::PackedTime;
use crate::guid::ReadError;
use crate::wire::{bytes_u32, put_u32, take_u32, u32_of, ByteOrder};
use vstd::prelude::*;

verus! {

/// Appends a packed time as a four-byte integer in the given order.
pub fn write_packed_time(buf: &mut Vec<u8>, packed_time: &PackedTime, order: ByteOrder)
    ensures
        final(buf)@ == old(buf)@ + bytes_u32(packed_time.0, order),
{
    put_u32(buf, packed_time.0, order);
}

/// Reads a packed time, a four-byte integer in the given order, at the
/// start of `bytes`.
pub fn read_packed_time(bytes: &[u8], order: ByteOrder) -> (r: Result<PackedTime, ReadError>)
    ensures
        r is Ok <==> bytes@.len() >= 4,
        r matches Ok(p) ==> p.0 == u32_of(bytes@.subrange(0, 4), order),
{
    match take_u32(bytes, 0, order) {
        Some(v) => Ok(PackedTime(v)),
        None => Err(ReadError::UnexpectedEnd),
    }
}

} // verus!
