//! A unit's movement record: flags, time, position and fall time, and its
//! little-endian wire form.

use crate::wire::{le_bytes_u16, le_bytes_u32, lemma_le_u16_bytes_roundtrip, lemma_le_u32_bytes_roundtrip, lemma_le_u16_roundtrip, lemma_le_u32_roundtrip, put_u16_le, put_u32_le, take_u16_le, take_u32_le};
use crate::guid::ReadError;
use vstd::prelude::*;

verus! {

/// A movement flag, as its bit in the movement flags field.
#[allow(non_camel_case_types)]
#[derive(PartialEq, Eq, Structural, Clone, Copy, Debug)]
pub enum MovementFlags {
    NoFlags,
    Forward,
    Backward,
    StrafeLeft,
    StrafeRight,
    TurnLeft,
    TurnRight,
    PitchRp,
    PitchDown,
    WalkMode,
    OnTransport,
    Levitating,
    Root,
    Falling,
    FallingFar,
    PendingStop,
    PendingStrafeStop,
    PendingForward,
    PendingBackward,
    PendingStrafeLeft,
    PendingStrafeRight,
    PendingRoot,
    Swimming,
    Ascending,
    Descending,
    CanFly,
    Flying,
    SplineElevation,
    SplineEnabled,
    WaterWalking,
    SafeFall,
    Hover,
}

impl MovementFlags {
    /// The number the protocol uses for each variant.
    pub open spec fn spec_value(self) -> u32 {
        match self {
            MovementFlags::NoFlags => 0x00000000,
            MovementFlags::Forward => 0x00000001,
            MovementFlags::Backward => 0x00000002,
            MovementFlags::StrafeLeft => 0x00000004,
            MovementFlags::StrafeRight => 0x00000008,
            MovementFlags::TurnLeft => 0x00000010,
            MovementFlags::TurnRight => 0x00000020,
            MovementFlags::PitchRp => 0x00000040,
            MovementFlags::PitchDown => 0x00000080,
            MovementFlags::WalkMode => 0x00000100,
            MovementFlags::OnTransport => 0x00000200,
            MovementFlags::Levitating => 0x00000400,
            MovementFlags::Root => 0x00000800,
            MovementFlags::Falling => 0x00001000,
            MovementFlags::FallingFar => 0x00002000,
            MovementFlags::PendingStop => 0x00004000,
            MovementFlags::PendingStrafeStop => 0x00008000,
            MovementFlags::PendingForward => 0x00010000,
            MovementFlags::PendingBackward => 0x00020000,
            MovementFlags::PendingStrafeLeft => 0x00040000,
            MovementFlags::PendingStrafeRight => 0x00080000,
            MovementFlags::PendingRoot => 0x00100000,
            MovementFlags::Swimming => 0x00200000,
            MovementFlags::Ascending => 0x00400000,
            MovementFlags::Descending => 0x00800000,
            MovementFlags::CanFly => 0x01000000,
            MovementFlags::Flying => 0x02000000,
            MovementFlags::SplineElevation => 0x04000000,
            MovementFlags::SplineEnabled => 0x08000000,
            MovementFlags::WaterWalking => 0x10000000,
            MovementFlags::SafeFall => 0x20000000,
            MovementFlags::Hover => 0x40000000,
        }
    }

    /// The number the protocol uses for this variant.
    pub fn value(&self) -> (r: u32)
        ensures
            r == self.spec_value(),
    {
        match self {
            MovementFlags::NoFlags => 0x00000000,
            MovementFlags::Forward => 0x00000001,
            MovementFlags::Backward => 0x00000002,
            MovementFlags::StrafeLeft => 0x00000004,
            MovementFlags::StrafeRight => 0x00000008,
            MovementFlags::TurnLeft => 0x00000010,
            MovementFlags::TurnRight => 0x00000020,
            MovementFlags::PitchRp => 0x00000040,
            MovementFlags::PitchDown => 0x00000080,
            MovementFlags::WalkMode => 0x00000100,
            MovementFlags::OnTransport => 0x00000200,
            MovementFlags::Levitating => 0x00000400,
            MovementFlags::Root => 0x00000800,
            MovementFlags::Falling => 0x00001000,
            MovementFlags::FallingFar => 0x00002000,
            MovementFlags::PendingStop => 0x00004000,
            MovementFlags::PendingStrafeStop => 0x00008000,
            MovementFlags::PendingForward => 0x00010000,
            MovementFlags::PendingBackward => 0x00020000,
            MovementFlags::PendingStrafeLeft => 0x00040000,
            MovementFlags::PendingStrafeRight => 0x00080000,
            MovementFlags::PendingRoot => 0x00100000,
            MovementFlags::Swimming => 0x00200000,
            MovementFlags::Ascending => 0x00400000,
            MovementFlags::Descending => 0x00800000,
            MovementFlags::CanFly => 0x01000000,
            MovementFlags::Flying => 0x02000000,
            MovementFlags::SplineElevation => 0x04000000,
            MovementFlags::SplineEnabled => 0x08000000,
            MovementFlags::WaterWalking => 0x10000000,
            MovementFlags::SafeFall => 0x20000000,
            MovementFlags::Hover => 0x40000000,
        }
    }
}
/// A position and facing. Each coordinate is carried as the bit pattern of
/// its 32-bit IEEE-754 float, which is how the wire holds it.
#[derive(PartialEq, Eq, Structural, Clone, Copy, Debug, Default)]
pub struct PositionAndOrientation {
    pub x_bits: u32,
    pub y_bits: u32,
    pub z_bits: u32,
    pub o_bits: u32,
}

/// The wire form of a position: the four coordinates, little-endian.
pub open spec fn position_bytes(p: PositionAndOrientation) -> Seq<u8> {
    le_bytes_u32(p.x_bits) + le_bytes_u32(p.y_bits) + le_bytes_u32(p.z_bits) + le_bytes_u32(
        p.o_bits,
    )
}

/// A unit's movement record.
#[derive(PartialEq, Eq, Structural, Clone, Copy, Debug, Default)]
pub struct MovementInfo {
    pub movement_flags: u32,
    pub movement_flags2: u16,
    pub time: u32,
    pub position: PositionAndOrientation,
    pub falltime: u32,
}

/// The wire form of a movement record: flags, second flags, time, position,
/// fall time, each little-endian; thirty bytes in all.
pub open spec fn movement_info_bytes(m: MovementInfo) -> Seq<u8> {
    le_bytes_u32(m.movement_flags) + le_bytes_u16(m.movement_flags2) + le_bytes_u32(m.time)
        + position_bytes(m.position) + le_bytes_u32(m.falltime)
}

/// Whether a record carries a flag: the flag's bits are tested in the first
/// flags field, and its lower sixteen bits in the second.
pub open spec fn has_flag(m: MovementInfo, flag: MovementFlags) -> bool {
    (m.movement_flags & flag.spec_value()) > 0 || (m.movement_flags2 & (flag.spec_value() as u16))
        > 0
}

impl MovementInfo {
    /// Whether this record carries `flag`.
    pub fn has_movement_flag(&self, flag: &MovementFlags) -> (r: bool)
        ensures
            r == has_flag(*self, *flag),
    {
        let v = flag.value();
        (self.movement_flags & v) > 0 || (self.movement_flags2 & (v as u16)) > 0
    }

    /// Whether this record carries any of `flags`.
    pub fn has_any_movement_flag(&self, flags: &[MovementFlags]) -> (r: bool)
        ensures
            r == exists|i: int| 0 <= i < flags@.len() && has_flag(*self, #[trigger] flags@[i]),
    {
        let mut i: usize = 0;
        while i < flags.len()
            invariant
                0 <= i <= flags@.len(),
                forall|j: int| 0 <= j < i ==> !has_flag(*self, #[trigger] flags@[j]),
            decreases flags@.len() - i,
        {
            if self.has_movement_flag(&flags[i]) {
                return true;
            }
            i = i + 1;
        }
        false
    }
}

/// Appends a position in its wire form.
pub fn write_position_and_orientation(buf: &mut Vec<u8>, position: &PositionAndOrientation)
    ensures
        final(buf)@ == old(buf)@ + position_bytes(*position),
{
    put_u32_le(buf, position.x_bits);
    put_u32_le(buf, position.y_bits);
    put_u32_le(buf, position.z_bits);
    put_u32_le(buf, position.o_bits);
    assert(buf@ =~= old(buf)@ + position_bytes(*position));
}

/// Appends a movement record in its wire form.
pub fn write_movement_info(buf: &mut Vec<u8>, info: &MovementInfo)
    ensures
        final(buf)@ == old(buf)@ + movement_info_bytes(*info),
{
    put_u32_le(buf, info.movement_flags);
    put_u16_le(buf, info.movement_flags2);
    put_u32_le(buf, info.time);
    write_position_and_orientation(buf, &info.position);
    put_u32_le(buf, info.falltime);
    assert(buf@ =~= old(buf)@ + movement_info_bytes(*info));
}

/// Reads a position at `pos`; on success also returns the position after
/// it.
pub fn read_position_and_orientation(bytes: &[u8], pos: usize) -> (r: Result<
    (PositionAndOrientation, usize),
    ReadError,
>)
    requires
        pos <= bytes@.len(),
    ensures
        r is Ok <==> pos + 16 <= bytes@.len(),
        r matches Ok((p, next)) ==> next == pos + 16 && position_bytes(p) == bytes@.subrange(
            pos as int,
            pos + 16,
        ),
{
    if bytes.len() - pos < 16 {
        return Err(ReadError::UnexpectedEnd);
    }
    let x = take_u32_le(bytes, pos).unwrap();
    let y = take_u32_le(bytes, pos + 4).unwrap();
    let z = take_u32_le(bytes, pos + 8).unwrap();
    let o = take_u32_le(bytes, pos + 12).unwrap();
    let p = PositionAndOrientation { x_bits: x, y_bits: y, z_bits: z, o_bits: o };
    proof {
        let s = bytes@.subrange(pos as int, pos + 16);
        lemma_le_u32_bytes_roundtrip(bytes@.subrange(pos as int, pos + 4));
        lemma_le_u32_bytes_roundtrip(bytes@.subrange(pos + 4, pos + 8));
        lemma_le_u32_bytes_roundtrip(bytes@.subrange(pos + 8, pos + 12));
        lemma_le_u32_bytes_roundtrip(bytes@.subrange(pos + 12, pos + 16));
        assert(position_bytes(p) =~= s);
    }
    Ok((p, pos + 16))
}

/// Reads a movement record at `pos`; on success also returns the position
/// after it.
pub fn read_movement_info(bytes: &[u8], pos: usize) -> (r: Result<(MovementInfo, usize), ReadError>)
    requires
        pos <= bytes@.len(),
    ensures
        r is Ok <==> pos + 30 <= bytes@.len(),
        r matches Ok((m, next)) ==> next == pos + 30 && movement_info_bytes(m) == bytes@.subrange(
            pos as int,
            pos + 30,
        ),
{
    if bytes.len() - pos < 30 {
        return Err(ReadError::UnexpectedEnd);
    }
    let movement_flags = take_u32_le(bytes, pos).unwrap();
    let movement_flags2 = take_u16_le(bytes, pos + 4).unwrap();
    let time = take_u32_le(bytes, pos + 6).unwrap();
    let (position, _) = match read_position_and_orientation(bytes, pos + 10) {
        Ok(v) => v,
        Err(e) => {
            return Err(e);
        },
    };
    let falltime = take_u32_le(bytes, pos + 26).unwrap();
    let m = MovementInfo { movement_flags, movement_flags2, time, position, falltime };
    proof {
        lemma_le_u32_bytes_roundtrip(bytes@.subrange(pos as int, pos + 4));
        lemma_le_u16_bytes_roundtrip(bytes@.subrange(pos + 4, pos + 6));
        lemma_le_u32_bytes_roundtrip(bytes@.subrange(pos + 6, pos + 10));
        lemma_le_u32_bytes_roundtrip(bytes@.subrange(pos + 26, pos + 30));
        assert(movement_info_bytes(m) =~= bytes@.subrange(pos as int, pos + 30));
    }
    Ok((m, pos + 30))
}

/// Two records with the same wire form are the same record.
pub proof fn lemma_movement_info_bytes_injective(a: MovementInfo, b: MovementInfo)
    requires
        movement_info_bytes(a) == movement_info_bytes(b),
    ensures
        a == b,
{
    let sa = movement_info_bytes(a);
    let sb = movement_info_bytes(b);
    assert(sa.subrange(0, 4) =~= le_bytes_u32(a.movement_flags));
    assert(sb.subrange(0, 4) =~= le_bytes_u32(b.movement_flags));
    assert(sa.subrange(4, 6) =~= le_bytes_u16(a.movement_flags2));
    assert(sb.subrange(4, 6) =~= le_bytes_u16(b.movement_flags2));
    assert(sa.subrange(6, 10) =~= le_bytes_u32(a.time));
    assert(sb.subrange(6, 10) =~= le_bytes_u32(b.time));
    assert(sa.subrange(10, 14) =~= le_bytes_u32(a.position.x_bits));
    assert(sb.subrange(10, 14) =~= le_bytes_u32(b.position.x_bits));
    assert(sa.subrange(14, 18) =~= le_bytes_u32(a.position.y_bits));
    assert(sb.subrange(14, 18) =~= le_bytes_u32(b.position.y_bits));
    assert(sa.subrange(18, 22) =~= le_bytes_u32(a.position.z_bits));
    assert(sb.subrange(18, 22) =~= le_bytes_u32(b.position.z_bits));
    assert(sa.subrange(22, 26) =~= le_bytes_u32(a.position.o_bits));
    assert(sb.subrange(22, 26) =~= le_bytes_u32(b.position.o_bits));
    assert(sa.subrange(26, 30) =~= le_bytes_u32(a.falltime));
    assert(sb.subrange(26, 30) =~= le_bytes_u32(b.falltime));
    lemma_le_u32_roundtrip(a.movement_flags);
    lemma_le_u32_roundtrip(b.movement_flags);
    lemma_le_u16_roundtrip(a.movement_flags2);
    lemma_le_u16_roundtrip(b.movement_flags2);
    lemma_le_u32_roundtrip(a.time);
    lemma_le_u32_roundtrip(b.time);
    lemma_le_u32_roundtrip(a.position.x_bits);
    lemma_le_u32_roundtrip(b.position.x_bits);
    lemma_le_u32_roundtrip(a.position.y_bits);
    lemma_le_u32_roundtrip(b.position.y_bits);
    lemma_le_u32_roundtrip(a.position.z_bits);
    lemma_le_u32_roundtrip(b.position.z_bits);
    lemma_le_u32_roundtrip(a.position.o_bits);
    lemma_le_u32_roundtrip(b.position.o_bits);
    lemma_le_u32_roundtrip(a.falltime);
    lemma_le_u32_roundtrip(b.falltime);
}

/// Reading back a written movement record gives the same record, and ends
/// right after it.
pub proof fn lemma_movement_info_roundtrip(written: MovementInfo, read: MovementInfo, prefix: Seq<u8>)
    requires
        movement_info_bytes(read) == (prefix + movement_info_bytes(written)).subrange(
            prefix.len() as int,
            prefix.len() + 30int,
        ),
    ensures
        read == written,
{
    assert((prefix + movement_info_bytes(written)).subrange(prefix.len() as int, prefix.len() + 30int)
        =~= movement_info_bytes(written));
    lemma_movement_info_bytes_injective(read, written);
}

} // verus!
