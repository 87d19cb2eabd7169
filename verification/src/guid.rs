//! Object identifiers (GUIDs) and their two wire forms: the plain eight-byte
//! integer and the compressed "packed" form.

use crate::wire::{
    bytes_u64, le_bytes_u64, lemma_u64_roundtrip, put_u64, put_u8, take_u64, u64_of, ByteOrder,
};
use vstd::prelude::*;

verus! {

/// A 64-bit object identifier.
#[derive(PartialEq, Eq, Structural, Hash, Clone, Copy, Debug)]
pub struct Guid(pub u64);

/// The kind of object a GUID names, stored in its upper sixteen bits.
#[derive(PartialEq, Eq, Structural, Clone, Copy, Debug)]
pub enum HighGuid {
    Player,
    ItemOrContainer,
    GameObject,
    Transport,
    Unit,
    Pet,
    Vehicle,
    DynamicObject,
    Corpse,
    MoTransport,
    Group,
    Instance,
}

impl HighGuid {
    /// The sixteen-bit tag of each kind.
    pub open spec fn spec_value(self) -> u16 {
        match self {
            HighGuid::Player => 0x0000,
            HighGuid::ItemOrContainer => 0x4000,
            HighGuid::GameObject => 0xF110,
            HighGuid::Transport => 0xF120,
            HighGuid::Unit => 0xF130,
            HighGuid::Pet => 0xF140,
            HighGuid::Vehicle => 0xF150,
            HighGuid::DynamicObject => 0xF100,
            HighGuid::Corpse => 0xF101,
            HighGuid::MoTransport => 0x1FC0,
            HighGuid::Group => 0x1F50,
            HighGuid::Instance => 0x1F42,
        }
    }

    /// The sixteen-bit tag of this kind.
    pub fn value(&self) -> (r: u16)
        ensures
            r == self.spec_value(),
    {
        match self {
            HighGuid::Player => 0x0000,
            HighGuid::ItemOrContainer => 0x4000,
            HighGuid::GameObject => 0xF110,
            HighGuid::Transport => 0xF120,
            HighGuid::Unit => 0xF130,
            HighGuid::Pet => 0xF140,
            HighGuid::Vehicle => 0xF150,
            HighGuid::DynamicObject => 0xF100,
            HighGuid::Corpse => 0xF101,
            HighGuid::MoTransport => 0x1FC0,
            HighGuid::Group => 0x1F50,
            HighGuid::Instance => 0x1F42,
        }
    }
}

/// The integer that `Guid::new` builds: `low`, with `mid` shifted to bit 24
/// and the kind's tag shifted to bit 48, combined with bitwise or.
pub open spec fn guid_bits(low: u32, mid: u32, high: u16) -> u64 {
    (low as u64) | ((mid as u64) << 24u64) | ((high as u64) << 48u64)
}

/// Byte `index` (0 is the least significant) of `v`.
pub open spec fn byte_at(v: u64, index: int) -> u8 {
    ((v >> ((8 * index) as u64)) & 0xff) as u8
}

impl Guid {
    /// Builds a GUID from its low part, its middle part and its kind.
    pub fn new(low: u32, mid: u32, high: HighGuid) -> (r: Self)
        ensures
            r.0 == guid_bits(low, mid, high.spec_value()),
    {
        let h = high.value();
        Guid((low as u64) | ((mid as u64) << 24u64) | ((h as u64) << 48u64))
    }

    /// The lower thirty-two bits.
    pub fn get_low_part(&self) -> (r: u32)
        ensures
            r as u64 == self.0 & 0xFFFF_FFFF,
    {
        let v = self.0;
        assert((v as u32) as u64 == v & 0xFFFF_FFFF) by (bit_vector);
        v as u32
    }

    /// The upper thirty-two bits.
    pub fn get_high_part(&self) -> (r: u32)
        ensures
            r as u64 == self.0 >> 32u64,
    {
        let v = self.0;
        assert((((v & 0xFFFFFFFF00000000u64) >> 32u64) as u32) as u64 == v >> 32u64)
            by (bit_vector);
        ((v & 0xFFFFFFFF00000000u64) >> 32u64) as u32
    }

    /// The sixty-four bits, as the protocol's messages carry them.
    pub fn raw(&self) -> (r: u64)
        ensures
            r == self.0,
    {
        self.0
    }
}

/// The parts of a GUID built by `Guid::new`: its low part is `low` with the
/// lowest byte of `mid` in its top byte, and its high part is `mid` without
/// that byte, or-ed with the kind's tag shifted by sixteen.
pub proof fn lemma_guid_new_parts(low: u32, mid: u32, high: HighGuid)
    ensures
        guid_bits(low, mid, high.spec_value()) & 0xFFFF_FFFF == ((low as u64) | (((mid as u64)
            & 0xff) << 24u64)),
        guid_bits(low, mid, high.spec_value()) >> 32u64 == ((mid as u64) >> 8u64) | ((
        high.spec_value() as u64) << 16u64),
{
    let h = high.spec_value();
    assert(((low as u64) | ((mid as u64) << 24u64) | ((h as u64) << 48u64)) & 0xFFFF_FFFF == ((
    low as u64) | (((mid as u64) & 0xff) << 24u64))) by (bit_vector);
    assert(((low as u64) | ((mid as u64) << 24u64) | ((h as u64) << 48u64)) >> 32u64 == ((
    mid as u64) >> 8u64) | ((h as u64) << 16u64)) by (bit_vector);
}

/// A GUID whose middle part fits in twenty-four bits gives back `low` as its
/// low part.
pub proof fn lemma_guid_new_low_part(low: u32, high: HighGuid)
    ensures
        guid_bits(low, 0, high.spec_value()) & 0xFFFF_FFFF == low as u64,
        guid_bits(low, 0, high.spec_value()) >> 32u64 == (high.spec_value() as u64) << 16u64,
{
    lemma_guid_new_parts(low, 0, high);
    assert(((0u32 as u64) & 0xff) << 24u64 == 0u64) by (bit_vector);
    assert((low as u64) | 0u64 == low as u64) by (bit_vector);
    assert(((0u32 as u64) >> 8u64) | ((high.spec_value() as u64) << 16u64) == (
    high.spec_value() as u64) << 16u64) by (bit_vector);
}

/// Byte `index` (0 is the least significant) of `input`.
pub fn get_byte_value_at(input: u64, index: isize) -> (r: u8)
    requires
        0 <= index < 8,
    ensures
        r == byte_at(input, index as int),
{
    let shift: u64 = (8 * index) as u64;
    let shifted = input >> shift;
    let result = (shifted & 0x00000000000000FF) as u8;
    result
}

/// The mask of the compressed form over the first `n` bytes: bit `i` is set
/// exactly when byte `i` is not zero.
pub open spec fn packed_mask_prefix(v: u64, n: nat) -> u8
    decreases n,
{
    if n == 0 {
        0
    } else {
        let rest = packed_mask_prefix(v, (n - 1) as nat);
        if byte_at(v, n - 1) > 0 {
            rest | (1u8 << ((n - 1) as u8))
        } else {
            rest
        }
    }
}

/// The non-zero bytes among the first `n`, from the most significant down.
pub open spec fn packed_bytes_prefix(v: u64, n: nat) -> Seq<u8>
    decreases n,
{
    if n == 0 {
        seq![]
    } else {
        let b = byte_at(v, n - 1);
        if b > 0 {
            seq![b] + packed_bytes_prefix(v, (n - 1) as nat)
        } else {
            packed_bytes_prefix(v, (n - 1) as nat)
        }
    }
}

/// The compressed form of a GUID: the mask byte, then each non-zero byte,
/// from the most significant down.
pub open spec fn packed_guid_bytes(v: u64) -> Seq<u8> {
    seq![packed_mask_prefix(v, 8)] + packed_bytes_prefix(v, 8)
}

/// The non-zero bytes from byte `hi - 1` down to byte `lo`.
pub open spec fn packed_bytes_between(v: u64, lo: nat, hi: nat) -> Seq<u8>
    decreases hi,
{
    if hi <= lo {
        seq![]
    } else {
        let b = byte_at(v, hi - 1);
        if b > 0 {
            seq![b] + packed_bytes_between(v, lo, (hi - 1) as nat)
        } else {
            packed_bytes_between(v, lo, (hi - 1) as nat)
        }
    }
}

proof fn lemma_packed_between_split(v: u64, lo: nat, hi: nat)
    requires
        lo < hi,
    ensures
        packed_bytes_between(v, lo, hi) == packed_bytes_between(v, (lo + 1) as nat, hi) + (if byte_at(
            v,
            lo as int,
        ) > 0 {
            seq![byte_at(v, lo as int)]
        } else {
            seq![]
        }),
    decreases hi,
{
    if hi == lo + 1 {
        assert(packed_bytes_between(v, (lo + 1) as nat, hi) =~= seq![]);
        assert(packed_bytes_between(v, lo, (hi - 1) as nat) =~= seq![]);
    } else {
        lemma_packed_between_split(v, lo, (hi - 1) as nat);
        let b = byte_at(v, hi - 1);
        if b > 0 {
            assert(packed_bytes_between(v, lo, hi) =~= seq![b] + packed_bytes_between(
                v,
                lo,
                (hi - 1) as nat,
            ));
        }
    }
}

proof fn lemma_packed_between_is_prefix(v: u64, n: nat)
    ensures
        packed_bytes_between(v, 0, n) == packed_bytes_prefix(v, n),
    decreases n,
{
    if n > 0 {
        lemma_packed_between_is_prefix(v, (n - 1) as nat);
    }
}

/// Appends `guid` to `buf` as an eight-byte integer in the given order.
pub fn write_guid(buf: &mut Vec<u8>, guid: &Guid, order: ByteOrder)
    ensures
        final(buf)@ == old(buf)@ + bytes_u64(guid.0, order),
{
    put_u64(buf, guid.0, order);
}

/// Appends `guid` to `buf` in compressed form: a mask byte whose bit `i`
/// says byte `i` is not zero, then the non-zero bytes from the most
/// significant down.
pub fn write_guid_compressed(buf: &mut Vec<u8>, guid: &Guid)
    ensures
        final(buf)@ == old(buf)@ + packed_guid_bytes(guid.0),
{
    let mut mask: u8 = 0;
    let inner: u64 = guid.0;
    let mut i: isize = 0;
    while i < 8
        invariant
            0 <= i <= 8,
            mask == packed_mask_prefix(inner, i as nat),
        decreases 8 - i,
    {
        if get_byte_value_at(inner, i) > 0 {
            mask = mask | (1u8 << (i as u8));
        }
        i = i + 1;
    }
    put_u8(buf, mask);
    let ghost start = buf@;
    let mut j: isize = 8;
    while j > 0
        invariant
            0 <= j <= 8,
            buf@ == start + packed_bytes_between(inner, j as nat, 8),
        decreases j,
    {
        j = j - 1;
        let val = get_byte_value_at(inner, j);
        proof {
            lemma_packed_between_split(inner, j as nat, 8);
        }
        if val > 0 {
            put_u8(buf, val);
            assert(buf@ =~= start + packed_bytes_between(inner, j as nat, 8));
        } else {
            assert(buf@ =~= start + packed_bytes_between(inner, j as nat, 8));
        }
    }
    proof {
        lemma_packed_between_is_prefix(inner, 8);
        assert(buf@ =~= old(buf)@ + packed_guid_bytes(inner));
    }
}

/// Why a read from the wire failed.
#[derive(PartialEq, Eq, Structural, Clone, Copy, Debug)]
pub enum ReadError {
    /// The input ended before the record did.
    UnexpectedEnd,
}

/// Reads an eight-byte GUID in the given order from the start of `bytes`.
pub fn read_guid(bytes: &[u8], order: ByteOrder) -> (r: Result<Guid, ReadError>)
    ensures
        r is Ok <==> bytes@.len() >= 8,
        r matches Ok(g) ==> g.0 == u64_of(bytes@.subrange(0, 8), order),
{
    match take_u64(bytes, 0, order) {
        Some(v) => Ok(Guid(v)),
        None => Err(ReadError::UnexpectedEnd),
    }
}

/// Reading back what `write_guid` wrote gives the same GUID.
pub proof fn lemma_guid_roundtrip(prefix: Seq<u8>, guid: Guid, order: ByteOrder)
    ensures
        u64_of((prefix + bytes_u64(guid.0, order)).subrange(
            prefix.len() as int,
            prefix.len() + 8int,
        ), order) == guid.0,
{
    let s = prefix + bytes_u64(guid.0, order);
    assert(s.subrange(prefix.len() as int, prefix.len() + 8int) =~= bytes_u64(guid.0, order));
    lemma_u64_roundtrip(guid.0, order);
}

/// Bit `i` of the compressed form's mask is set exactly when byte `i` of the
/// GUID is not zero.
pub proof fn lemma_packed_mask_bits(v: u64, n: nat, i: nat)
    requires
        n <= 8,
        i < 8,
    ensures
        ((packed_mask_prefix(v, n) >> (i as u8)) & 1u8 == 1u8) <==> (i < n && byte_at(v, i as int)
            > 0),
    decreases n,
{
    if n > 0 {
        lemma_packed_mask_bits(v, (n - 1) as nat, i);
        let rest = packed_mask_prefix(v, (n - 1) as nat);
        let k = (n - 1) as u8;
        let ii = i as u8;
        if byte_at(v, n - 1) > 0 {
            assert(k < 8 && ii < 8 ==> (((rest | (1u8 << k)) >> ii) & 1u8 == 1u8) == ((ii == k)
                || ((rest >> ii) & 1u8 == 1u8))) by (bit_vector);
        }
    } else {
        let ii = i as u8;
        assert(ii < 8 ==> (0u8 >> ii) & 1u8 == 0u8) by (bit_vector);
    }
}

} // verus!
