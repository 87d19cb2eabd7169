//! Byte-level encodings shared by the protocol records.
//!
//! Multi-byte integers are written and read through `podio`; the contracts
//! below say which bytes that yields, over the spec functions of this module.

use podio::{BigEndian, LittleEndian, ReadPodExt, WritePodExt};
use vstd::prelude::*;

verus! {

/// Byte order of a multi-byte integer on the wire.
#[derive(Clone, Copy, Debug, PartialEq, Eq)]
pub enum ByteOrder {
    Little,
    Big,
}

/// The little-endian bytes of a `u16`.
pub open spec fn le_bytes_u16(v: u16) -> Seq<u8> {
    seq![(v & 0xff) as u8, ((v >> 8u16) & 0xff) as u8]
}

/// The little-endian bytes of a `u32`.
pub open spec fn le_bytes_u32(v: u32) -> Seq<u8> {
    seq![
        (v & 0xff) as u8,
        ((v >> 8u32) & 0xff) as u8,
        ((v >> 16u32) & 0xff) as u8,
        ((v >> 24u32) & 0xff) as u8,
    ]
}

/// The little-endian bytes of a `u64`.
pub open spec fn le_bytes_u64(v: u64) -> Seq<u8> {
    seq![
        (v & 0xff) as u8,
        ((v >> 8u64) & 0xff) as u8,
        ((v >> 16u64) & 0xff) as u8,
        ((v >> 24u64) & 0xff) as u8,
        ((v >> 32u64) & 0xff) as u8,
        ((v >> 40u64) & 0xff) as u8,
        ((v >> 48u64) & 0xff) as u8,
        ((v >> 56u64) & 0xff) as u8,
    ]
}

/// The bytes of a `u64` in the given order.
pub open spec fn bytes_u64(v: u64, order: ByteOrder) -> Seq<u8> {
    match order {
        ByteOrder::Little => le_bytes_u64(v),
        ByteOrder::Big => le_bytes_u64(v).reverse(),
    }
}

/// The bytes of a `u32` in the given order.
pub open spec fn bytes_u32(v: u32, order: ByteOrder) -> Seq<u8> {
    match order {
        ByteOrder::Little => le_bytes_u32(v),
        ByteOrder::Big => le_bytes_u32(v).reverse(),
    }
}

/// The `u16` whose little-endian bytes start `s`.
pub open spec fn le_u16_of(s: Seq<u8>) -> u16 {
    (s[0] as u16) | ((s[1] as u16) << 8u16)
}

/// The `u32` whose little-endian bytes start `s`.
pub open spec fn le_u32_of(s: Seq<u8>) -> u32 {
    (s[0] as u32) | ((s[1] as u32) << 8u32) | ((s[2] as u32) << 16u32) | ((s[3] as u32) << 24u32)
}

/// The `u64` whose little-endian bytes start `s`.
pub open spec fn le_u64_of(s: Seq<u8>) -> u64 {
    (s[0] as u64) | ((s[1] as u64) << 8u64) | ((s[2] as u64) << 16u64) | ((s[3] as u64) << 24u64)
        | ((s[4] as u64) << 32u64) | ((s[5] as u64) << 40u64) | ((s[6] as u64) << 48u64) | ((
    s[7] as u64) << 56u64)
}

/// The `u32` whose bytes, in the given order, start `s`.
pub open spec fn u32_of(s: Seq<u8>, order: ByteOrder) -> u32 {
    match order {
        ByteOrder::Little => le_u32_of(s),
        ByteOrder::Big => le_u32_of(s.take(4).reverse()),
    }
}

/// The `u64` whose bytes, in the given order, start `s`.
pub open spec fn u64_of(s: Seq<u8>, order: ByteOrder) -> u64 {
    match order {
        ByteOrder::Little => le_u64_of(s),
        ByteOrder::Big => le_u64_of(s.take(8).reverse()),
    }
}

/// Decoding the little-endian bytes of a `u16` gives the value back.
pub proof fn lemma_le_u16_roundtrip(v: u16)
    ensures
        le_u16_of(le_bytes_u16(v)) == v,
{
    let s = le_bytes_u16(v);
    assert(s[0] == (v & 0xff) as u8 && s[1] == ((v >> 8u16) & 0xff) as u8);
    assert((((v & 0xff) as u8) as u16) | (((((v >> 8u16) & 0xff) as u8) as u16) << 8u16) == v)
        by (bit_vector);
}

/// Decoding the little-endian bytes of a `u32` gives the value back.
pub proof fn lemma_le_u32_roundtrip(v: u32)
    ensures
        le_u32_of(le_bytes_u32(v)) == v,
{
    let s = le_bytes_u32(v);
    assert((((v & 0xff) as u8) as u32) | (((((v >> 8u32) & 0xff) as u8) as u32) << 8u32) | (((((v
        >> 16u32) & 0xff) as u8) as u32) << 16u32) | (((((v >> 24u32) & 0xff) as u8) as u32)
        << 24u32) == v) by (bit_vector);
}

/// Decoding the little-endian bytes of a `u64` gives the value back.
pub proof fn lemma_le_u64_roundtrip(v: u64)
    ensures
        le_u64_of(le_bytes_u64(v)) == v,
{
    let s = le_bytes_u64(v);
    assert((((v & 0xff) as u8) as u64) | (((((v >> 8u64) & 0xff) as u8) as u64) << 8u64) | (((((v
        >> 16u64) & 0xff) as u8) as u64) << 16u64) | (((((v >> 24u64) & 0xff) as u8) as u64)
        << 24u64) | (((((v >> 32u64) & 0xff) as u8) as u64) << 32u64) | (((((v >> 40u64) & 0xff)
        as u8) as u64) << 40u64) | (((((v >> 48u64) & 0xff) as u8) as u64) << 48u64) | (((((v
        >> 56u64) & 0xff) as u8) as u64) << 56u64) == v) by (bit_vector);
}

/// Decoding the bytes of a `u32` in either order gives the value back.
pub proof fn lemma_u32_roundtrip(v: u32, order: ByteOrder)
    ensures
        u32_of(bytes_u32(v, order), order) == v,
{
    lemma_le_u32_roundtrip(v);
    if order == ByteOrder::Big {
        let s = le_bytes_u32(v);
        assert(s.reverse().take(4).reverse() =~= s);
    }
}

/// Decoding the bytes of a `u64` in either order gives the value back.
pub proof fn lemma_u64_roundtrip(v: u64, order: ByteOrder)
    ensures
        u64_of(bytes_u64(v, order), order) == v,
{
    lemma_le_u64_roundtrip(v);
    if order == ByteOrder::Big {
        let s = le_bytes_u64(v);
        assert(s.reverse().take(8).reverse() =~= s);
    }
}

/// Encoding the value read from two bytes gives the bytes back.
pub proof fn lemma_le_u16_bytes_roundtrip(s: Seq<u8>)
    requires
        s.len() == 2,
    ensures
        le_bytes_u16(le_u16_of(s)) == s,
{
    let b0 = s[0];
    let b1 = s[1];
    let v = le_u16_of(s);
    assert(v == (b0 as u16) | ((b1 as u16) << 8u16));
    assert(v == (b0 as u16) | ((b1 as u16) << 8u16) ==> (v & 0xff) as u8 == b0 && ((v >> 8u16)
        & 0xff) as u8 == b1) by (bit_vector);
    assert(le_bytes_u16(v) =~= s);
}

/// Encoding the value read from four bytes gives the bytes back.
pub proof fn lemma_le_u32_bytes_roundtrip(s: Seq<u8>)
    requires
        s.len() == 4,
    ensures
        le_bytes_u32(le_u32_of(s)) == s,
{
    let b0 = s[0];
    let b1 = s[1];
    let b2 = s[2];
    let b3 = s[3];
    let v = le_u32_of(s);
    assert(v == (b0 as u32) | ((b1 as u32) << 8u32) | ((b2 as u32) << 16u32) | ((b3 as u32)
        << 24u32));
    assert(v == (b0 as u32) | ((b1 as u32) << 8u32) | ((b2 as u32) << 16u32) | ((b3 as u32)
        << 24u32) ==> (v & 0xff) as u8 == b0 && ((v >> 8u32) & 0xff) as u8 == b1 && ((v >> 16u32)
        & 0xff) as u8 == b2 && ((v >> 24u32) & 0xff) as u8 == b3) by (bit_vector);
    assert(le_bytes_u32(v) =~= s);
}

/// Appends one byte through podio's `WritePodExt::write_u8`.
///
/// podio writes `[v]` with `write_all`, and `Vec<u8>` implements `Write` by
/// appending: the contract states that the buffer grows by that byte.
#[verifier::external_body]
pub(crate) fn put_u8(buf: &mut Vec<u8>, v: u8)
    ensures
        final(buf)@ == old(buf)@.push(v),
{
    let _written = buf.write_u8(v);
}

/// Appends a `u16` through podio's `WritePodExt::write_u16::<LittleEndian>`,
/// which writes `u16::to_le_bytes(v)` with `write_all`.
#[verifier::external_body]
pub(crate) fn put_u16_le(buf: &mut Vec<u8>, v: u16)
    ensures
        final(buf)@ == old(buf)@ + le_bytes_u16(v),
{
    let _written = buf.write_u16::<LittleEndian>(v);
}

/// Appends a `u32` through podio's `WritePodExt::write_u32::<LittleEndian>`,
/// which writes `u32::to_le_bytes(v)` with `write_all`.
#[verifier::external_body]
pub(crate) fn put_u32_le(buf: &mut Vec<u8>, v: u32)
    ensures
        final(buf)@ == old(buf)@ + le_bytes_u32(v),
{
    let _written = buf.write_u32::<LittleEndian>(v);
}

/// Appends the little-endian bytes of `v` through `WritePodExt::write_i32`,
/// which writes the `u32` of the same bits.
#[verifier::external_body]
pub(crate) fn put_i32_le(buf: &mut Vec<u8>, v: i32)
    ensures
        final(buf)@ == old(buf)@ + le_bytes_u32(v as u32),
{
    let _written = buf.write_i32::<LittleEndian>(v);
}

/// Appends a `u32` through podio's `WritePodExt::write_u32`, in the byte
/// order given: podio writes `to_le_bytes` or `to_be_bytes` with `write_all`.
#[verifier::external_body]
pub(crate) fn put_u32(buf: &mut Vec<u8>, v: u32, order: ByteOrder)
    ensures
        final(buf)@ == old(buf)@ + bytes_u32(v, order),
{
    let _written = match order {
        ByteOrder::Little => buf.write_u32::<LittleEndian>(v),
        ByteOrder::Big => buf.write_u32::<BigEndian>(v),
    };
}

/// Appends a `u64` through podio's `WritePodExt::write_u64`, in the byte
/// order given: podio writes `to_le_bytes` or `to_be_bytes` with `write_all`.
#[verifier::external_body]
pub(crate) fn put_u64(buf: &mut Vec<u8>, v: u64, order: ByteOrder)
    ensures
        final(buf)@ == old(buf)@ + bytes_u64(v, order),
{
    let _written = match order {
        ByteOrder::Little => buf.write_u64::<LittleEndian>(v),
        ByteOrder::Big => buf.write_u64::<BigEndian>(v),
    };
}

/// Reads one byte at `pos` through podio's `ReadPodExt::read_u8` on a cursor
/// over `bytes[pos..]`: podio fails when no byte is left.
#[verifier::external_body]
pub(crate) fn take_u8(bytes: &[u8], pos: usize) -> (r: Option<u8>)
    requires
        pos <= bytes@.len(),
    ensures
        r is Some <==> pos < bytes@.len(),
        r matches Some(b) ==> b == bytes@[pos as int],
{
    std::io::Cursor::new(&bytes[pos..]).read_u8().ok()
}

/// Reads a little-endian `u16` at `pos` through podio's
/// `ReadPodExt::read_u16::<LittleEndian>` on a cursor over `bytes[pos..]`:
/// podio fails when fewer than two bytes are left.
#[verifier::external_body]
pub(crate) fn take_u16_le(bytes: &[u8], pos: usize) -> (r: Option<u16>)
    requires
        pos <= bytes@.len(),
    ensures
        r is Some <==> pos + 2 <= bytes@.len(),
        r matches Some(v) ==> v == le_u16_of(bytes@.subrange(pos as int, pos + 2)),
{
    std::io::Cursor::new(&bytes[pos..]).read_u16::<LittleEndian>().ok()
}

/// Reads a little-endian `u32` at `pos` through podio's
/// `ReadPodExt::read_u32::<LittleEndian>` on a cursor over `bytes[pos..]`:
/// podio fails when fewer than four bytes are left.
#[verifier::external_body]
pub(crate) fn take_u32_le(bytes: &[u8], pos: usize) -> (r: Option<u32>)
    requires
        pos <= bytes@.len(),
    ensures
        r is Some <==> pos + 4 <= bytes@.len(),
        r matches Some(v) ==> v == le_u32_of(bytes@.subrange(pos as int, pos + 4)),
{
    std::io::Cursor::new(&bytes[pos..]).read_u32::<LittleEndian>().ok()
}

/// Reads a `u32` at `pos` in the given byte order through podio's
/// `ReadPodExt::read_u32` on a cursor over `bytes[pos..]`: podio fails when
/// fewer than four bytes are left.
#[verifier::external_body]
pub(crate) fn take_u32(bytes: &[u8], pos: usize, order: ByteOrder) -> (r: Option<u32>)
    requires
        pos <= bytes@.len(),
    ensures
        r is Some <==> pos + 4 <= bytes@.len(),
        r matches Some(v) ==> v == u32_of(bytes@.subrange(pos as int, pos + 4), order),
{
    let mut cursor = std::io::Cursor::new(&bytes[pos..]);
    match order {
        ByteOrder::Little => cursor.read_u32::<LittleEndian>().ok(),
        ByteOrder::Big => cursor.read_u32::<BigEndian>().ok(),
    }
}

/// Reads a `u64` at `pos` in the given byte order through podio's
/// `ReadPodExt::read_u64` on a cursor over `bytes[pos..]`: podio fails when
/// fewer than eight bytes are left.
#[verifier::external_body]
pub(crate) fn take_u64(bytes: &[u8], pos: usize, order: ByteOrder) -> (r: Option<u64>)
    requires
        pos <= bytes@.len(),
    ensures
        r is Some <==> pos + 8 <= bytes@.len(),
        r matches Some(v) ==> v == u64_of(bytes@.subrange(pos as int, pos + 8), order),
{
    let mut cursor = std::io::Cursor::new(&bytes[pos..]);
    match order {
        ByteOrder::Little => cursor.read_u64::<LittleEndian>().ok(),
        ByteOrder::Big => cursor.read_u64::<BigEndian>().ok(),
    }
}

} // verus!
