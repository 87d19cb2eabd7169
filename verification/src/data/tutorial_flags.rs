//! The 256 tutorial flags of a character, kept as eight 32-bit words.
//!
//! Flag `b` is bit `b % 32` of word `b / 32`; the bit operations go through
//! `bit_field`'s `BitArray` on the word array.

use crate::wire::le_u32_of;
use bit_field::BitArray;
use vstd::prelude::*;

verus! {

/// Bit `k` (0 is the least significant) of `w`.
pub open spec fn word_bit(w: u32, k: int) -> bool {
    (w >> (k as u32)) & 1u32 == 1u32
}

/// Bit `k` (0 is the least significant) of `b`.
pub open spec fn byte_bit(b: u8, k: int) -> bool {
    (b >> (k as u8)) & 1u8 == 1u8
}

/// Flag `b` of the words `data`: bit `b % 32` of word `b / 32`.
pub open spec fn flag_bit(data: Seq<u32>, b: int) -> bool {
    word_bit(data[b / 32], b % 32)
}

/// Whether `start..end` is a range that `BitArray::get_bits` and
/// `BitArray::set_bits` accept on eight words: it lies inside the 256 bits,
/// starts below 256 and is at most one word long.
pub open spec fn valid_bit_range(start: usize, end: usize) -> bool {
    start <= end && end <= 256 && start < 256 && end - start <= 32
}

/// Reads the number of bits through `BitArray::bit_length`, which is the
/// number of words times 32.
#[verifier::external_body]
fn words_bit_length(data: &[u32; 8]) -> (r: usize)
    ensures
        r == 256,
{
    BitArray::<u32>::bit_length(&data[..])
}

/// Reads flag `bit` through `BitArray::get_bit`, which reads bit
/// `bit % 32` of word `bit / 32`; it panics past the last word.
#[verifier::external_body]
fn words_get_bit(data: &[u32; 8], bit: usize) -> (r: bool)
    requires
        bit < 256,
    ensures
        r == flag_bit(data@, bit as int),
{
    BitArray::<u32>::get_bit(&data[..], bit)
}

/// Reads the flags `start..end` through `BitArray::get_bits`: bit `k` of the
/// result is flag `start + k` for `k < end - start`, and the bits above are
/// zero. It panics on the ranges that `valid_bit_range` leaves out.
#[verifier::external_body]
fn words_get_bits(data: &[u32; 8], start: usize, end: usize) -> (r: u32)
    requires
        valid_bit_range(start, end),
    ensures
        forall|k: int|
            0 <= k < 32 ==> (word_bit(r, k) <==> (k < end - start && flag_bit(
                data@,
                start + k,
            ))),
{
    BitArray::<u32>::get_bits(&data[..], start..end)
}

/// Writes flag `bit` through `BitArray::set_bit`, which sets or clears bit
/// `bit % 32` of word `bit / 32` and leaves the other bits; it panics past
/// the last word.
#[verifier::external_body]
fn words_set_bit(data: &mut [u32; 8], bit: usize, value: bool)
    requires
        bit < 256,
    ensures
        forall|b: int|
            0 <= b < 256 ==> flag_bit(final(data)@, b) == if b == bit {
                value
            } else {
                flag_bit(old(data)@, b)
            },
{
    BitArray::<u32>::set_bit(&mut data[..], bit, value)
}

/// Writes the flags `start..end` through `BitArray::set_bits`: flag
/// `start + k` becomes bit `k` of `value`, and the other flags stay. It
/// panics on the ranges that `valid_bit_range` leaves out and on a value
/// with a bit set at or above `end - start`.
#[verifier::external_body]
fn words_set_bits(data: &mut [u32; 8], start: usize, end: usize, value: u32)
    requires
        valid_bit_range(start, end),
        (value as int) < vstd::arithmetic::power2::pow2((end - start) as nat),
    ensures
        forall|b: int|
            0 <= b < 256 ==> flag_bit(final(data)@, b) == if start <= b < end {
                word_bit(value, b - start)
            } else {
                flag_bit(old(data)@, b)
            },
{
    BitArray::<u32>::set_bits(&mut data[..], start..end, value)
}

/// Why tutorial flags could not be built from bytes.
#[derive(PartialEq, Eq, Structural, Clone, Copy, Debug)]
pub enum TutorialFlagsError {
    /// The byte slice does not hold exactly 32 bytes.
    WrongSize,
    /// The stored character's tutorial data does not hold exactly 32 bytes.
    IncorrectDatabaseArraySize,
}

/// The 256 tutorial flags of a character.
pub struct TutorialFlags {
    pub flag_data: [u32; 8],
}

impl Default for TutorialFlags {
    fn default() -> (r: Self)
        ensures
            forall|i: int| 0 <= i < 8 ==> r.flag_data@[i] == 0,
    {
        TutorialFlags { flag_data: [0u32; 8] }
    }
}

/// The word `i` of the flags read from 32 little-endian bytes.
pub open spec fn word_of_bytes(data: Seq<u8>, i: int) -> u32 {
    le_u32_of(data.subrange(4 * i, 4 * i + 4))
}

impl TutorialFlags {
    /// The number of flags.
    pub fn bit_length(&self) -> (r: usize)
        ensures
            r == 256,
    {
        words_bit_length(&self.flag_data)
    }

    /// Whether flag `bit` is set.
    pub fn get_bit(&self, bit: usize) -> (r: bool)
        requires
            bit < 256,
        ensures
            r == flag_bit(self.flag_data@, bit as int),
    {
        words_get_bit(&self.flag_data, bit)
    }

    /// The flags `start..end`, flag `start` as bit 0 of the result.
    pub fn get_bits(&self, start: usize, end: usize) -> (r: u32)
        requires
            valid_bit_range(start, end),
        ensures
            forall|k: int|
                0 <= k < 32 ==> (word_bit(r, k) <==> (k < end - start && flag_bit(
                    self.flag_data@,
                    start + k,
                ))),
    {
        words_get_bits(&self.flag_data, start, end)
    }

    /// Sets or clears flag `bit`, leaving the others.
    pub fn set_bit(&mut self, bit: usize, value: bool)
        requires
            bit < 256,
        ensures
            forall|b: int|
                0 <= b < 256 ==> flag_bit(final(self).flag_data@, b) == if b == bit {
                    value
                } else {
                    flag_bit(old(self).flag_data@, b)
                },
    {
        words_set_bit(&mut self.flag_data, bit, value)
    }

    /// Writes `value` into the flags `start..end`, bit 0 of `value` into flag
    /// `start`, leaving the other flags.
    pub fn set_bits(&mut self, start: usize, end: usize, value: u32)
        requires
            valid_bit_range(start, end),
            (value as int) < vstd::arithmetic::power2::pow2((end - start) as nat),
        ensures
            forall|b: int|
                0 <= b < 256 ==> flag_bit(final(self).flag_data@, b) == if start <= b < end {
                    word_bit(value, b - start)
                } else {
                    flag_bit(old(self).flag_data@, b)
                },
    {
        words_set_bits(&mut self.flag_data, start, end, value)
    }

    /// The flags held by eight words, word `i` holding flags `32 * i` to
    /// `32 * i + 31`.
    pub fn from_words(data: &[u32; 8]) -> (r: Self)
        ensures
            r.flag_data@ == data@,
    {
        TutorialFlags { flag_data: *data }
    }

    /// The flags held by 32 bytes, each group of four read as a
    /// little-endian word.
    pub fn from_bytes(data: &[u8; 32]) -> (r: Self)
        ensures
            forall|i: int| 0 <= i < 8 ==> r.flag_data@[i] == word_of_bytes(data@, i),
    {
        let mut temp_flag_data = [0u32; 8];
        let mut index: usize = 0;
        while index < 8
            invariant
                0 <= index <= 8,
                forall|j: int| 0 <= j < index ==> temp_flag_data@[j] == word_of_bytes(data@, j),
            decreases 8 - index,
        {
            let b0 = data[index * 4];
            let b1 = data[index * 4 + 1];
            let b2 = data[index * 4 + 2];
            let b3 = data[index * 4 + 3];
            let word = (b0 as u32) | ((b1 as u32) << 8u32) | ((b2 as u32) << 16u32) | ((
            b3 as u32) << 24u32);
            proof {
                let s = data@.subrange(4 * index as int, 4 * index as int + 4);
                assert(s[0] == b0 && s[1] == b1 && s[2] == b2 && s[3] == b3);
            }
            temp_flag_data[index] = word;
            index = index + 1;
        }
        TutorialFlags { flag_data: temp_flag_data }
    }

    /// The flags held by a slice of exactly 32 bytes; any other length is
    /// an error.
    pub fn try_from_slice(value: &[u8]) -> (r: Result<Self, TutorialFlagsError>)
        ensures
            r is Ok <==> value@.len() == 32,
            r matches Err(e) ==> e == TutorialFlagsError::WrongSize,
            r matches Ok(f) ==> forall|i: int|
                0 <= i < 8 ==> f.flag_data@[i] == word_of_bytes(value@, i),
    {
        if value.len() != 32 {
            return Err(TutorialFlagsError::WrongSize);
        }
        let mut fixed = [0u8; 32];
        let mut i: usize = 0;
        while i < 32
            invariant
                value@.len() == 32,
                0 <= i <= 32,
                forall|j: int| 0 <= j < i ==> fixed@[j] == value@[j],
            decreases 32 - i,
        {
            fixed[i] = value[i];
            i = i + 1;
        }
        assert(fixed@ =~= value@);
        Ok(Self::from_bytes(&fixed))
    }

    /// The flags stored with a character: its tutorial data must hold
    /// exactly 32 bytes.
    pub fn from_database_entry(tutorial_data: &[u8]) -> (r: Result<Self, TutorialFlagsError>)
        ensures
            r is Ok <==> tutorial_data@.len() == 32,
            r matches Err(e) ==> e == TutorialFlagsError::IncorrectDatabaseArraySize,
            r matches Ok(f) ==> forall|i: int|
                0 <= i < 8 ==> f.flag_data@[i] == word_of_bytes(tutorial_data@, i),
    {
        if tutorial_data.len() != 32 {
            Err(TutorialFlagsError::IncorrectDatabaseArraySize)
        } else {
            match Self::try_from_slice(tutorial_data) {
                Ok(res) => Ok(res),
                Err(_) => Err(TutorialFlagsError::WrongSize),
            }
        }
    }

    /// Clears every flag.
    pub fn reset(&mut self)
        ensures
            forall|i: int| 0 <= i < 8 ==> final(self).flag_data@[i] == 0,
    {
        self.flag_data = [0; 8];
    }
}

/// The flags held by 32 bytes, word `i` read little-endian from bytes
/// `4 * i` to `4 * i + 3`.
pub open spec fn flags_of_bytes(data: Seq<u8>) -> TutorialFlags {
    TutorialFlags {
        flag_data: [
            word_of_bytes(data, 0),
            word_of_bytes(data, 1),
            word_of_bytes(data, 2),
            word_of_bytes(data, 3),
            word_of_bytes(data, 4),
            word_of_bytes(data, 5),
            word_of_bytes(data, 6),
            word_of_bytes(data, 7),
        ],
    }
}

impl<'a> From<&'a [u8; 32]> for TutorialFlags {
    fn from(data: &'a [u8; 32]) -> (r: TutorialFlags) {
        let r = TutorialFlags::from_bytes(data);
        let ghost expected = flags_of_bytes(data@);
        assert(expected.flag_data@[0] == word_of_bytes(data@, 0));
        assert(r.flag_data@ =~= expected.flag_data@);
        assert(r.flag_data =~= expected.flag_data);
        r
    }
}

impl<'a> vstd::std_specs::convert::FromSpecImpl<&'a [u8; 32]> for TutorialFlags {
    open spec fn obeys_from_spec() -> bool {
        true
    }

    open spec fn from_spec(data: &'a [u8; 32]) -> TutorialFlags {
        flags_of_bytes(data@)
    }
}

/// After `set_bit(bit, value)`, `get_bit(bit)` gives `value` back, and every
/// other flag reads as before.
pub proof fn lemma_set_bit_then_get_bit(old_data: Seq<u32>, new_data: Seq<u32>, bit: int, value: bool)
    requires
        0 <= bit < 256,
        forall|b: int|
            0 <= b < 256 ==> flag_bit(new_data, b) == if b == bit {
                value
            } else {
                flag_bit(old_data, b)
            },
    ensures
        flag_bit(new_data, bit) == value,
        forall|b: int| 0 <= b < 256 && b != bit ==> flag_bit(new_data, b) == flag_bit(old_data, b),
{
}

/// After `reset`, no flag is set.
pub proof fn lemma_reset_clears_every_flag(data: Seq<u32>, b: int)
    requires
        data.len() == 8,
        forall|i: int| 0 <= i < 8 ==> data[i] == 0,
        0 <= b < 256,
    ensures
        !flag_bit(data, b),
{
    let k = (b % 32) as u32;
    assert(data[b / 32] == 0);
    assert((0u32 >> k) & 1u32 == 0u32) by (bit_vector);
}

/// Flags read from bytes: flag `b` is bit `b % 8` of byte `b / 8`.
pub proof fn lemma_flags_from_bytes_bit(data: Seq<u8>, words: Seq<u32>, b: int)
    requires
        data.len() == 32,
        words.len() == 8,
        forall|i: int| 0 <= i < 8 ==> words[i] == word_of_bytes(data, i),
        0 <= b < 256,
    ensures
        flag_bit(words, b) == byte_bit(data[b / 8], b % 8),
{
    let i = b / 32;
    let s = data.subrange(4 * i, 4 * i + 4);
    let w = words[i];
    assert(w == le_u32_of(s));
    let b0 = s[0];
    let b1 = s[1];
    let b2 = s[2];
    let b3 = s[3];
    let k = (b % 32) as u32;
    let kk = (b % 8) as u8;
    assert(w == (b0 as u32) | ((b1 as u32) << 8u32) | ((b2 as u32) << 16u32) | ((b3 as u32)
        << 24u32));
    if b % 32 < 8 {
        assert(data[b / 8] == b0);
        assert(k < 8 && kk == k && w == (b0 as u32) | ((b1 as u32) << 8u32) | ((b2 as u32)
            << 16u32) | ((b3 as u32) << 24u32) ==> (((w >> k) & 1u32 == 1u32) == ((b0 >> kk) & 1u8
            == 1u8))) by (bit_vector);
    } else if b % 32 < 16 {
        assert(data[b / 8] == b1);
        assert(8 <= k < 16 && kk == k - 8 && w == (b0 as u32) | ((b1 as u32) << 8u32) | ((
        b2 as u32) << 16u32) | ((b3 as u32) << 24u32) ==> (((w >> k) & 1u32 == 1u32) == ((b1
            >> kk) & 1u8 == 1u8))) by (bit_vector);
    } else if b % 32 < 24 {
        assert(data[b / 8] == b2);
        assert(16 <= k < 24 && kk == k - 16 && w == (b0 as u32) | ((b1 as u32) << 8u32) | ((
        b2 as u32) << 16u32) | ((b3 as u32) << 24u32) ==> (((w >> k) & 1u32 == 1u32) == ((b2
            >> kk) & 1u8 == 1u8))) by (bit_vector);
    } else {
        assert(data[b / 8] == b3);
        assert(24 <= k < 32 && kk == k - 24 && w == (b0 as u32) | ((b1 as u32) << 8u32) | ((
        b2 as u32) << 16u32) | ((b3 as u32) << 24u32) ==> (((w >> k) & 1u32 == 1u32) == ((b3
            >> kk) & 1u8 == 1u8))) by (bit_vector);
    }
}

} // verus!
