//! What a connection knows of its session before the client manager takes
//! over: whether it authenticated, and the session key it authenticates
//! with.

use vstd::prelude::*;
use vstd::string::StringSliceAdditionalSpecFns;

verus! {

/// The session data a connection keeps itself.
#[derive(PartialEq, Eq, Structural, Clone, Copy, Debug)]
pub struct ConnectionData {
    pub account_id: Option<u32>,
}

impl ConnectionData {
    /// Whether the connection completed authentication.
    pub fn is_authenticated(&self) -> (r: bool)
        ensures
            r == self.account_id is Some,
    {
        self.account_id.is_some()
    }
}

/// The length in bytes of a session key.
pub const SESSION_KEY_LENGTH: usize = 40;

/// Why a hexadecimal text could not be decoded.
#[derive(PartialEq, Eq, Structural, Clone, Copy, Debug)]
pub enum HexError {
    /// A character that is no hexadecimal digit, at the byte position
    /// given.
    InvalidHexCharacter { c: char, index: usize },
    /// An odd number of digits.
    OddLength,
    /// A length that does not fit the output.
    InvalidStringLength,
}

/// The value of a hexadecimal digit in either case, if `c` is one.
pub open spec fn hex_digit(c: u8) -> Option<u8> {
    if 48 <= c <= 57 {
        Some((c - 48) as u8)
    } else if 65 <= c <= 70 {
        Some((c - 55) as u8)
    } else if 97 <= c <= 102 {
        Some((c - 87) as u8)
    } else {
        None
    }
}

/// The bytes a hexadecimal text stands for, two digits a byte, high digit
/// first; none when the number of digits is odd or a character is no
/// digit.
pub open spec fn hex_decoded(s: Seq<u8>) -> Option<Seq<u8>> {
    if s.len() % 2 != 0 {
        None
    } else if forall|i: int| 0 <= i < s.len() ==> (#[trigger] hex_digit(s[i])) is Some {
        Some(
            Seq::new(
                (s.len() / 2) as nat,
                |i: int| (hex_digit(s[2 * i])->0 * 16 + hex_digit(s[2 * i + 1])->0) as u8,
            ),
        )
    } else {
        None
    }
}

/// The error that decoding `s` gives: an odd number of digits, or else
/// the first character that is no digit, with its position.
pub open spec fn is_hex_error_of(s: Seq<u8>, e: HexError) -> bool {
    match e {
        HexError::OddLength => s.len() % 2 != 0,
        HexError::InvalidHexCharacter { c, index } => {
            &&& s.len() % 2 == 0
            &&& index < s.len()
            &&& hex_digit(s[index as int]) is None
            &&& forall|j: int| 0 <= j < index ==> (#[trigger] hex_digit(s[j])) is Some
            &&& c == s[index as int] as char
        },
        HexError::InvalidStringLength => false,
    }
}

/// Calls `hex::decode`: the bytes a hexadecimal text stands for or, for an
/// odd number of digits or a character that is no digit, the error that
/// names the first such fault.
#[verifier::external_body]
fn hex_decode(data: &[u8]) -> (r: Result<Vec<u8>, HexError>)
    ensures
        r matches Ok(v) ==> hex_decoded(data@) == Some(v@),
        r is Err ==> hex_decoded(data@) is None,
        r matches Err(e) ==> is_hex_error_of(data@, e),
{
    match hex::decode(data) {
        Ok(v) => Ok(v),
        Err(hex::FromHexError::InvalidHexCharacter { c, index }) => Err(
            HexError::InvalidHexCharacter { c, index },
        ),
        Err(hex::FromHexError::OddLength) => Err(HexError::OddLength),
        Err(hex::FromHexError::InvalidStringLength) => Err(HexError::InvalidStringLength),
    }
}

/// The session key an account row stores as hexadecimal text. A text that
/// is no hexadecimal is an error; a valid text must stand for a key of
/// the right length.
pub fn session_key_from_hex(session_key: &str) -> (r: Result<[u8; 40], HexError>)
    requires
        hex_decoded(session_key.spec_bytes()) matches Some(b) ==> b.len() == SESSION_KEY_LENGTH,
    ensures
        r matches Ok(key) ==> hex_decoded(session_key.spec_bytes()) == Some(key@),
        r is Err ==> hex_decoded(session_key.spec_bytes()) is None,
        r matches Err(e) ==> is_hex_error_of(session_key.spec_bytes(), e),
{
    let decoded = hex_decode(session_key.as_bytes())?;
    let mut key: [u8; 40] = [0u8; 40];
    let mut i: usize = 0;
    while i < SESSION_KEY_LENGTH
        invariant
            0 <= i <= SESSION_KEY_LENGTH,
            decoded@.len() == SESSION_KEY_LENGTH,
            forall|j: int| 0 <= j < i ==> key@[j] == decoded@[j],
        decreases SESSION_KEY_LENGTH - i,
    {
        key[i] = decoded[i];
        i = i + 1;
    }
    assert(key@ =~= decoded@);
    Ok(key)
}

} // verus!
