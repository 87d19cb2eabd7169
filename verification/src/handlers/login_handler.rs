//! Session login and logout: the addon list a client sends when it
//! authenticates, and the logout state machine of a character.

use crate::data::movement_info::{MovementFlags, MovementInfo};
use crate::game_enums::{LogoutResult, LogoutSpeed};
use crate::wire::{le_u32_of, take_u32_le, take_u8};
use vstd::prelude::*;
use vstd::utf8::{decode_utf8, valid_utf8};

verus! {

/// The checksum of the addons Blizzard signs.
pub const BLIZZARD_ADDON_CRC: u32 = 0x4C1C776D;

/// How long a delayed logout waits, in nanoseconds (twenty seconds).
pub const LOGOUT_DELAY_NANOS: u64 = 20_000_000_000;

/// The addon entry the server answers for each addon a client reports.
#[derive(PartialEq, Eq, Structural, Clone, Copy, Debug)]
pub struct AddonInfo {
    pub addon_type: u8,
    pub uses_crc: u8,
    pub uses_diffent_public_key: bool,
    pub unknown1: u32,
    pub unknown2: u8,
}

/// The answer for an addon with checksum `crc`: it uses a different public
/// key unless the checksum is Blizzard's.
pub open spec fn addon_info_for(crc: u32) -> AddonInfo {
    AddonInfo {
        addon_type: 2,
        uses_crc: 1,
        uses_diffent_public_key: crc != BLIZZARD_ADDON_CRC,
        unknown1: 0,
        unknown2: 0,
    }
}

/// One addon a client reported, and the answer for it.
pub struct ParsedAddon {
    pub name: String,
    pub has_signature: bool,
    pub crc: u32,
    pub extra_crc: u32,
    pub info: AddonInfo,
}

/// One addon entry as read from the bytes.
pub struct AddonSpec {
    pub name: Seq<u8>,
    pub has_signature: bool,
    pub crc: u32,
    pub extra_crc: u32,
}

/// Why the addon list could not be read.
#[derive(PartialEq, Eq, Structural, Clone, Copy, Debug)]
pub enum AddonInfoError {
    /// The bytes ended inside an entry.
    UnexpectedEnd,
    /// An addon name is not UTF-8.
    InvalidUtf8,
}

/// What reading an addon list comes to: the entries, an error, or the
/// input on which the reading of a name fails for lack of any byte.
pub enum AddonParse {
    Parsed(Seq<AddonSpec>),
    Failed(AddonInfoError),
    Panics,
}

/// The position of the first zero byte at or after `pos`.
pub open spec fn nul_index_from(s: Seq<u8>, pos: int) -> Option<int>
    decreases s.len() - pos,
{
    if pos < 0 || pos >= s.len() {
        None
    } else if s[pos] == 0 {
        Some(pos)
    } else {
        nul_index_from(s, pos + 1)
    }
}

/// `entries` followed by what `rest` read, if `rest` read entries.
pub open spec fn prepend_entries(entries: Seq<AddonSpec>, rest: AddonParse) -> AddonParse {
    match rest {
        AddonParse::Parsed(more) => AddonParse::Parsed(entries + more),
        other => other,
    }
}

/// Reading `count` addon entries from position `pos`. Each entry is a name
/// ended by a zero byte (or by the end of the input, whose last byte is then
/// dropped), a signature byte, a checksum and an extra checksum, both
/// little-endian 32-bit numbers.
pub open spec fn parse_addons_from(s: Seq<u8>, pos: int, count: nat) -> AddonParse
    decreases count,
{
    if count == 0 {
        AddonParse::Parsed(seq![])
    } else if pos >= s.len() {
        AddonParse::Panics
    } else {
        let (name, next) = match nul_index_from(s, pos) {
            Some(k) => (s.subrange(pos, k), k + 1),
            None => (s.subrange(pos, s.len() - 1), s.len() as int),
        };
        if !valid_utf8(name) {
            AddonParse::Failed(AddonInfoError::InvalidUtf8)
        } else if next + 9 > s.len() {
            AddonParse::Failed(AddonInfoError::UnexpectedEnd)
        } else {
            let entry = AddonSpec {
                name,
                has_signature: s[next] == 1,
                crc: le_u32_of(s.subrange(next + 1, next + 5)),
                extra_crc: le_u32_of(s.subrange(next + 5, next + 9)),
            };
            prepend_entries(seq![entry], parse_addons_from(s, next + 9, (count - 1) as nat))
        }
    }
}

/// Reading an addon list: a little-endian 32-bit count, then that many
/// entries.
pub open spec fn parse_addon_info_spec(s: Seq<u8>) -> AddonParse {
    if s.len() < 4 {
        AddonParse::Failed(AddonInfoError::UnexpectedEnd)
    } else {
        parse_addons_from(s, 4, le_u32_of(s.subrange(0, 4)) as nat)
    }
}

/// Whether an exec entry is the entry read, with its answer.
pub open spec fn addon_matches(p: ParsedAddon, a: AddonSpec) -> bool {
    &&& p.name@ == decode_utf8(a.name)
    &&& p.has_signature == a.has_signature
    &&& p.crc == a.crc
    &&& p.extra_crc == a.extra_crc
    &&& p.info == addon_info_for(a.crc)
}

/// Whether exec entries are the entries read, in order.
pub open spec fn addons_match(ps: Seq<ParsedAddon>, spec: Seq<AddonSpec>) -> bool {
    ps.len() == spec.len() && forall|i: int| 0 <= i < ps.len() ==> addon_matches(ps[i], spec[i])
}

/// Builds a `String` from bytes through `String::from_utf8`, which fails
/// exactly when the bytes are not UTF-8 and otherwise holds the characters
/// they encode.
#[verifier::external_body]
fn string_from_utf8(bytes: Vec<u8>) -> (r: Option<String>)
    ensures
        r is Some <==> valid_utf8(bytes@),
        r matches Some(s) ==> s@ == decode_utf8(bytes@),
{
    String::from_utf8(bytes).ok()
}

/// What the scan of an addon list comes to.
enum AddonScan {
    Parsed(Vec<ParsedAddon>),
    Failed(AddonInfoError),
    Panics,
}

proof fn lemma_prepend_assoc(a: Seq<AddonSpec>, b: Seq<AddonSpec>, rest: AddonParse)
    ensures
        prepend_entries(a, prepend_entries(b, rest)) == prepend_entries(a + b, rest),
{
    match rest {
        AddonParse::Parsed(more) => {
            assert(a + (b + more) =~= (a + b) + more);
        },
        _ => {},
    }
}

proof fn lemma_prepend_empty(rest: AddonParse)
    ensures
        prepend_entries(seq![], rest) == rest,
{
    match rest {
        AddonParse::Parsed(more) => {
            assert(seq![] + more =~= more);
        },
        _ => {},
    }
}

/// The position of the first zero byte at or after `pos`, or the length.
fn find_nul(bytes: &[u8], pos: usize) -> (r: usize)
    requires
        pos <= bytes@.len(),
    ensures
        pos <= r <= bytes@.len(),
        nul_index_from(bytes@, pos as int) == if r < bytes@.len() {
            Some(r as int)
        } else {
            None::<int>
        },
{
    let mut j = pos;
    while j < bytes.len() && bytes[j] != 0
        invariant
            pos <= j <= bytes@.len(),
            nul_index_from(bytes@, pos as int) == nul_index_from(bytes@, j as int),
        decreases bytes@.len() - j,
    {
        j = j + 1;
    }
    j
}

fn copy_range(bytes: &[u8], start: usize, end: usize) -> (r: Vec<u8>)
    requires
        start <= end <= bytes@.len(),
    ensures
        r@ == bytes@.subrange(start as int, end as int),
{
    let mut out: Vec<u8> = Vec::new();
    let mut k = start;
    while k < end
        invariant
            start <= k <= end <= bytes@.len(),
            out@ == bytes@.subrange(start as int, k as int),
        decreases end - k,
    {
        out.push(bytes[k]);
        k = k + 1;
        assert(out@ =~= bytes@.subrange(start as int, k as int));
    }
    out
}

fn scan_addon_info(bytes: &[u8]) -> (r: AddonScan)
    ensures
        match parse_addon_info_spec(bytes@) {
            AddonParse::Parsed(list) => r matches AddonScan::Parsed(v) && addons_match(v@, list),
            AddonParse::Failed(e) => r matches AddonScan::Failed(e2) && e2 == e,
            AddonParse::Panics => r is Panics,
        },
{
    let num_addons = match take_u32_le(bytes, 0) {
        Some(n) => n,
        None => {
            return AddonScan::Failed(AddonInfoError::UnexpectedEnd);
        },
    };
    let ghost s = bytes@;
    let ghost whole = parse_addon_info_spec(s);
    let ghost mut seen: Seq<AddonSpec> = seq![];
    let mut addons: Vec<ParsedAddon> = Vec::new();
    let mut pos: usize = 4;
    let mut i: u32 = 0;
    proof {
        assert(s.subrange(0, 4) == s.subrange(0 as int, 0int + 4));
        lemma_prepend_empty(parse_addons_from(s, 4, num_addons as nat));
    }
    while i < num_addons
        invariant
            s == bytes@,
            whole == parse_addon_info_spec(s),
            s.len() >= 4,
            num_addons == le_u32_of(s.subrange(0, 4)),
            0 <= i <= num_addons,
            pos <= s.len(),
            addons_match(addons@, seen),
            whole == prepend_entries(seen, parse_addons_from(s, pos as int, (num_addons - i) as nat)),
        decreases num_addons - i,
    {
        let ghost rest_count = (num_addons - i) as nat;
        if pos >= bytes.len() {
            return AddonScan::Panics;
        }
        let nul = find_nul(bytes, pos);
        let (name_end, next) = if nul < bytes.len() {
            (nul, nul + 1)
        } else {
            (bytes.len() - 1, bytes.len())
        };
        let name_bytes = copy_range(bytes, pos, name_end);
        let name = match string_from_utf8(name_bytes) {
            Some(n) => n,
            None => {
                return AddonScan::Failed(AddonInfoError::InvalidUtf8);
            },
        };
        if bytes.len() - next < 9 {
            return AddonScan::Failed(AddonInfoError::UnexpectedEnd);
        }
        let signature_byte = take_u8(bytes, next).unwrap();
        let has_signature = signature_byte == 1;
        let crc = take_u32_le(bytes, next + 1).unwrap();
        let extra_crc = take_u32_le(bytes, next + 5).unwrap();
        let uses_diffent_public_key = crc != BLIZZARD_ADDON_CRC;
        let info = AddonInfo {
            addon_type: 2,
            uses_crc: 1,
            uses_diffent_public_key,
            unknown1: 0,
            unknown2: 0,
        };
        let ghost entry = AddonSpec {
            name: s.subrange(pos as int, name_end as int),
            has_signature,
            crc,
            extra_crc,
        };
        addons.push(ParsedAddon { name, has_signature, crc, extra_crc, info });
        proof {
            assert(s.subrange(next + 1, next + 5) == s.subrange((next + 1) as int, (next + 1) + 4));
            assert(s.subrange(next + 5, next + 9) == s.subrange((next + 5) as int, (next + 5) + 4));
            lemma_prepend_assoc(seen, seq![entry], parse_addons_from(s, next + 9, (rest_count - 1) as nat));
            seen = seen + seq![entry];
            assert(addons@.last() == addons@[addons@.len() - 1]);
            assert forall|k: int| 0 <= k < addons@.len() implies addon_matches(addons@[k], seen[k]) by {
                if k < addons@.len() - 1 {
                }
            }
        }
        pos = next + 9;
        i = i + 1;
    }
    proof {
        assert(parse_addons_from(s, pos as int, 0) == AddonParse::Parsed(seq![]));
        assert(seen + seq![] =~= seen);
    }
    AddonScan::Parsed(addons)
}

/// Reads the addon list of an authentication request: a little-endian
/// 32-bit count, then for each addon a name ended by a zero byte, a
/// signature byte, a checksum and an extra checksum; each addon gets its
/// answer. Inputs on which a name would be read from an exhausted input are
/// left out (see `addon_info_would_panic`).
pub fn parse_addon_info(addon_info: &[u8]) -> (r: Result<Vec<ParsedAddon>, AddonInfoError>)
    requires
        !(parse_addon_info_spec(addon_info@) is Panics),
    ensures
        match parse_addon_info_spec(addon_info@) {
            AddonParse::Parsed(list) => r matches Ok(v) && addons_match(v@, list),
            AddonParse::Failed(e) => r == Err::<Vec<ParsedAddon>, AddonInfoError>(e),
            AddonParse::Panics => false,
        },
{
    match scan_addon_info(addon_info) {
        AddonScan::Parsed(v) => Ok(v),
        AddonScan::Failed(e) => Err(e),
        AddonScan::Panics => {
            proof {
                assert(false);
            }
            Err(AddonInfoError::UnexpectedEnd)
        },
    }
}

/// Whether reading the addon list would reach a name at the end of the
/// input, the input that `parse_addon_info` leaves out.
pub fn addon_info_would_panic(addon_info: &[u8]) -> (r: bool)
    ensures
        r == (parse_addon_info_spec(addon_info@) is Panics),
{
    match scan_addon_info(addon_info) {
        AddonScan::Panics => true,
        _ => false,
    }
}

/// Where a character is with logging out.
#[derive(PartialEq, Eq, Structural, Clone, Copy, Debug)]
pub enum LogoutState {
    /// Not logging out.
    Idle,
    /// Waiting; the nanoseconds left.
    Pending(u64),
    /// The logout is carried out at the next tick.
    Executing,
    /// Logged out; the client goes back to character selection.
    ReturnToCharSelect,
}

/// What the caller does to the character after a logout decision.
#[derive(PartialEq, Eq, Structural, Clone, Copy, Debug)]
pub enum LogoutEffect {
    /// Stun the character, root it and sit it down.
    FreezeAndSit,
    /// Unstun the character, unroot it and stand it up.
    UnfreezeAndStand,
}

/// What a tick of the logout state asks of the caller.
#[derive(PartialEq, Eq, Structural, Clone, Copy, Debug)]
pub enum LogoutTick {
    /// Nothing to do.
    Nothing,
    /// Take the character out of its map and tell the client the logout is
    /// complete, then call `finish_logout`.
    ExecuteLogout,
}

/// Why a logout cancellation was refused.
#[derive(PartialEq, Eq, Structural, Clone, Copy, Debug)]
pub enum LogoutError {
    /// No logout is waiting.
    NoLogoutInProgress,
}

/// Whether a movement record says the character falls far or falls
/// slowly; a plain jump does not count. Only the first flags field holds
/// these flags.
pub open spec fn is_falling(m: MovementInfo) -> bool {
    (m.movement_flags & MovementFlags::FallingFar.spec_value()) != 0 || (m.movement_flags
        & MovementFlags::SafeFall.spec_value()) != 0
}

/// The logout state after `elapsed_nanos` have passed: a waiting logout
/// counts down and, once nothing is left, is to be carried out; other
/// states stay as they are.
pub open spec fn logout_after(state: LogoutState, elapsed_nanos: u64) -> LogoutState {
    match state {
        LogoutState::Pending(left) => if left <= elapsed_nanos {
            LogoutState::Executing
        } else {
            LogoutState::Pending((left - elapsed_nanos) as u64)
        },
        _ => state,
    }
}

/// Time passes the same for a logout whether it comes in one tick or in
/// two: a delayed logout is carried out once its whole delay has passed,
/// however the time is split.
pub proof fn lemma_logout_ticks_add(state: LogoutState, a: u64, b: u64)
    requires
        a + b <= u64::MAX,
    ensures
        logout_after(logout_after(state, a), b) == logout_after(state, (a + b) as u64),
{
}

impl LogoutState {
    /// Answers a logout request. A falling character cannot log out. A
    /// character that is not logging out waits twenty seconds, frozen and
    /// sitting, unless it rests, in which case it logs out at once. A logout
    /// already under way is answered as an instant success.
    pub fn try_logout(&mut self, movement_info: &MovementInfo, in_rested_area: bool) -> (r: (
        LogoutResult,
        LogoutSpeed,
        Option<LogoutEffect>,
    ))
        ensures
            is_falling(*movement_info) ==> r == (
                LogoutResult::FailureJumpingOrFalling,
                LogoutSpeed::Delayed,
                None::<LogoutEffect>,
            ) && *final(self) == *old(self),
            !is_falling(*movement_info) && *old(self) == LogoutState::Idle && !in_rested_area ==> r
                == (LogoutResult::Success, LogoutSpeed::Delayed, Some(LogoutEffect::FreezeAndSit))
                && *final(self) == LogoutState::Pending(LOGOUT_DELAY_NANOS),
            !is_falling(*movement_info) && *old(self) == LogoutState::Idle && in_rested_area ==> r
                == (LogoutResult::Success, LogoutSpeed::Instant, None::<LogoutEffect>)
                && *final(self) == LogoutState::Executing,
            !is_falling(*movement_info) && *old(self) != LogoutState::Idle ==> r == (
                LogoutResult::Success,
                LogoutSpeed::Instant,
                None::<LogoutEffect>,
            ) && *final(self) == *old(self),
    {
        let falling = (movement_info.movement_flags & MovementFlags::FallingFar.value()) != 0
            || (movement_info.movement_flags & MovementFlags::SafeFall.value()) != 0;
        if falling {
            return (LogoutResult::FailureJumpingOrFalling, LogoutSpeed::Delayed, None);
        }
        let delayed = !in_rested_area;
        match *self {
            LogoutState::Idle => {
                if delayed {
                    *self = LogoutState::Pending(LOGOUT_DELAY_NANOS);
                    (LogoutResult::Success, LogoutSpeed::Delayed, Some(LogoutEffect::FreezeAndSit))
                } else {
                    *self = LogoutState::Executing;
                    (LogoutResult::Success, LogoutSpeed::Instant, None)
                }
            },
            _ => (LogoutResult::Success, LogoutSpeed::Instant, None),
        }
    }

    /// Cancels a waiting logout: the character unfreezes and stands up.
    /// Refused when no logout is waiting.
    pub fn cancel_logout(&mut self) -> (r: Result<LogoutEffect, LogoutError>)
        ensures
            *old(self) is Pending ==> r == Ok::<LogoutEffect, LogoutError>(
                LogoutEffect::UnfreezeAndStand,
            ) && *final(self) == LogoutState::Idle,
            !(*old(self) is Pending) ==> r == Err::<LogoutEffect, LogoutError>(
                LogoutError::NoLogoutInProgress,
            ) && *final(self) == *old(self),
    {
        if let LogoutState::Pending(_) = *self {
            *self = LogoutState::Idle;
            Ok(LogoutEffect::UnfreezeAndStand)
        } else {
            Err(LogoutError::NoLogoutInProgress)
        }
    }

    /// Advances the logout by `elapsed_nanos`. A waiting logout counts down
    /// and, once nothing is left, is carried out at the next tick; a logout
    /// being carried out asks the caller to do it, unless the character is
    /// teleporting.
    pub fn tick_logout_state(&mut self, elapsed_nanos: u64, teleporting: bool) -> (r: LogoutTick)
        ensures
            *final(self) == logout_after(*old(self), elapsed_nanos),
            r == (if *old(self) == LogoutState::Executing && !teleporting {
                LogoutTick::ExecuteLogout
            } else {
                LogoutTick::Nothing
            }),
    {
        match *self {
            LogoutState::Pending(duration_left) => {
                let left = duration_left.saturating_sub(elapsed_nanos);
                if left == 0 {
                    *self = LogoutState::Executing;
                } else {
                    *self = LogoutState::Pending(left);
                }
                LogoutTick::Nothing
            },
            LogoutState::Executing => {
                if teleporting {
                    LogoutTick::Nothing
                } else {
                    LogoutTick::ExecuteLogout
                }
            },
            _ => LogoutTick::Nothing,
        }
    }

    /// The logout was carried out: the client returns to character
    /// selection.
    pub fn finish_logout(&mut self)
        ensures
            *final(self) == LogoutState::ReturnToCharSelect,
    {
        *self = LogoutState::ReturnToCharSelect;
    }
}

} // verus!
