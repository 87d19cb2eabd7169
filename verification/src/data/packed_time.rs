//! A calendar time packed into 32 bits, as the client's clock messages
//! carry it.

use chrono::{Datelike, Timelike};
use vstd::prelude::*;

verus! {

/// A packed calendar time.
#[derive(PartialEq, Eq, Structural, Clone, Copy, Debug)]
pub struct PackedTime(pub u32);

/// The packed form of a calendar time: minute in bits 0-5, hour in bits
/// 6-10, weekday in bits 11-13, day of the month (from 0) in bits 14-19,
/// month (from 0) in bits 20-23 and the years since 2000 in bits 24-28;
/// each part is cut to its bits.
pub open spec fn packed_time_bits(
    minute: u32,
    hour: u32,
    weekday: u32,
    day0: u32,
    month0: u32,
    years_since_2000: u32,
) -> u32 {
    (minute & 0x3F) | ((hour << 6u32) & 0x7C0) | ((weekday << 11u32) & 0x3800) | ((day0 << 14u32)
        & 0xFC000) | ((month0 << 20u32) & 0xF00000) | ((years_since_2000 << 24u32) & 0x1F000000)
}

/// The calendar parts of the UTC time `timestamp` seconds after the Unix
/// epoch, as chrono computes them: minute, hour, weekday counted from Monday,
/// day of the month from 0, month from 0, year; `None` where chrono has no
/// such time.
pub uninterp spec fn utc_calendar(timestamp: i64) -> Option<(u32, u32, u32, u32, u32, i32)>;

/// Splits a Unix time into calendar parts through chrono's
/// `DateTime::from_timestamp` and its `minute`, `hour`, `weekday`, `day0`,
/// `month0` and `year` accessors. chrono documents the ranges: minutes below
/// 60, hours below 24, seven weekdays, days from 0 below 31, months from 0
/// below 12.
#[verifier::external_body]
fn utc_calendar_of(timestamp: i64) -> (r: Option<(u32, u32, u32, u32, u32, i32)>)
    ensures
        r == utc_calendar(timestamp),
        r matches Some((mi, h, w, d, mo, y)) ==> mi < 60 && h < 24 && w < 7 && d < 31 && mo < 12,
{
    let dt = chrono::DateTime::from_timestamp(timestamp, 0)?;
    Some((dt.minute(), dt.hour(), dt.weekday().num_days_from_monday(), dt.day0(), dt.month0(), dt.year()))
}

impl PackedTime {
    /// Packs a calendar time given by its parts. The year, read as an
    /// unsigned number, must not be below 2000.
    pub fn from_components(
        minute: u32,
        hour: u32,
        day_of_week: u32,
        day0: u32,
        month0: u32,
        year: i32,
    ) -> (r: Self)
        requires
            year as u32 >= 2000,
        ensures
            r.0 == packed_time_bits(
                minute,
                hour,
                day_of_week,
                day0,
                month0,
                ((year as u32) - 2000) as u32,
            ),
    {
        let mut game_time = minute & 0x3F;
        game_time = game_time | ((hour << 6u32) & 0x7C0);
        game_time = game_time | ((day_of_week << 11u32) & 0x3800);
        game_time = game_time | ((day0 << 14u32) & 0xFC000);
        game_time = game_time | ((month0 << 20u32) & 0xF00000);
        game_time = game_time | ((((year as u32) - 2000) << 24u32) & 0x1F000000);
        PackedTime(game_time)
    }

    /// Packs the UTC time `timestamp` seconds after the Unix epoch; `None`
    /// where chrono has no such time or its year, read as an unsigned number,
    /// is below 2000.
    pub fn from_unix_timestamp(timestamp: i64) -> (r: Option<Self>)
        ensures
            r matches Some(p) ==> utc_calendar(timestamp) matches Some((mi, h, w, d, mo, y)) && y as u32 >= 2000
                && p.0 == packed_time_bits(mi, h, w, d, mo, ((y as u32) - 2000) as u32),
            r is None ==> (utc_calendar(timestamp) is None || (utc_calendar(timestamp) matches Some((mi, h, w, d, mo, y)) && (y as u32) < 2000)),
    {
        match utc_calendar_of(timestamp) {
            Some((minute, hour, weekday, day0, month0, year)) => {
                if (year as u32) < 2000 {
                    None
                } else {
                    Some(Self::from_components(minute, hour, weekday, day0, month0, year))
                }
            },
            None => None,
        }
    }

    /// The packed bits.
    pub fn as_u32(&self) -> (r: u32)
        ensures
            r == self.0,
    {
        self.0
    }
}

impl From<PackedTime> for u32 {
    fn from(p: PackedTime) -> (r: u32) {
        p.0
    }
}

impl vstd::std_specs::convert::FromSpecImpl<PackedTime> for u32 {
    open spec fn obeys_from_spec() -> bool {
        true
    }

    open spec fn from_spec(p: PackedTime) -> u32 {
        p.0
    }
}

/// Each part of a calendar time within its range reads back from its bits
/// of the packed form.
pub proof fn lemma_packed_time_fields(
    minute: u32,
    hour: u32,
    weekday: u32,
    day0: u32,
    month0: u32,
    years: u32,
)
    requires
        minute < 60,
        hour < 24,
        weekday < 7,
        day0 < 31,
        month0 < 12,
        years < 32,
    ensures
        packed_time_bits(minute, hour, weekday, day0, month0, years) & 0x3F == minute,
        (packed_time_bits(minute, hour, weekday, day0, month0, years) >> 6u32) & 0x1F == hour,
        (packed_time_bits(minute, hour, weekday, day0, month0, years) >> 11u32) & 0x7 == weekday,
        (packed_time_bits(minute, hour, weekday, day0, month0, years) >> 14u32) & 0x3F == day0,
        (packed_time_bits(minute, hour, weekday, day0, month0, years) >> 20u32) & 0xF == month0,
        (packed_time_bits(minute, hour, weekday, day0, month0, years) >> 24u32) & 0x1F == years,
{
    let v = packed_time_bits(minute, hour, weekday, day0, month0, years);
    assert(minute < 60 && hour < 24 && weekday < 7 && day0 < 31 && month0 < 12 && years < 32
        && v == (minute & 0x3F) | ((hour << 6u32) & 0x7C0) | ((weekday << 11u32) & 0x3800) | ((
    day0 << 14u32) & 0xFC000) | ((month0 << 20u32) & 0xF00000) | ((years << 24u32) & 0x1F000000)
        ==> v & 0x3F == minute && (v >> 6u32) & 0x1F == hour && (v >> 11u32) & 0x7 == weekday
        && (v >> 14u32) & 0x3F == day0 && (v >> 20u32) & 0xF == month0 && (v >> 24u32) & 0x1F
        == years) by (bit_vector);
}

} // verus!
