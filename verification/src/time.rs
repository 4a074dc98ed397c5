//! The packed date/time value carried in record headers.
//!
//! A timestamp occupies sixteen bytes of a record header: year, month,
//! day, hour, minute, second, a reserved byte, nanoseconds, a time-zone
//! offset in minutes, a daylight-saving indicator, and a final reserved
//! byte. The reserved bytes are written as zero.

use crate::region::{u16_at, u32_at, RawRegion};
use vstd::prelude::*;

verus! {

/// The time-zone value that marks a timestamp as local time.
pub const UNSPECIFIED_TIMEZONE: i16 = 0x07ff;

/// Daylight-saving indicator bits.
#[derive(Clone, Copy, Debug, PartialEq, Eq, Structural)]
pub struct Daylight {
    /// The raw indicator bits.
    pub bits: u8,
}

impl Daylight {
    /// The time is affected by daylight saving.
    pub fn adjust_daylight() -> (r: Daylight)
        ensures
            r.bits == 1,
    {
        Daylight { bits: 1 }
    }

    /// The time has been adjusted for daylight saving.
    pub fn in_daylight() -> (r: Daylight)
        ensures
            r.bits == 2,
    {
        Daylight { bits: 2 }
    }

    /// No daylight-saving information.
    pub fn empty() -> (r: Daylight)
        ensures
            r.bits == 0,
    {
        Daylight { bits: 0 }
    }
}

/// The fields from which a validated [`Time`] is built. A `None` time zone
/// stands for local time.
#[derive(Clone, Copy, Debug)]
pub struct TimeParams {
    /// Full year, 1900 through 9999.
    pub year: u16,
    /// Month, 1 through 12.
    pub month: u8,
    /// Day of the month, 1 through 31.
    pub day: u8,
    /// Hour, 0 through 23.
    pub hour: u8,
    /// Minute, 0 through 59.
    pub minute: u8,
    /// Second, 0 through 59.
    pub second: u8,
    /// Nanosecond, 0 through 999,999,999.
    pub nanosecond: u32,
    /// Offset from UTC in minutes, -1440 through 1440, or `None` for
    /// local time.
    pub time_zone: Option<i16>,
    /// Daylight-saving indicator.
    pub daylight: Daylight,
}

/// A timestamp could not be built because a field was out of range.
#[derive(Clone, Copy, Debug, PartialEq, Eq, Structural)]
pub enum TimeError {
    /// Some field lay outside the range the format allows.
    OutOfRange,
}

/// A validated timestamp as a record header stores it.
#[derive(Clone, Copy, Debug, PartialEq, Eq, Structural)]
pub struct Time {
    /// Full year, 1900 through 9999.
    pub year: u16,
    /// Month, 1 through 12.
    pub month: u8,
    /// Day of the month, 1 through 31.
    pub day: u8,
    /// Hour, 0 through 23.
    pub hour: u8,
    /// Minute, 0 through 59.
    pub minute: u8,
    /// Second, 0 through 59.
    pub second: u8,
    /// Nanosecond, 0 through 999,999,999.
    pub nanosecond: u32,
    /// Offset from UTC in minutes, or [`UNSPECIFIED_TIMEZONE`].
    pub time_zone: i16,
    /// Daylight-saving indicator.
    pub daylight: Daylight,
}

/// The ranges a timestamp's fields must lie in.
pub open spec fn spec_time_valid(t: Time) -> bool {
    &&& 1900 <= t.year <= 9999
    &&& 1 <= t.month <= 12
    &&& 1 <= t.day <= 31
    &&& t.hour <= 23
    &&& t.minute <= 59
    &&& t.second <= 59
    &&& t.nanosecond <= 999_999_999
    &&& (-1440 <= t.time_zone <= 1440 || t.time_zone == UNSPECIFIED_TIMEZONE)
}

/// The timestamp that a set of parameters describes, before validation.
pub open spec fn spec_time_of_params(p: TimeParams) -> Time {
    Time {
        year: p.year,
        month: p.month,
        day: p.day,
        hour: p.hour,
        minute: p.minute,
        second: p.second,
        nanosecond: p.nanosecond,
        time_zone: match p.time_zone {
            Some(tz) => tz,
            None => UNSPECIFIED_TIMEZONE,
        },
        daylight: p.daylight,
    }
}

impl Time {
    /// Builds a timestamp after checking every field's range; a `None`
    /// time zone becomes [`UNSPECIFIED_TIMEZONE`].
    pub fn new(params: TimeParams) -> (r: Result<Time, TimeError>)
        ensures
            r is Ok <==> spec_time_valid(spec_time_of_params(params)),
            r matches Ok(t) ==> t == spec_time_of_params(params),
            r matches Err(e) ==> e == TimeError::OutOfRange,
    {
        let time_zone: i16 = match params.time_zone {
            Some(tz) => tz,
            None => UNSPECIFIED_TIMEZONE,
        };
        let t = Time {
            year: params.year,
            month: params.month,
            day: params.day,
            hour: params.hour,
            minute: params.minute,
            second: params.second,
            nanosecond: params.nanosecond,
            time_zone,
            daylight: params.daylight,
        };
        if 1900 <= t.year && t.year <= 9999 && 1 <= t.month && t.month <= 12 && 1 <= t.day
            && t.day <= 31 && t.hour <= 23 && t.minute <= 59 && t.second <= 59 && t.nanosecond
            <= 999_999_999 && ((-1440 <= t.time_zone && t.time_zone <= 1440) || t.time_zone
            == UNSPECIFIED_TIMEZONE) {
            Ok(t)
        } else {
            Err(TimeError::OutOfRange)
        }
    }
}

/// The bit pattern that stores a time-zone offset in a header.
pub open spec fn tz_bits(tz: i16) -> u16 {
    if tz >= 0 {
        tz as u16
    } else {
        (tz + 0x10000) as u16
    }
}

/// The time-zone offset stored as the bit pattern `b`.
pub open spec fn tz_of_bits(b: u16) -> i16 {
    if b < 0x8000 {
        b as i16
    } else {
        (b - 0x10000) as i16
    }
}

/// Storing a time-zone offset and reading it back yields the offset.
pub proof fn lemma_tz_roundtrip(tz: i16)
    ensures
        tz_of_bits(tz_bits(tz)) == tz,
{
}

/// The timestamp stored in sixteen header bytes at offset `off`.
pub open spec fn time_at(bytes: Seq<u8>, off: int) -> Time
    recommends
        0 <= off,
        off + 16 <= bytes.len(),
{
    Time {
        year: u16_at(bytes, off),
        month: bytes[off + 2],
        day: bytes[off + 3],
        hour: bytes[off + 4],
        minute: bytes[off + 5],
        second: bytes[off + 6],
        nanosecond: u32_at(bytes, off + 8),
        time_zone: tz_of_bits(u16_at(bytes, off + 12)),
        daylight: Daylight { bits: bytes[off + 14] },
    }
}

/// Converts a time-zone offset to its stored bit pattern.
fn tz_to_bits(tz: i16) -> (r: u16)
    ensures
        r == tz_bits(tz),
{
    if tz >= 0 {
        tz as u16
    } else {
        (tz as i32 + 0x10000) as u16
    }
}

/// Converts a stored bit pattern back to a time-zone offset.
fn bits_to_tz(b: u16) -> (r: i16)
    ensures
        r == tz_of_bits(b),
{
    if b < 0x8000 {
        b as i16
    } else {
        (b as i32 - 0x10000) as i16
    }
}

/// Two byte sequences of equal length that agree on `[off, off + 16)`
/// store the same timestamp there.
pub proof fn lemma_agree_time(b1: Seq<u8>, b2: Seq<u8>, off: int)
    requires
        0 <= off,
        off + 16 <= b1.len(),
        b1.len() == b2.len(),
        forall|j: int| off <= j < off + 16 ==> b1[j] == b2[j],
    ensures
        time_at(b1, off) == time_at(b2, off),
{
    crate::region::lemma_agree_u16(b1, b2, off);
    crate::region::lemma_agree_u32(b1, b2, off + 8);
    crate::region::lemma_agree_u16(b1, b2, off + 12);
}

/// Writes the sixteen bytes of `t` at offset `off`, reserved bytes as zero,
/// touching nothing else.
pub fn write_time_at(region: &mut RawRegion, off: usize, t: &Time)
    requires
        off + 16 <= old(region).bytes@.len(),
    ensures
        final(region).base == old(region).base,
        final(region).bytes@.len() == old(region).bytes@.len(),
        time_at(final(region).bytes@, off as int) == *t,
        final(region).bytes@[off as int + 7] == 0,
        final(region).bytes@[off as int + 15] == 0,
        forall|j: int|
            0 <= j < old(region).bytes@.len() && !(off <= j < off + 16)
                ==> final(region).bytes@[j] == old(region).bytes@[j],
{
    let n = region.len();
    region.write_u16_at(off, t.year);
    let ghost b_year = region.bytes@;
    region.write_u8_at(off + 2, t.month);
    region.write_u8_at(off + 3, t.day);
    region.write_u8_at(off + 4, t.hour);
    region.write_u8_at(off + 5, t.minute);
    region.write_u8_at(off + 6, t.second);
    region.write_u8_at(off + 7, 0);
    region.write_u32_at(off + 8, t.nanosecond);
    let ghost b_nano = region.bytes@;
    region.write_u16_at(off + 12, tz_to_bits(t.time_zone));
    let ghost b_tz = region.bytes@;
    region.write_u8_at(off + 14, t.daylight.bits);
    region.write_u8_at(off + 15, 0);
    proof {
        crate::region::lemma_agree_u16(region.bytes@, b_year, off as int);
        crate::region::lemma_agree_u32(region.bytes@, b_nano, off as int + 8);
        crate::region::lemma_agree_u16(region.bytes@, b_tz, off as int + 12);
        lemma_tz_roundtrip(t.time_zone);
    }
}

/// Reads the timestamp stored at offset `off`.
pub fn read_time_at(region: &RawRegion, off: usize) -> (r: Time)
    requires
        off + 16 <= region.bytes@.len(),
    ensures
        r == time_at(region.bytes@, off as int),
{
    let n = region.len();
    Time {
        year: region.read_u16_at(off),
        month: region.read_u8_at(off + 2),
        day: region.read_u8_at(off + 3),
        hour: region.read_u8_at(off + 4),
        minute: region.read_u8_at(off + 5),
        second: region.read_u8_at(off + 6),
        nanosecond: region.read_u32_at(off + 8),
        time_zone: bits_to_tz(region.read_u16_at(off + 12)),
        daylight: Daylight { bits: region.read_u8_at(off + 14) },
    }
}

} // verus!
