use crate::calendar::{div_toward_zero, CivilDate};
use chrono::TimeZone;
use chrono_tz::OffsetComponents;
use vstd::prelude::*;

verus! {

/// What chrono-tz makes of one local date and time in one zone.
#[derive(Clone, Copy, PartialEq, Eq, Structural, Debug)]
pub enum LocalOffset {
    /// The local time is one single instant: the zone's base UTC offset and
    /// its daylight-saving offset then, in seconds.
    Unique(i64, i64),
    /// The local time happens twice (the clocks were set back).
    Repeated,
    /// No instant shows that local time: it is skipped (the clocks were set
    /// forward), the date or the time does not exist, or it lies beyond
    /// chrono's range.
    Missing,
}

/// What chrono-tz gives for the zone called `name` at the local time
/// `hour:minute:second` of `date`; `None` when chrono-tz knows no zone of
/// that name.
pub uninterp spec fn tz_local_offset(
    name: Seq<char>,
    date: CivilDate,
    hour: u32,
    minute: u32,
    second: u32,
) -> Option<LocalOffset>;

/// Looks `name` up with chrono-tz's `Tz::from_str`, builds the local date and
/// time with chrono's `NaiveDate::from_ymd_opt` and `and_hms_opt`, maps it into
/// the zone with `TimeZone::from_local_datetime`, and for a single instant reads
/// `OffsetComponents::base_utc_offset` and `dst_offset` in seconds. Trusted: the
/// result is the named chrono-tz result; both components come from `i32`
/// values, and their sum lies strictly between -86400 and 86400 (chrono-tz
/// builds a `FixedOffset` from it, which it unwraps).
#[verifier::external_body]
fn local_offset_components(name: &str, date: CivilDate, hour: u32, minute: u32, second: u32)
    -> (found: Option<LocalOffset>)
    ensures
        found == tz_local_offset(name@, date, hour, minute, second),
        found matches Some(LocalOffset::Unique(base, dst)) ==> {
            &&& i32::MIN <= base <= i32::MAX
            &&& i32::MIN <= dst <= i32::MAX
            &&& -86400 < base + dst < 86400
        },
{
    let Ok(tz) = name.parse::<chrono_tz::Tz>() else { return None };
    let Some(day) = chrono::NaiveDate::from_ymd_opt(date.year, date.month, date.day) else {
        return Some(LocalOffset::Missing)
    };
    let Some(local) = day.and_hms_opt(hour, minute, second) else { return Some(LocalOffset::Missing) };
    Some(match tz.from_local_datetime(&local) {
        chrono::MappedLocalTime::Single(t) => {
            LocalOffset::Unique(t.offset().base_utc_offset().num_seconds(), t.offset().dst_offset().num_seconds())
        },
        chrono::MappedLocalTime::Ambiguous(_, _) => LocalOffset::Repeated,
        chrono::MappedLocalTime::None => LocalOffset::Missing,
    })
}

/// Reads the offset of the machine's local time zone from UTC, now, with
/// chrono's `Local::now().offset().local_minus_utc()`. Trusted: it depends on the
/// machine and the time, so only the range that chrono's `FixedOffset` keeps is
/// stated. chrono panics when the system clock reads before 1970 or when the
/// machine's time-zone data cannot be used; no argument can rule that out.
#[verifier::external_body]
fn local_utc_offset_seconds() -> (seconds: i32)
    ensures
        -86400 < seconds < 86400,
{
    chrono::Local::now().offset().local_minus_utc()
}

/// Whole hours of an offset given in seconds, rounded toward zero
/// (+05:30 gives 5, -03:30 gives -3).
pub open spec fn spec_offset_hours(total_seconds: int) -> int {
    div_toward_zero(total_seconds, 3600)
}

/// Whole hours of an offset given in seconds, rounded toward zero.
pub fn offset_hours(total_seconds: i64) -> (hours: i64)
    ensures
        hours == spec_offset_hours(total_seconds as int),
{
    if total_seconds >= 0 {
        total_seconds / 3600
    } else {
        let magnitude: u64 = ((-(total_seconds + 1)) as u64) + 1;
        let q: u64 = magnitude / 3600;
        -(q as i64)
    }
}

/// An offset of `total_seconds` seconds is `h` whole hours and less than one
/// more, on the offset's own side of UTC: east offsets give 0 or more hours,
/// west offsets 0 or fewer, and `3600 * |h|` never exceeds the offset's size.
pub proof fn lemma_offset_hours_keeps_side_and_size(total_seconds: int)
    ensures
        ({
            let h = spec_offset_hours(total_seconds);
            &&& total_seconds >= 0 ==> 0 <= h && 3600 * h <= total_seconds < 3600 * (h + 1)
            &&& total_seconds < 0 ==> h <= 0 && 3600 * (h - 1) < total_seconds <= 3600 * h
        }),
{
}

/// Hours of a zone's offset, from its base and daylight-saving parts;
/// `None` when the local time was not one single instant.
pub open spec fn spec_unique_offset_hours(offset: LocalOffset) -> Option<i64> {
    match offset {
        LocalOffset::Unique(base, dst) => Some(spec_offset_hours(base + dst) as i64),
        _ => None,
    }
}

/// Hours of a zone's offset, from its base and daylight-saving parts in
/// seconds; `None` when the local time was skipped or repeated.
pub fn unique_offset_hours(offset: LocalOffset) -> (hours: Option<i64>)
    requires
        offset matches LocalOffset::Unique(base, dst) ==> {
            &&& i32::MIN <= base <= i32::MAX
            &&& i32::MIN <= dst <= i32::MAX
        },
    ensures
        hours == spec_unique_offset_hours(offset),
{
    match offset {
        LocalOffset::Unique(base, dst) => Some(offset_hours(base + dst)),
        _ => None,
    }
}

/// The offset, in whole hours, of the zone called `name` at local noon of
/// `date`. Noon is used so that a change of the clocks at night does not
/// matter. `None` when chrono-tz knows no such zone or when noon of that date
/// is not a single instant there.
pub fn timezone_to_offset(name: &str, date: CivilDate) -> (hours: Option<i64>)
    ensures
        hours == match tz_local_offset(name@, date, 12, 0, 0) {
            Some(offset) => spec_unique_offset_hours(offset),
            None => None,
        },
        hours matches Some(h) ==> -24 < h < 24,
{
    match local_offset_components(name, date, 12, 0, 0) {
        Some(offset) => unique_offset_hours(offset),
        None => None,
    }
}

/// The offset, in whole hours, of the machine's local time zone now.
pub fn system_timezone_offset() -> (hours: i64)
    ensures
        -24 < hours < 24,
{
    offset_hours(local_utc_offset_seconds() as i64)
}

/// How the offset of a configured time-zone name was found.
#[derive(Clone, Copy, PartialEq, Eq, Structural, Debug)]
pub enum ZoneOffset {
    /// The zone is known; its offset at noon, in whole hours.
    Hours(i64),
    /// No zone has that name; the machine's offset, in whole hours, is used.
    InvalidZone(i64),
    /// Noon of the date happens twice in that zone.
    NoonRepeated,
    /// Noon of the date is skipped in that zone, or does not exist.
    NoonMissing,
}

/// The offset, in whole hours, of the zone named `tz_str` at local noon of
/// `date`. An unknown name falls back to the machine's own offset.
pub fn parse_timezone_string(tz_str: &str, date: CivilDate) -> (offset: ZoneOffset)
    ensures
        match tz_local_offset(tz_str@, date, 12, 0, 0) {
            None => offset matches ZoneOffset::InvalidZone(h) && -24 < h < 24,
            Some(LocalOffset::Unique(base, dst)) => offset == ZoneOffset::Hours(
                spec_offset_hours(base + dst) as i64,
            ),
            Some(LocalOffset::Repeated) => offset == ZoneOffset::NoonRepeated,
            Some(LocalOffset::Missing) => offset == ZoneOffset::NoonMissing,
        },
{
    match local_offset_components(tz_str, date, 12, 0, 0) {
        None => ZoneOffset::InvalidZone(system_timezone_offset()),
        Some(LocalOffset::Unique(base, dst)) => ZoneOffset::Hours(offset_hours(base + dst)),
        Some(LocalOffset::Repeated) => ZoneOffset::NoonRepeated,
        Some(LocalOffset::Missing) => ZoneOffset::NoonMissing,
    }
}

} // verus!
