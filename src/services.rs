//! The calendar services the pipeline calls: the time-zone database, the
//! formatting engine, the natural-language reader, the RFC 3339 reader and
//! the clocks. Each result that depends on its arguments alone is given a name.

use chrono::{DateTime, Datelike, MappedLocalTime, NaiveDate, NaiveTime, Offset, TimeZone, Timelike, Utc};
use chrono_tz::Tz;
use human_date_parser::{from_human_time, ParseResult};
use std::fmt::Write;
use vstd::prelude::*;

use crate::civil::{
    CivilDate, CivilDateTime, CivilTime, Parsed, Timestamp, MAX_TIMESTAMP, MIN_TIMESTAMP,
};
use crate::reader::reader_safe;

verus! {

/// How a wall-clock reading maps onto instants in a zone.
#[derive(Clone, Copy, Debug, PartialEq, Eq, Structural)]
pub enum LocalMatch {
    /// The reading does not occur in the zone (a gap, or no such date).
    Missing,
    /// The reading denotes exactly this instant.
    Unique(Timestamp),
    /// The reading occurs twice (a fall-back overlap).
    Ambiguous,
}

/// Whether the time-zone database knows the identifier.
pub uninterp spec fn zone_known(name: Seq<char>) -> bool;

/// The wall-clock reading of an instant in a zone, if it can be represented.
pub uninterp spec fn wall_clock(zone: Seq<char>, at: Timestamp) -> Option<CivilDateTime>;

/// The instants that a wall-clock reading denotes in a zone.
pub uninterp spec fn local_match(zone: Seq<char>, local: CivilDateTime) -> LocalMatch;

/// The text of an instant in a zone, written with a strftime-style pattern; `None` where the
/// zone is unknown, the instant is outside chrono's range, or the formatting engine rejects
/// the pattern.
pub uninterp spec fn rendering(zone: Seq<char>, at: Timestamp, pattern: Seq<char>) -> Option<Seq<char>>;

/// What the natural-language reader makes of an expression at a reference reading, or its
/// message when it cannot read it.
pub uninterp spec fn human_reading(text: Seq<char>, now: CivilDateTime) -> Result<Parsed, Seq<char>>;

/// The instant an RFC 3339 text denotes, or the reader's message when it is malformed.
pub uninterp spec fn rfc3339_reading(text: Seq<char>) -> Result<Timestamp, Seq<char>>;

/// Relies on `<chrono_tz::Tz as FromStr>::from_str`: a lookup of the identifier in the
/// time-zone database.
#[verifier::external_body]
pub(crate) fn zone_exists(name: &str) -> (r: bool)
    ensures
        r == zone_known(name@),
{
    name.parse::<Tz>().is_ok()
}

/// Relies on `DateTime::from_timestamp`, `DateTime::with_timezone` and
/// `NaiveDateTime::checked_add_offset`: the local reading of an instant in a zone. The offset
/// of a zone is less than a day, so the reading's date is the UTC date or a neighbour, and a
/// reading exists for a known zone whenever the UTC date and its neighbours are in chrono's
/// range. chrono's dates are valid; the fraction is kept as given, so the time of day is
/// valid when there is no leap second.
#[verifier::external_body]
pub(crate) fn wall_clock_at(zone: &str, at: Timestamp) -> (r: Option<CivilDateTime>)
    ensures
        r == wall_clock(zone@, at),
        r matches Some(dt) ==> dt.date.wf() && at.utc_day() - 1 <= dt.date.days <= at.utc_day() + 1,
        at.nanos < 1_000_000_000 ==> (r matches Some(dt) ==> dt.wf()),
        zone_known(zone@) && MIN_TIMESTAMP + 86400 <= at.seconds <= MAX_TIMESTAMP - 86400
            && at.nanos < 1_000_000_000 ==> r is Some,
{
    let tz: Tz = zone.parse().ok()?;
    let t = DateTime::from_timestamp(at.seconds, at.nanos)?.with_timezone(&tz);
    let n = t.naive_utc().checked_add_offset(t.offset().fix())?;
    let date = CivilDate { days: n.num_days_from_ce() };
    Some(CivilDateTime { date, time: CivilTime { secs: n.num_seconds_from_midnight(), nano: n.nanosecond() } })
}

/// Relies on `TimeZone::from_local_datetime` for `chrono_tz::Tz`: whether a wall-clock
/// reading occurs once, twice or not at all in a zone.
#[verifier::external_body]
pub(crate) fn resolve_local(zone: &str, local: &CivilDateTime) -> (r: LocalMatch)
    ensures
        r == local_match(zone@, *local),
{
    let (Ok(tz), Some(day), Some(time)) = (
        zone.parse::<Tz>(),
        NaiveDate::from_num_days_from_ce_opt(local.date.days),
        NaiveTime::from_num_seconds_from_midnight_opt(local.time.secs, local.time.nano),
    ) else {
        return LocalMatch::Missing;
    };
    match tz.from_local_datetime(&day.and_time(time)) {
        MappedLocalTime::Single(x) => LocalMatch::Unique(Timestamp { seconds: x.timestamp(), nanos: x.timestamp_subsec_nanos() }),
        MappedLocalTime::Ambiguous(..) => LocalMatch::Ambiguous,
        MappedLocalTime::None => LocalMatch::Missing,
    }
}

/// Relies on `DateTime::format` written through `core::fmt::Write`: chrono reports a pattern
/// it cannot honour as `fmt::Error` instead of panicking.
#[verifier::external_body]
pub(crate) fn render_instant(zone: &str, at: Timestamp, pattern: &str) -> (r: Result<String, std::fmt::Error>)
    ensures
        r is Ok <==> rendering(zone@, at, pattern@) is Some,
        r matches Ok(s) ==> s@ == rendering(zone@, at, pattern@)->0,
{
    let (Ok(tz), Some(t)) = (zone.parse::<Tz>(), DateTime::from_timestamp(at.seconds, at.nanos)) else {
        return Err(std::fmt::Error);
    };
    let mut out = String::new();
    write!(out, "{}", t.with_timezone(&tz).format(pattern))?;
    Ok(out)
}

/// Relies on `human_date_parser::from_human_time`: it reads the expression against the
/// reference reading alone, and hands back valid chrono values. The reference reading is
/// valid, so building it cannot fail. The reader panics on "this", "next" or "last" before an
/// hour, minute or second unit, on numbers that overflow an `i32` year, and when hour, minute
/// or second offsets carry a date-time past chrono's range; `reader_safe` leaves those inputs
/// out (see the `reader` module).
#[verifier::external_body]
pub(crate) fn read_expression(text: &str, now: &CivilDateTime) -> (r: Result<Parsed, String>)
    requires
        now.wf(),
        reader_safe(text@, *now),
    ensures
        match r {
            Ok(p) => human_reading(text@, *now) == Ok::<Parsed, Seq<char>>(p) && p.wf(),
            Err(m) => human_reading(text@, *now) == Err::<Parsed, Seq<char>>(m@),
        },
{
    let d = NaiveDate::from_num_days_from_ce_opt(now.date.days).unwrap();
    let t = NaiveTime::from_num_seconds_from_midnight_opt(now.time.secs, now.time.nano).unwrap();
    match from_human_time(text, d.and_time(t)) {
        Ok(ParseResult::Date(x)) => Ok(Parsed::Date(CivilDate { days: x.num_days_from_ce() })),
        Ok(ParseResult::Time(x)) => Ok(Parsed::Time(CivilTime { secs: x.num_seconds_from_midnight(), nano: x.nanosecond() })),
        Ok(ParseResult::DateTime(x)) => Ok(Parsed::DateTime(CivilDateTime {
            date: CivilDate { days: x.num_days_from_ce() },
            time: CivilTime { secs: x.num_seconds_from_midnight(), nano: x.nanosecond() },
        })),
        Err(e) => Err(e.to_string()),
    }
}

/// Relies on `DateTime::parse_from_rfc3339`: the instant the text denotes, whatever its offset.
#[verifier::external_body]
pub(crate) fn parse_rfc3339(text: &str) -> (r: Result<Timestamp, String>)
    ensures
        match r {
            Ok(t) => rfc3339_reading(text@) == Ok::<Timestamp, Seq<char>>(t),
            Err(m) => rfc3339_reading(text@) == Err::<Timestamp, Seq<char>>(m@),
        },
{
    match DateTime::parse_from_rfc3339(text) {
        Ok(t) => Ok(Timestamp { seconds: t.timestamp(), nanos: t.timestamp_subsec_nanos() }),
        Err(e) => Err(e.to_string()),
    }
}

/// Relies on `Utc::now`: the system clock, read once. It is an instant that chrono can
/// represent, with a fraction below one second (it panics for a clock before 1970).
#[verifier::external_body]
pub(crate) fn clock_now() -> (r: Timestamp)
    ensures
        MIN_TIMESTAMP <= r.seconds <= MAX_TIMESTAMP,
        r.nanos < 1_000_000_000,
{
    let t = Utc::now();
    Timestamp { seconds: t.timestamp(), nanos: t.timestamp_subsec_nanos() }
}

/// Relies on `iana_time_zone::get_timezone`: the identifier of the machine's own zone, or the
/// lookup's message. Nothing is known of either.
#[verifier::external_body]
pub(crate) fn host_zone() -> (r: Result<String, String>) {
    match iana_time_zone::get_timezone() {
        Ok(name) => Ok(name),
        Err(e) => Err(e.to_string()),
    }
}

} // verus!
