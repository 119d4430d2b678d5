//! The trusted boundary to the `jiff` crate: type declarations and thin
//! wrappers around the calls the library relies on.  Each wrapper's body
//! only makes its call and converts between `jiff`'s values and the
//! library's plain types; Verus believes the stated contracts, which say
//! no more than `jiff`'s documentation promises.

use vstd::prelude::*;

verus! {

use crate::span::CalendarSpan;
use crate::zoned::{ZonedValue, ZoneId, MAX_OFFSET_SECONDS};
use jiff::civil::{Date, DateTime, Time};
use jiff::tz::{Offset, OffsetConflict, TimeZone};

#[verifier::external_type_specification]
#[verifier::external_body]
/// Declares `jiff::Zoned` so values of it can be carried through.
pub struct ExZoned(jiff::Zoned);

#[verifier::external_type_specification]
#[verifier::external_body]
/// Declares `jiff::Span` so values of it can be carried through.
pub struct ExJiffSpan(jiff::Span);

#[verifier::external_type_specification]
#[verifier::external_body]
/// Declares `jiff::Unit` so values of it can be carried through.
pub struct ExJiffUnit(jiff::Unit);

#[verifier::external_type_specification]
#[verifier::external_body]
/// Declares `jiff::Error` so fallible calls can hand it back opaquely.
pub struct ExJiffError(jiff::Error);

/// Relies on `jiff::Zoned`'s field accessors: the documented ranges of
/// `year`, `month`, `day`, `hour`, `minute`, `second`,
/// `subsec_nanosecond` and `offset`, and on dates held by a `Zoned`
/// being valid; a zone without an IANA name is recorded by its fixed
/// offset.
#[verifier::external_body]
pub fn zoned_fields(z: &jiff::Zoned) -> (r: ZonedValue)
    ensures
        r.wf(),
{
    let off = z.offset().seconds();
    let zone = match z.time_zone().iana_name() {
        Some(n) => ZoneId::Iana(n.to_owned()),
        None => ZoneId::Fixed(off),
    };
    ZonedValue {
        year: z.year(), month: z.month(), day: z.day(),
        hour: z.hour(), minute: z.minute(), second: z.second(),
        subsec_nanosecond: z.subsec_nanosecond(), offset_seconds: off, zone,
    }
}

/// Relies on `jiff::Timestamp::new`, `jiff::tz::TimeZone::get`,
/// `jiff::tz::TimeZone::fixed`, `jiff::tz::Offset::from_seconds` and
/// `jiff::Zoned::new` to rebuild the `jiff` value of an instant in a
/// zone.
#[verifier::external_body]
pub fn instant_in_zone(second: i64, nanosecond: i32, zone: &ZoneId) -> (r: Result<
    jiff::Zoned,
    String,
>) {
    let ts = jiff::Timestamp::new(second, nanosecond).map_err(|e| e.to_string())?;
    let tz = match zone {
        ZoneId::Iana(n) => TimeZone::get(n.as_str()).map_err(|e| e.to_string())?,
        ZoneId::Fixed(o) => TimeZone::fixed(
            Offset::from_seconds(*o).map_err(|e| e.to_string())?,
        ),
    };
    Ok(jiff::Zoned::new(ts, tz))
}

/// Relies on `jiff::civil::Date::new`, `jiff::civil::Time::new`,
/// `jiff::civil::DateTime::from_parts`, `jiff::civil::DateTime::to_zoned`
/// and `jiff::tz::TimeZone::system`: the civil reading is attached to
/// the system zone with compatible disambiguation.
#[verifier::external_body]
pub fn civil_to_system_zoned(y: i16, mo: i8, d: i8, h: i8, mi: i8, s: i8, ns: i32) -> (r:
    Result<jiff::Zoned, String>) {
    let date = Date::new(y, mo, d).map_err(|e| e.to_string())?;
    let time = Time::new(h, mi, s, ns).map_err(|e| e.to_string())?;
    let dt = DateTime::from_parts(date, time);
    dt.to_zoned(TimeZone::system()).map_err(|e| e.to_string())
}

/// Relies on `jiff::fmt::temporal::DateTimeParser::parse_zoned` with the
/// `PreferOffset` conflict policy: parses a fully zone-qualified
/// timestamp string.
#[verifier::external_body]
pub fn parse_zoned_str(s: &str) -> (r: Result<jiff::Zoned, String>) {
    let parser = jiff::fmt::temporal::DateTimeParser::new().offset_conflict(
        OffsetConflict::PreferOffset,
    );
    parser.parse_zoned(s).map_err(|e| e.to_string())
}

/// Relies on `jiff::fmt::strtime::parse`, `BrokenDownTime::set_weekday`
/// and `BrokenDownTime::to_zoned`: a strptime-style parse of `s` against
/// `fmt` whose weekday field, if any, is discarded rather than checked.
#[verifier::external_body]
pub fn strptime_relaxed(fmt: &str, s: &str) -> (r: Result<jiff::Zoned, String>) {
    let mut tm = jiff::fmt::strtime::parse(fmt, s).map_err(|e| e.to_string())?;
    tm.set_weekday(None);
    tm.to_zoned().map_err(|e| e.to_string())
}

/// Relies on `jiff::fmt::temporal::DateTimeParser::parse_timestamp` and
/// `jiff::Timestamp::to_zoned` with the system zone.
#[verifier::external_body]
pub fn parse_timestamp_str(s: &str) -> (r: Result<jiff::Zoned, String>) {
    let parser = jiff::fmt::temporal::DateTimeParser::new();
    let ts = parser.parse_timestamp(s).map_err(|e| e.to_string())?;
    Ok(ts.to_zoned(TimeZone::system()))
}

/// Relies on `jiff::fmt::temporal::DateTimeParser::parse_datetime` and
/// `jiff::civil::DateTime::to_zoned` with the system zone.
#[verifier::external_body]
pub fn parse_datetime_str(s: &str) -> (r: Result<jiff::Zoned, String>) {
    let parser = jiff::fmt::temporal::DateTimeParser::new();
    let dt = parser.parse_datetime(s).map_err(|e| e.to_string())?;
    dt.to_zoned(TimeZone::system()).map_err(|e| e.to_string())
}

/// Relies on `jiff::fmt::temporal::DateTimeParser::parse_date` and
/// `jiff::civil::Date::to_zoned` with the system zone: midnight of the
/// parsed date in the system zone.
#[verifier::external_body]
pub fn parse_date_str(s: &str) -> (r: Result<jiff::Zoned, String>) {
    let parser = jiff::fmt::temporal::DateTimeParser::new();
    let date = parser.parse_date(s).map_err(|e| e.to_string())?;
    date.to_zoned(TimeZone::system()).map_err(|e| e.to_string())
}

/// Relies on `jiff::fmt::temporal::DateTimeParser::parse_time`,
/// `jiff::Zoned::now` and `jiff::civil::Time::to_datetime`: the parsed
/// time of day on today's date in the system zone.  The result depends
/// on the clock, so nothing relates it to the input.
#[verifier::external_body]
pub fn parse_time_str(s: &str) -> (r: Result<jiff::Zoned, String>) {
    let parser = jiff::fmt::temporal::DateTimeParser::new();
    let time = parser.parse_time(s).map_err(|e| e.to_string())?;
    let today = jiff::Zoned::now().datetime().date();
    time.to_datetime(today).to_zoned(TimeZone::system()).map_err(|e| e.to_string())
}

/// The civil pieces a zone-ambiguous timestamp string breaks into.
pub struct PiecesFields {
    /// Calendar year of the date part.
    pub year: i16,
    /// Month of the date part.
    pub month: i8,
    /// Day of the date part.
    pub day: i8,
    /// Whether a time part was present.
    pub has_time: bool,
    /// Hour of the time part, zero when absent.
    pub hour: i8,
    /// Minute of the time part, zero when absent.
    pub minute: i8,
    /// Second of the time part, zero when absent.
    pub second: i8,
    /// Sub-second nanoseconds of the time part, zero when absent.
    pub subsec_nanosecond: i32,
    /// Whether a numeric offset was present.
    pub has_offset: bool,
    /// The numeric offset in seconds, zero when absent.
    pub offset_seconds: i32,
}

impl PiecesFields {
    /// Field ranges promised by the parse.
    pub open spec fn wf(self) -> bool {
        &&& crate::calendar::spec_valid_date(
            self.year as int,
            self.month as int,
            self.day as int,
        )
        &&& 0 <= self.hour <= 23
        &&& 0 <= self.minute <= 59
        &&& 0 <= self.second <= 59
        &&& 0 <= self.subsec_nanosecond <= 999999999
        &&& -MAX_OFFSET_SECONDS <= self.offset_seconds <= MAX_OFFSET_SECONDS
    }
}

/// Relies on `jiff::fmt::temporal::Pieces::parse` and its accessors
/// `date`, `time` and `to_numeric_offset`, with their documented field
/// ranges: the raw civil pieces of a timestamp string, zone unresolved.
#[verifier::external_body]
pub fn pieces_parse(s: &str) -> (r: Result<PiecesFields, String>)
    ensures
        r matches Ok(p) ==> p.wf(),
{
    let p = jiff::fmt::temporal::Pieces::parse(s).map_err(|e| e.to_string())?;
    let (d, t, off) = (p.date(), p.time(), p.to_numeric_offset());
    let tv = t.unwrap_or_default();
    Ok(PiecesFields {
        year: d.year(), month: d.month(), day: d.day(),
        has_time: t.is_some(), hour: tv.hour(), minute: tv.minute(),
        second: tv.second(), subsec_nanosecond: tv.subsec_nanosecond(),
        has_offset: off.is_some(), offset_seconds: off.map_or(0, |o| o.seconds()),
    })
}

/// Relies on `jiff::tz::OffsetConflict::AlwaysOffset::resolve` against
/// the system zone and `AmbiguousZoned::compatible`: the civil reading
/// with its embedded offset wins over the zone's rules, and any residual
/// ambiguity is resolved compatibly.
#[verifier::external_body]
pub fn resolve_always_offset(y: i16, mo: i8, d: i8, h: i8, mi: i8, s: i8, ns: i32, offset_seconds: i32) -> (r: Result<jiff::Zoned, String>) {
    let date = Date::new(y, mo, d).map_err(|e| e.to_string())?;
    let time = Time::new(h, mi, s, ns).map_err(|e| e.to_string())?;
    let dt = DateTime::from_parts(date, time);
    let offset = Offset::from_seconds(offset_seconds).map_err(|e| e.to_string())?;
    OffsetConflict::AlwaysOffset
        .resolve(dt, offset, TimeZone::system())
        .map_err(|e| e.to_string())?
        .compatible()
        .map_err(|e| e.to_string())
}

/// Relies on `jiff::Zoned::checked_add` with a `jiff::Span`: calendar
/// units are applied with calendar rules, finer units as exact
/// durations; out-of-range results are an error.
#[verifier::external_body]
pub fn zoned_add_span_raw(z: &jiff::Zoned, sp: &jiff::Span) -> (r: Result<
    jiff::Zoned,
    String,
>) {
    z.checked_add(*sp).map_err(|e| e.to_string())
}

/// Relies on `jiff::Span`'s `try_*` builders to assemble a `jiff::Span`
/// from the components of a calendar span.
#[verifier::external_body]
pub fn to_jiff_span(sp: &CalendarSpan) -> (r: Result<jiff::Span, jiff::Error>) {
    jiff::Span::new()
        .try_years(sp.years)?
        .try_months(sp.months)?
        .try_weeks(sp.weeks)?
        .try_days(sp.days)?
        .try_hours(sp.hours)?
        .try_minutes(sp.minutes)?
        .try_seconds(sp.seconds)?
        .try_milliseconds(sp.milliseconds)?
        .try_microseconds(sp.microseconds)?
        .try_nanoseconds(sp.nanoseconds)
}

/// Relies on `jiff::Span`'s `get_*` accessors and their documented
/// ranges, and on all components of a `jiff::Span` carrying one sign.
#[verifier::external_body]
pub fn from_jiff_span(sp: &jiff::Span) -> (r: CalendarSpan)
    ensures
        r.wf(),
{
    CalendarSpan {
        years: sp.get_years() as i64,
        months: sp.get_months() as i64,
        weeks: sp.get_weeks() as i64,
        days: sp.get_days() as i64,
        hours: sp.get_hours() as i64,
        minutes: sp.get_minutes(),
        seconds: sp.get_seconds(),
        milliseconds: sp.get_milliseconds(),
        microseconds: sp.get_microseconds(),
        nanoseconds: sp.get_nanoseconds(),
    }
}

/// Relies on the mapping between the library's units and `jiff::Unit`.
#[verifier::external_body]
pub fn unit_to_jiff(u: crate::units::CalendarUnit) -> (r: jiff::Unit) {
    match u {
        crate::units::CalendarUnit::Year => jiff::Unit::Year,
        crate::units::CalendarUnit::Month => jiff::Unit::Month,
        crate::units::CalendarUnit::Week => jiff::Unit::Week,
        crate::units::CalendarUnit::Day => jiff::Unit::Day,
        crate::units::CalendarUnit::Hour => jiff::Unit::Hour,
        crate::units::CalendarUnit::Minute => jiff::Unit::Minute,
        crate::units::CalendarUnit::Second => jiff::Unit::Second,
        crate::units::CalendarUnit::Millisecond => jiff::Unit::Millisecond,
        crate::units::CalendarUnit::Microsecond => jiff::Unit::Microsecond,
        crate::units::CalendarUnit::Nanosecond => jiff::Unit::Nanosecond,
    }
}

/// Relies on `jiff::Zoned::until` with a `jiff::ZonedDifference`
/// configured with the given smallest and largest units and half-expand
/// rounding: the calendar-aware difference from `a` to `b`, with units
/// outside the requested bounds rounded or balanced away.
#[verifier::external_body]
pub fn until_zoned_raw(
    a: &jiff::Zoned,
    b: &jiff::Zoned,
    smallest: jiff::Unit,
    largest: jiff::Unit,
) -> (r: Result<jiff::Span, String>) {
    let diff = jiff::ZonedDifference::new(b)
        .smallest(smallest)
        .largest(largest)
        .mode(jiff::RoundMode::HalfExpand);
    a.until(diff).map_err(|e| e.to_string())
}

/// Relies on `jiff::fmt::strtime::format`: renders a zoned value by a
/// caller-supplied strftime-style template.  The output depends on the
/// template and on the zone database, so nothing more is stated.
#[verifier::external_body]
pub fn strftime_format(fmt: &str, z: &jiff::Zoned) -> (r: Result<String, String>) {
    jiff::fmt::strtime::format(fmt, z).map_err(|e| e.to_string())
}

/// Relies on `jiff::Zoned::now`, which panics only if the system clock
/// reports a time outside `jiff`'s representable range.
#[verifier::external_body]
pub fn now_zoned() -> (r: jiff::Zoned) {
    jiff::Zoned::now()
}

} // verus!
