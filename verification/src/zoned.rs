//! The zone-qualified civil timestamp: the foundational value every other
//! component operates on, modelled by its plain calendar fields, its UTC
//! offset, and its time-zone reference.

use vstd::prelude::*;

verus! {

use crate::calendar::{
    spec_valid_date,
    spec_epoch_days,
    civil_to_days,
    civil_from_days,
    MIN_EPOCH_DAY,
    MAX_EPOCH_DAY,
};
use crate::strutil::str_eq;

/// Largest magnitude of a UTC offset, in seconds (25:59:59).
pub const MAX_OFFSET_SECONDS: i32 = 93599;

/// The time-zone reference of a zoned value: an IANA identifier, or a
/// fixed UTC offset in seconds.
#[derive(Debug, Clone)]
pub enum ZoneId {
    /// A zone named in the IANA database.
    Iana(String),
    /// A fixed offset from UTC, in seconds.
    Fixed(i32),
}

impl ZoneId {
    /// Whether two zone references denote the same zone.
    pub open spec fn spec_same(self, other: ZoneId) -> bool {
        match (self, other) {
            (ZoneId::Iana(a), ZoneId::Iana(b)) => a@ == b@,
            (ZoneId::Fixed(a), ZoneId::Fixed(b)) => a == b,
            _ => false,
        }
    }

    /// Whether two zone references denote the same zone.
    pub fn same(&self, other: &ZoneId) -> (r: bool)
        ensures
            r == self.spec_same(*other),
    {
        match (self, other) {
            (ZoneId::Iana(a), ZoneId::Iana(b)) => str_eq(a.as_str(), b.as_str()),
            (ZoneId::Fixed(a), ZoneId::Fixed(b)) => *a == *b,
            _ => false,
        }
    }

}

/// A zone-qualified civil timestamp: a valid civil date and time, the
/// UTC offset in effect, and the zone it belongs to.  The tuple always
/// denotes one disambiguated instant: `civil time - offset = UTC`.
#[derive(Debug, Clone)]
pub struct ZonedValue {
    /// Calendar year.
    pub year: i16,
    /// Calendar month, 1 to 12.
    pub month: i8,
    /// Day of the month, valid for the month and year.
    pub day: i8,
    /// Hour of the day, 0 to 23.
    pub hour: i8,
    /// Minute, 0 to 59.
    pub minute: i8,
    /// Second, 0 to 59.
    pub second: i8,
    /// Sub-second nanoseconds, 0 to 999,999,999.
    pub subsec_nanosecond: i32,
    /// Offset from UTC in seconds for this instant in this zone.
    pub offset_seconds: i32,
    /// The zone reference.
    pub zone: ZoneId,
}

impl ZonedValue {
    /// Well-formedness: every field in range, the date valid, and a
    /// fixed-offset zone consistent with the offset in effect.
    pub open spec fn wf(self) -> bool {
        &&& spec_valid_date(self.year as int, self.month as int, self.day as int)
        &&& 0 <= self.hour <= 23
        &&& 0 <= self.minute <= 59
        &&& 0 <= self.second <= 59
        &&& 0 <= self.subsec_nanosecond <= 999999999
        &&& -MAX_OFFSET_SECONDS <= self.offset_seconds <= MAX_OFFSET_SECONDS
        &&& match self.zone {
            ZoneId::Fixed(o) => o == self.offset_seconds,
            ZoneId::Iana(_) => true,
        }
    }

    /// The instant this value denotes, as whole seconds since the Unix
    /// epoch: the civil reading in seconds, minus the offset.
    pub open spec fn spec_epoch_second(self) -> int {
        spec_epoch_days(self.year as int, self.month as int, self.day as int) * 86400
            + self.hour as int * 3600 + self.minute as int * 60 + self.second as int
            - self.offset_seconds as int
    }

    /// Whole seconds since the Unix epoch of the instant this value
    /// denotes.
    pub fn epoch_second(&self) -> (r: i64)
        requires
            self.wf(),
        ensures
            r == self.spec_epoch_second(),
            MIN_EPOCH_DAY * 86400 - MAX_OFFSET_SECONDS <= r <= (MAX_EPOCH_DAY + 1)
                * 86400 + MAX_OFFSET_SECONDS,
    {
        let days = civil_to_days(self.year, self.month, self.day);
        days * 86400 + (self.hour as i64) * 3600 + (self.minute as i64) * 60
            + (self.second as i64) - (self.offset_seconds as i64)
    }

    /// Two zoned values with equal fields and the same zone.
    pub open spec fn spec_same_value(self, other: ZonedValue) -> bool {
        &&& self.year == other.year
        &&& self.month == other.month
        &&& self.day == other.day
        &&& self.hour == other.hour
        &&& self.minute == other.minute
        &&& self.second == other.second
        &&& self.subsec_nanosecond == other.subsec_nanosecond
        &&& self.offset_seconds == other.offset_seconds
        &&& self.zone.spec_same(other.zone)
    }

    /// Field-wise equality of two zoned values.
    pub fn same_value(&self, other: &ZonedValue) -> (r: bool)
        ensures
            r == self.spec_same_value(*other),
    {
        self.year == other.year && self.month == other.month && self.day == other.day
            && self.hour == other.hour && self.minute == other.minute && self.second
            == other.second && self.subsec_nanosecond == other.subsec_nanosecond
            && self.offset_seconds == other.offset_seconds && self.zone.same(&other.zone)
    }
}

} // verus!

verus! {

use crate::errors::DtError;
use crate::render::{
    spec_dec_str,
    spec_zero_pad,
    spec_trim_zeros,
    dec_str,
    dec_str_pad,
};
use vstd::string::{StrSliceExecFns, StringExecFns};

/// Split an epoch second count into an absolute day number and the
/// second of that day.
pub fn split_epoch(epoch: i64) -> (r: (i64, i64))
    requires
        MIN_EPOCH_DAY * 86400 - MAX_OFFSET_SECONDS <= epoch <= (MAX_EPOCH_DAY + 1) * 86400
            + MAX_OFFSET_SECONDS,
    ensures
        r.0 * 86400 + r.1 == epoch,
        0 <= r.1 < 86400,
        MIN_EPOCH_DAY - 2 <= r.0 <= MAX_EPOCH_DAY + 2,
{
    // 4371589 days of shift keep the dividend non-negative.
    let t: i64 = epoch + 4371589 * 86400;
    let q: i64 = t / 86400;
    let r: i64 = t % 86400;
    proof {
        vstd::arithmetic::div_mod::lemma_fundamental_div_mod(t as int, 86400);
        vstd::arithmetic::div_mod::lemma_mod_pos_bound(t as int, 86400);
    }
    (q - 4371589, r)
}

/// The same instant expressed in UTC: the zone becomes `UTC`, the
/// offset zero, and the civil fields are recomputed from the epoch
/// seconds; the sub-second part is unchanged.
pub fn to_utc(z: &ZonedValue) -> (r: Result<ZonedValue, DtError>)
    requires
        z.wf(),
    ensures
        match r {
            Ok(u) => {
                &&& u.wf()
                &&& u.spec_epoch_second() == z.spec_epoch_second()
                &&& u.subsec_nanosecond == z.subsec_nanosecond
                &&& u.offset_seconds == 0
                &&& u.zone matches ZoneId::Iana(n) && n@ == "UTC"@
            },
            Err(e) => e is DateOverflow,
        },
{
    let epoch = z.epoch_second();
    let (days, secs) = split_epoch(epoch);
    if days < MIN_EPOCH_DAY || days > MAX_EPOCH_DAY {
        return Err(DtError::DateOverflow(String::from_str("utc conversion")));
    }
    let (y, mo, d) = civil_from_days(days);
    let hour: i64 = secs / 3600;
    let minute: i64 = (secs % 3600) / 60;
    let second: i64 = secs % 60;
    proof {
        vstd::arithmetic::div_mod::lemma_fundamental_div_mod(secs as int, 3600);
        vstd::arithmetic::div_mod::lemma_mod_pos_bound(secs as int, 3600);
        vstd::arithmetic::div_mod::lemma_fundamental_div_mod(secs as int % 3600, 60);
        vstd::arithmetic::div_mod::lemma_mod_pos_bound(secs as int % 3600, 60);
        vstd::arithmetic::div_mod::lemma_fundamental_div_mod(secs as int, 60);
        vstd::arithmetic::div_mod::lemma_mod_pos_bound(secs as int, 60);
        // seconds of day decompose as hours, minutes and seconds
        assert(secs % 60 == (secs % 3600) % 60) by (nonlinear_arith)
            requires
                0 <= secs < 86400,
        ;
        assert(hour * 3600 + minute * 60 + (secs % 3600) % 60 == secs)
            by (nonlinear_arith)
            requires
                hour == secs / 3600,
                minute == (secs % 3600) / 60,
                secs as int % 3600 == secs - 3600 * (secs as int / 3600),
                (secs as int % 3600) % 60 == secs % 3600 - 60 * ((secs as int % 3600)
                    / 60),
                0 <= secs < 86400,
        ;
    }
    Ok(
        ZonedValue {
            year: y,
            month: mo,
            day: d,
            hour: hour as i8,
            minute: minute as i8,
            second: second as i8,
            subsec_nanosecond: z.subsec_nanosecond,
            offset_seconds: 0,
            zone: ZoneId::Iana(String::from_str("UTC")),
        },
    )
}

} // verus!

verus! {

use crate::calendar::spec_weekday_sunday0;

/// Rendering of the year: four digits, sign-prefixed when negative.
pub open spec fn spec_year_str(y: int) -> Seq<char> {
    if y < 0 {
        seq!['-'] + spec_zero_pad(spec_dec_str(-y), 4)
    } else {
        spec_zero_pad(spec_dec_str(y), 4)
    }
}

/// Rendering of the civil date, `YYYY-MM-DD`.
pub open spec fn spec_date_str(y: int, m: int, d: int) -> Seq<char> {
    spec_year_str(y) + seq!['-'] + spec_zero_pad(spec_dec_str(m), 2) + seq!['-']
        + spec_zero_pad(spec_dec_str(d), 2)
}

/// Rendering of the civil time, `HH:MM:SS`.
pub open spec fn spec_time_str(h: int, mi: int, s: int) -> Seq<char> {
    spec_zero_pad(spec_dec_str(h), 2) + seq![':'] + spec_zero_pad(spec_dec_str(mi), 2)
        + seq![':'] + spec_zero_pad(spec_dec_str(s), 2)
}

/// Rendering of the sub-second part: a dot and the trimmed nine-digit
/// fraction, or nothing.
pub open spec fn spec_frac_str(ns: int) -> Seq<char> {
    if ns > 0 {
        seq!['.'] + spec_trim_zeros(spec_zero_pad(spec_dec_str(ns), 9))
    } else {
        Seq::empty()
    }
}

/// Rendering of a UTC offset, `±HH:MM` with a `:SS` tail only when the
/// offset has seconds.
pub open spec fn spec_offset_str(off: int) -> Seq<char> {
    let a = if off < 0 {
        -off
    } else {
        off
    };
    (if off < 0 {
        seq!['-']
    } else {
        seq!['+']
    }) + spec_zero_pad(spec_dec_str(a / 3600), 2) + seq![':'] + spec_zero_pad(
        spec_dec_str((a % 3600) / 60),
        2,
    ) + (if a % 60 > 0 {
        seq![':'] + spec_zero_pad(spec_dec_str(a % 60), 2)
    } else {
        Seq::empty()
    })
}

/// The bracket annotation of a zone: its IANA name, or its fixed offset.
pub open spec fn spec_zone_annotation(zone: ZoneId) -> Seq<char> {
    match zone {
        ZoneId::Iana(n) => n@,
        ZoneId::Fixed(o) => spec_offset_str(o as int),
    }
}

/// The canonical zone-qualified rendering:
/// `YYYY-MM-DDTHH:MM:SS[.frac]±HH:MM[zone]`.
pub open spec fn spec_canonical_str(z: ZonedValue) -> Seq<char> {
    spec_date_str(z.year as int, z.month as int, z.day as int) + seq!['T']
        + spec_time_str(z.hour as int, z.minute as int, z.second as int) + spec_frac_str(
        z.subsec_nanosecond as int,
    ) + spec_offset_str(z.offset_seconds as int) + seq!['['] + spec_zone_annotation(
        z.zone,
    ) + seq![']']
}

/// The strict ISO-8601 rendering, `YYYY-MM-DDTHH:MM:SS±HH:MM`.
pub open spec fn spec_iso8601_strict_str(z: ZonedValue) -> Seq<char> {
    spec_date_str(z.year as int, z.month as int, z.day as int) + seq!['T']
        + spec_time_str(z.hour as int, z.minute as int, z.second as int)
        + spec_offset_str(z.offset_seconds as int)
}

/// Render the year, sign-prefixed four digits.
fn render_year(y: i16) -> (r: String)
    ensures
        r@ == spec_year_str(y as int),
{
    if y < 0 {
        let mut out = String::new();
        proof {
            reveal_strlit("-");
        }
        out.append("-");
        out.append(dec_str_pad(-(y as i64), 4).as_str());
        proof {
            assert(out@ =~= spec_year_str(y as int));
        }
        out
    } else {
        dec_str_pad(y as i64, 4)
    }
}

/// Render the civil date of a value.
fn render_date(y: i16, m: i8, d: i8) -> (r: String)
    requires
        m >= 0,
        d >= 0,
    ensures
        r@ == spec_date_str(y as int, m as int, d as int),
{
    let mut out = render_year(y);
    proof {
        reveal_strlit("-");
    }
    out.append("-");
    out.append(dec_str_pad(m as i64, 2).as_str());
    out.append("-");
    out.append(dec_str_pad(d as i64, 2).as_str());
    proof {
        assert(out@ =~= spec_date_str(y as int, m as int, d as int));
    }
    out
}

/// Render the civil time of a value.
fn render_time(h: i8, mi: i8, s: i8) -> (r: String)
    requires
        h >= 0,
        mi >= 0,
        s >= 0,
    ensures
        r@ == spec_time_str(h as int, mi as int, s as int),
{
    let mut out = dec_str_pad(h as i64, 2);
    proof {
        reveal_strlit(":");
    }
    out.append(":");
    out.append(dec_str_pad(mi as i64, 2).as_str());
    out.append(":");
    out.append(dec_str_pad(s as i64, 2).as_str());
    proof {
        assert(out@ =~= spec_time_str(h as int, mi as int, s as int));
    }
    out
}

/// Render the sub-second fraction of a value.
fn render_frac(ns: i32) -> (r: String)
    requires
        0 <= ns <= 999999999,
    ensures
        r@ == spec_frac_str(ns as int),
{
    let mut out = String::new();
    if ns > 0 {
        proof {
            reveal_strlit(".");
        }
        out.append(".");
        out.append(
            crate::render::trim_trailing_zeros(
                &crate::render::dec_str_pad(ns as i64, 9),
            ).as_str(),
        );
        proof {
            assert(out@ =~= spec_frac_str(ns as int));
        }
        return out;
    }
    proof {
        assert(out@ =~= spec_frac_str(ns as int));
    }
    out
}

/// Render a UTC offset.
fn render_offset(off: i32) -> (r: String)
    requires
        -MAX_OFFSET_SECONDS <= off <= MAX_OFFSET_SECONDS,
    ensures
        r@ == spec_offset_str(off as int),
{
    let a: i64 = if off < 0 {
        -(off as i64)
    } else {
        off as i64
    };
    let mut out = String::new();
    proof {
        reveal_strlit("-");
        reveal_strlit("+");
        reveal_strlit(":");
    }
    if off < 0 {
        out.append("-");
    } else {
        out.append("+");
    }
    proof {
        vstd::arithmetic::div_mod::lemma_fundamental_div_mod(a as int, 3600);
        vstd::arithmetic::div_mod::lemma_mod_pos_bound(a as int, 3600);
        vstd::arithmetic::div_mod::lemma_fundamental_div_mod(a as int % 3600, 60);
        vstd::arithmetic::div_mod::lemma_mod_pos_bound(a as int % 3600, 60);
        vstd::arithmetic::div_mod::lemma_fundamental_div_mod(a as int, 60);
        vstd::arithmetic::div_mod::lemma_mod_pos_bound(a as int, 60);
    }
    out.append(dec_str_pad(a / 3600, 2).as_str());
    out.append(":");
    out.append(dec_str_pad((a % 3600) / 60, 2).as_str());
    if a % 60 > 0 {
        out.append(":");
        out.append(dec_str_pad(a % 60, 2).as_str());
    }
    proof {
        assert(out@ =~= spec_offset_str(off as int));
    }
    out
}

/// Render the canonical zone-qualified form of a zoned value.
pub fn render_canonical_string(z: &ZonedValue) -> (r: String)
    requires
        z.wf(),
    ensures
        r@ == spec_canonical_str(*z),
{
    let mut out = render_date(z.year, z.month, z.day);
    proof {
        reveal_strlit("T");
        reveal_strlit("[");
        reveal_strlit("]");
    }
    out.append("T");
    out.append(render_time(z.hour, z.minute, z.second).as_str());
    out.append(render_frac(z.subsec_nanosecond).as_str());
    out.append(render_offset(z.offset_seconds).as_str());
    out.append("[");
    match &z.zone {
        ZoneId::Iana(n) => {
            out.append(n.as_str());
        },
        ZoneId::Fixed(o) => {
            out.append(render_offset(*o).as_str());
        },
    }
    out.append("]");
    proof {
        assert(out@ =~= spec_canonical_str(*z));
    }
    out
}

/// Render the strict ISO-8601 form of a zoned value.
pub fn render_iso8601_strict_string(z: &ZonedValue) -> (r: String)
    requires
        z.wf(),
    ensures
        r@ == spec_iso8601_strict_str(*z),
{
    let mut out = render_date(z.year, z.month, z.day);
    proof {
        reveal_strlit("T");
    }
    out.append("T");
    out.append(render_time(z.hour, z.minute, z.second).as_str());
    out.append(render_offset(z.offset_seconds).as_str());
    proof {
        assert(out@ =~= spec_iso8601_strict_str(*z));
    }
    out
}

} // verus!

verus! {

/// The RFC 3339 instant rendering of a value already expressed in UTC:
/// `YYYY-MM-DDTHH:MM:SS[.frac]Z`.
pub open spec fn spec_rfc3339_utc_str(z: ZonedValue) -> Seq<char> {
    spec_date_str(z.year as int, z.month as int, z.day as int) + seq!['T']
        + spec_time_str(z.hour as int, z.minute as int, z.second as int) + spec_frac_str(
        z.subsec_nanosecond as int,
    ) + seq!['Z']
}

/// Render the RFC 3339 instant form of a value already in UTC.
pub fn render_rfc3339_utc_string(z: &ZonedValue) -> (r: String)
    requires
        z.wf(),
        z.offset_seconds == 0,
    ensures
        r@ == spec_rfc3339_utc_str(*z),
{
    let mut out = render_date(z.year, z.month, z.day);
    proof {
        reveal_strlit("T");
        reveal_strlit("Z");
    }
    out.append("T");
    out.append(render_time(z.hour, z.minute, z.second).as_str());
    out.append(render_frac(z.subsec_nanosecond).as_str());
    out.append("Z");
    proof {
        assert(out@ =~= spec_rfc3339_utc_str(*z));
    }
    out
}

/// Three-letter weekday name, Sunday = 0 convention.
pub open spec fn spec_weekday_abbrev(w: int) -> Seq<char> {
    if w == 0 {
        seq!['S', 'u', 'n']
    } else if w == 1 {
        seq!['M', 'o', 'n']
    } else if w == 2 {
        seq!['T', 'u', 'e']
    } else if w == 3 {
        seq!['W', 'e', 'd']
    } else if w == 4 {
        seq!['T', 'h', 'u']
    } else if w == 5 {
        seq!['F', 'r', 'i']
    } else {
        seq!['S', 'a', 't']
    }
}

/// Three-letter month name.
pub open spec fn spec_month_abbrev(m: int) -> Seq<char> {
    if m == 1 {
        seq!['J', 'a', 'n']
    } else if m == 2 {
        seq!['F', 'e', 'b']
    } else if m == 3 {
        seq!['M', 'a', 'r']
    } else if m == 4 {
        seq!['A', 'p', 'r']
    } else if m == 5 {
        seq!['M', 'a', 'y']
    } else if m == 6 {
        seq!['J', 'u', 'n']
    } else if m == 7 {
        seq!['J', 'u', 'l']
    } else if m == 8 {
        seq!['A', 'u', 'g']
    } else if m == 9 {
        seq!['S', 'e', 'p']
    } else if m == 10 {
        seq!['O', 'c', 't']
    } else if m == 11 {
        seq!['N', 'o', 'v']
    } else {
        seq!['D', 'e', 'c']
    }
}

/// The RFC 2822 rendering:
/// `Wkd, D Mon YYYY HH:MM:SS ±HHMM`, defined for non-negative years.
pub open spec fn spec_rfc2822_str(z: ZonedValue) -> Seq<char> {
    let a = if z.offset_seconds < 0 {
        -z.offset_seconds as int
    } else {
        z.offset_seconds as int
    };
    spec_weekday_abbrev(
        spec_weekday_sunday0(
            spec_epoch_days(z.year as int, z.month as int, z.day as int),
        ),
    ) + seq![',', ' '] + spec_dec_str(z.day as int) + seq![' '] + spec_month_abbrev(
        z.month as int,
    ) + seq![' '] + spec_zero_pad(spec_dec_str(z.year as int), 4) + seq![' ']
        + spec_time_str(z.hour as int, z.minute as int, z.second as int) + seq![' '] + (
    if z.offset_seconds < 0 {
        seq!['-']
    } else {
        seq!['+']
    }) + spec_zero_pad(spec_dec_str(a / 3600), 2) + spec_zero_pad(
        spec_dec_str((a % 3600) / 60),
        2,
    )
}

/// Three-letter weekday name.
fn weekday_abbrev(w: i8) -> (r: &'static str)
    requires
        0 <= w <= 6,
    ensures
        r@ == spec_weekday_abbrev(w as int),
{
    let r: &'static str = if w == 0 {
        "Sun"
    } else if w == 1 {
        "Mon"
    } else if w == 2 {
        "Tue"
    } else if w == 3 {
        "Wed"
    } else if w == 4 {
        "Thu"
    } else if w == 5 {
        "Fri"
    } else {
        "Sat"
    };
    proof {
        reveal_strlit("Sun");
        reveal_strlit("Mon");
        reveal_strlit("Tue");
        reveal_strlit("Wed");
        reveal_strlit("Thu");
        reveal_strlit("Fri");
        reveal_strlit("Sat");
        assert(r@ =~= spec_weekday_abbrev(w as int));
    }
    r
}

/// Three-letter month name.
fn month_abbrev(m: i8) -> (r: &'static str)
    requires
        1 <= m <= 12,
    ensures
        r@ == spec_month_abbrev(m as int),
{
    let r: &'static str = if m == 1 {
        "Jan"
    } else if m == 2 {
        "Feb"
    } else if m == 3 {
        "Mar"
    } else if m == 4 {
        "Apr"
    } else if m == 5 {
        "May"
    } else if m == 6 {
        "Jun"
    } else if m == 7 {
        "Jul"
    } else if m == 8 {
        "Aug"
    } else if m == 9 {
        "Sep"
    } else if m == 10 {
        "Oct"
    } else {
        if m == 11 {
            "Nov"
        } else {
            "Dec"
        }
    };
    proof {
        reveal_strlit("Jan");
        reveal_strlit("Feb");
        reveal_strlit("Mar");
        reveal_strlit("Apr");
        reveal_strlit("May");
        reveal_strlit("Jun");
        reveal_strlit("Jul");
        reveal_strlit("Aug");
        reveal_strlit("Sep");
        reveal_strlit("Oct");
        reveal_strlit("Nov");
        reveal_strlit("Dec");
        assert(r@ =~= spec_month_abbrev(m as int));
    }
    r
}

/// Render the RFC 2822 form of a zoned value; years before 0 have no
/// RFC 2822 representation and are reported as out of range.
#[verifier::rlimit(60)]
pub fn render_rfc2822_string(z: &ZonedValue) -> (r: Result<String, DtError>)
    requires
        z.wf(),
    ensures
        match r {
            Ok(t) => z.year >= 0 && t@ == spec_rfc2822_str(*z),
            Err(e) => z.year < 0 && e is DateOverflow,
        },
{
    if z.year < 0 {
        return Err(
            DtError::DateOverflow(String::from_str("rfc2822 rendering of a negative year")),
        );
    }
    let days = civil_to_days(z.year, z.month, z.day);
    let wd = crate::calendar::weekday_sunday0(days);
    let mut out = weekday_abbrev(wd).to_owned();
    proof {
        reveal_strlit(", ");
        reveal_strlit(" ");
        reveal_strlit("-");
        reveal_strlit("+");
    }
    out.append(", ");
    out.append(dec_str(z.day as i64).as_str());
    out.append(" ");
    out.append(month_abbrev(z.month));
    out.append(" ");
    out.append(dec_str_pad(z.year as i64, 4).as_str());
    out.append(" ");
    out.append(render_time(z.hour, z.minute, z.second).as_str());
    out.append(" ");
    let a: i64 = if z.offset_seconds < 0 {
        -(z.offset_seconds as i64)
    } else {
        z.offset_seconds as i64
    };
    if z.offset_seconds < 0 {
        out.append("-");
    } else {
        out.append("+");
    }
    proof {
        vstd::arithmetic::div_mod::lemma_fundamental_div_mod(a as int, 3600);
        vstd::arithmetic::div_mod::lemma_mod_pos_bound(a as int, 3600);
        vstd::arithmetic::div_mod::lemma_fundamental_div_mod(a as int % 3600, 60);
        vstd::arithmetic::div_mod::lemma_mod_pos_bound(a as int % 3600, 60);
    }
    out.append(dec_str_pad(a / 3600, 2).as_str());
    out.append(dec_str_pad((a % 3600) / 60, 2).as_str());
    proof {
        assert(out@ =~= spec_rfc2822_str(*z));
    }
    Ok(out)
}

/// The `YYYY-MM-DD HH:MM:SS` rendering of a Unix second count read as
/// a UTC civil datetime.
pub open spec fn spec_unix_seconds_str(y: int, m: int, d: int, h: int, mi: int, s: int)
    -> Seq<char> {
    spec_date_str(y, m, d) + seq![' '] + spec_time_str(h, mi, s)
}

/// Format a Unix timestamp in seconds as a plain `YYYY-MM-DD HH:MM:SS`
/// datetime; the instant is read in UTC.  Timestamps outside the
/// supported year range are reported as overflow.
pub fn unix_timestamp_in_seconds_to_local_zoned(unix_timestamp: i64) -> (r: Result<
    String,
    DtError,
>)
    ensures
        match r {
            Ok(t) => {
                &&& MIN_EPOCH_DAY * 86400 <= unix_timestamp < (MAX_EPOCH_DAY + 1) * 86400
                &&& exists|y: int, m: int, d: int, h: int, mi: int, s: int|
                    {
                        &&& #[trigger] spec_unix_seconds_str(y, m, d, h, mi, s) == t@
                        &&& spec_valid_date(y, m, d)
                        &&& spec_epoch_days(y, m, d) * 86400 + h * 3600 + mi * 60 + s
                            == unix_timestamp
                        &&& 0 <= h <= 23
                        &&& 0 <= mi <= 59
                        &&& 0 <= s <= 59
                    }
            },
            Err(e) => {
                &&& (unix_timestamp < MIN_EPOCH_DAY * 86400 || unix_timestamp >= (
                MAX_EPOCH_DAY + 1) * 86400)
                &&& e is DateOverflow
            },
        },
{
    if unix_timestamp < MIN_EPOCH_DAY * 86400 || unix_timestamp >= (MAX_EPOCH_DAY + 1)
        * 86400 {
        return Err(DtError::DateOverflow(String::from_str("unix timestamp out of range")));
    }
    let (days, secs) = split_epoch(unix_timestamp);
    let (y, mo, d) = civil_from_days(days);
    let hour: i64 = secs / 3600;
    let minute: i64 = (secs % 3600) / 60;
    let second: i64 = secs % 60;
    proof {
        vstd::arithmetic::div_mod::lemma_fundamental_div_mod(secs as int, 3600);
        vstd::arithmetic::div_mod::lemma_mod_pos_bound(secs as int, 3600);
        vstd::arithmetic::div_mod::lemma_fundamental_div_mod(secs as int % 3600, 60);
        vstd::arithmetic::div_mod::lemma_mod_pos_bound(secs as int % 3600, 60);
        vstd::arithmetic::div_mod::lemma_fundamental_div_mod(secs as int, 60);
        vstd::arithmetic::div_mod::lemma_mod_pos_bound(secs as int, 60);
        assert(secs % 60 == (secs % 3600) % 60) by (nonlinear_arith)
            requires
                0 <= secs < 86400,
        ;
        assert(hour * 3600 + minute * 60 + (secs % 3600) % 60 == secs)
            by (nonlinear_arith)
            requires
                hour == secs / 3600,
                minute == (secs % 3600) / 60,
                secs as int % 3600 == secs - 3600 * (secs as int / 3600),
                (secs as int % 3600) % 60 == secs % 3600 - 60 * ((secs as int % 3600)
                    / 60),
                0 <= secs < 86400,
        ;
    }
    let mut out = render_date(y, mo, d);
    proof {
        reveal_strlit(" ");
    }
    out.append(" ");
    out.append(render_time(hour as i8, minute as i8, second as i8).as_str());
    proof {
        assert(out@ =~= spec_unix_seconds_str(
            y as int,
            mo as int,
            d as int,
            hour as int,
            minute as int,
            second as int,
        ));
    }
    Ok(out)
}

} // verus!
