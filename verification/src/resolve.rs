//! The datetime resolver: an ordered cascade of parse strategies, tried
//! until the first success.  The three strict short-date grammars are
//! parsed by verified code; the zone-qualified, catalog and bare
//! strategies delegate to `jiff` behind the trusted wrappers, since only
//! the zone database can attach and disambiguate a zone.

use vstd::prelude::*;

verus! {

use crate::calendar::spec_valid_date;
use crate::errors::DtError;
use crate::jiffext;
use crate::span::CalendarSpan;
use crate::strutil::{spec_dec_val, spec_num_end, lemma_num_end_props};
use crate::zoned::ZonedValue;
use vstd::string::{StrSliceExecFns, StringExecFns};

/// Strict ISO order short date, `YYYY-MM-DD` (digits may be unpadded).
pub const SHORT_DATE: &'static str = "%Y-%m-%d";

/// Short date in US order with a two-digit year, `MM/DD/YY`.
pub const SHORT_DATE_USA_2YEAR: &'static str = "%m/%d/%y";

/// Short date in US order with a full year, `MM/DD/YYYY`.
pub const SHORT_DATE_USA_4YEAR: &'static str = "%m/%d/%Y";

/// Strict ISO 8601 with numeric offset.
pub const ISO8601_STRICT: &'static str = "%Y-%m-%dT%H:%M:%S%:z";

/// Strict ISO 8601 with fractional seconds and numeric offset.
pub const ISO8601_STRICT_WITH_FRACTIONAL: &'static str = "%Y-%m-%dT%H:%M:%S%.f%:z";

/// RFC 2822, as in mail headers.
pub const RFC2822: &'static str = "%a, %d %b %Y %H:%M:%S %z";

/// RFC 2822 with an unpadded day, as version-control logs emit it.
pub const GIT_RFC2822: &'static str = "%a, %-d %b %Y %H:%M:%S %z";

/// Weekday-first format with the year before the time.
pub const GITOXIDE: &'static str = "%a %b %d %Y %H:%M:%S %z";

/// Weekday-first format with the year after the time.
pub const GITLOG_DEFAULT: &'static str = "%a %b %-d %H:%M:%S %Y %z";

/// A run of one to `max` digits from `i` to `j`, followed by the
/// separator or the end.
pub open spec fn spec_digit_run(s: Seq<char>, i: int, j: int, max: int) -> bool {
    &&& j == spec_num_end(s, i)
    &&& 1 <= j - i <= max
}

/// What the strict `YYYY-MM-DD` grammar denotes: one to four year
/// digits, one or two month and day digits, dashes between, nothing
/// after, and the fields a valid civil date.
pub open spec fn spec_parse_short_iso(s: Seq<char>) -> Option<(int, int, int)> {
    let j1 = spec_num_end(s, 0);
    let j2 = spec_num_end(s, j1 + 1);
    let j3 = spec_num_end(s, j2 + 1);
    if spec_digit_run(s, 0, j1, 4) && j1 < s.len() && s[j1] == '-' && spec_digit_run(
        s,
        j1 + 1,
        j2,
        2,
    ) && j2 < s.len() && s[j2] == '-' && spec_digit_run(s, j2 + 1, j3, 2) && j3
        == s.len() {
        let y = spec_dec_val(s.subrange(0, j1));
        let m = spec_dec_val(s.subrange(j1 + 1, j2));
        let d = spec_dec_val(s.subrange(j2 + 1, j3));
        if spec_valid_date(y, m, d) {
            Some((y, m, d))
        } else {
            None
        }
    } else {
        None
    }
}

/// The year a two-digit year denotes: 69 to 99 are the twentieth
/// century, 0 to 68 the twenty-first.
pub open spec fn spec_two_digit_year(y2: int) -> int {
    if y2 >= 69 {
        1900 + y2
    } else {
        2000 + y2
    }
}

/// What the `MM/DD/YY` or `MM/DD/YYYY` grammar denotes; `two_digit`
/// selects the two-digit-year form (exactly two digits) against the
/// full form (one to four digits).
pub open spec fn spec_parse_short_usa(s: Seq<char>, two_digit: bool) -> Option<
    (int, int, int),
> {
    let j1 = spec_num_end(s, 0);
    let j2 = spec_num_end(s, j1 + 1);
    let j3 = spec_num_end(s, j2 + 1);
    let ylen_ok = if two_digit {
        j3 - (j2 + 1) == 2
    } else {
        1 <= j3 - (j2 + 1) <= 4
    };
    if spec_digit_run(s, 0, j1, 2) && j1 < s.len() && s[j1] == '/' && spec_digit_run(
        s,
        j1 + 1,
        j2,
        2,
    ) && j2 < s.len() && s[j2] == '/' && j3 == spec_num_end(s, j2 + 1) && ylen_ok && j3
        == s.len() {
        let m = spec_dec_val(s.subrange(0, j1));
        let d = spec_dec_val(s.subrange(j1 + 1, j2));
        let yraw = spec_dec_val(s.subrange(j2 + 1, j3));
        let y = if two_digit {
            spec_two_digit_year(yraw)
        } else {
            yraw
        };
        if spec_valid_date(y, m, d) {
            Some((y, m, d))
        } else {
            None
        }
    } else {
        None
    }
}

/// Scan the digit run starting at `i`.
fn scan_num(s: &str, i: usize) -> (j: usize)
    requires
        i <= s@.len(),
    ensures
        j == spec_num_end(s@, i as int),
        i <= j <= s@.len(),
{
    let len = s.unicode_len();
    let mut j: usize = i;
    proof {
        lemma_num_end_props(s@, i as int);
    }
    while j < len && crate::strutil::is_digit(s.get_char(j))
        invariant
            i <= j <= len,
            len == s@.len(),
            spec_num_end(s@, i as int) == spec_num_end(s@, j as int),
        decreases len - j,
    {
        j = j + 1;
    }
    proof {
        lemma_num_end_props(s@, j as int);
    }
    j
}

/// Value of the digits `s[i..j)`; the caller keeps `j - i` at most
/// four, so the value needs no overflow care.
fn num_val(s: &str, i: usize, j: usize) -> (r: i64)
    requires
        i <= j <= s@.len(),
        j - i <= 4,
        forall|k: int| i <= k < j ==> crate::strutil::spec_is_digit(s@[k]),
    ensures
        r == spec_dec_val(s@.subrange(i as int, j as int)),
        0 <= r <= 9999,
{
    let mut k: usize = i;
    let mut acc: i64 = 0;
    while k < j
        invariant
            i <= k <= j <= s@.len(),
            j - i <= 4,
            forall|t: int| i <= t < j ==> crate::strutil::spec_is_digit(s@[t]),
            0 <= acc,
            acc == spec_dec_val(s@.subrange(i as int, k as int)),
            acc <= 9999,
        decreases j - k,
    {
        let d = crate::strutil::digit_val(s.get_char(k));
        proof {
            assert(s@.subrange(i as int, k + 1).drop_last() =~= s@.subrange(
                i as int,
                k as int,
            ));
            crate::strutil::lemma_dec_val_nonneg(s@.subrange(i as int, k as int));
            assert(crate::strutil::spec_all_digits(s@.subrange(i as int, k + 1)));
            crate::span::lemma_dec_val_digits_bound(s@.subrange(i as int, k + 1));
        }
        acc = acc * 10 + (d as i64);
        k = k + 1;
    }
    proof {
        lemma_val_small(s@, i as int, j as int);
    }
    acc
}

/// A run of at most four digits stays below ten thousand.
proof fn lemma_val_small(s: Seq<char>, i: int, k: int)
    requires
        0 <= i <= k <= s.len(),
        k - i <= 4,
        forall|t: int| i <= t < k ==> crate::strutil::spec_is_digit(s[t]),
    ensures
        0 <= spec_dec_val(s.subrange(i, k)) <= 9999,
{
    assert(crate::strutil::spec_all_digits(s.subrange(i, k)));
    crate::span::lemma_dec_val_digits_bound(s.subrange(i, k));
}

/// Parse the strict `YYYY-MM-DD` short date.
pub fn parse_short_iso(s: &str) -> (r: Option<(i16, i8, i8)>)
    ensures
        match r {
            Some(t) => spec_parse_short_iso(s@) == Some(
                (t.0 as int, t.1 as int, t.2 as int),
            ) && spec_valid_date(t.0 as int, t.1 as int, t.2 as int),
            None => spec_parse_short_iso(s@) is None,
        },
{
    let len = s.unicode_len();
    let j1 = scan_num(s, 0);
    proof {
        lemma_num_end_props(s@, 0);
    }
    if !(1 <= j1 && j1 <= 4 && j1 < len && s.get_char(j1) == '-') {
        return None;
    }
    let j2 = scan_num(s, j1 + 1);
    proof {
        lemma_num_end_props(s@, j1 + 1);
    }
    if !(1 <= j2 - (j1 + 1) && j2 - (j1 + 1) <= 2 && j2 < len && s.get_char(j2) == '-') {
        return None;
    }
    let j3 = scan_num(s, j2 + 1);
    proof {
        lemma_num_end_props(s@, j2 + 1);
    }
    if !(1 <= j3 - (j2 + 1) && j3 - (j2 + 1) <= 2 && j3 == len) {
        return None;
    }
    let y = num_val(s, 0, j1);
    let m = num_val(s, j1 + 1, j2);
    let d = num_val(s, j2 + 1, j3);
    if 1 <= m && m <= 12 && 1 <= d && d <= (crate::calendar::days_in_month(
        y as i16,
        m as i8,
    ) as i64) {
        Some((y as i16, m as i8, d as i8))
    } else {
        None
    }
}

/// Parse the `MM/DD/YY` or `MM/DD/YYYY` short date.
pub fn parse_short_usa(s: &str, two_digit: bool) -> (r: Option<(i16, i8, i8)>)
    ensures
        match r {
            Some(t) => spec_parse_short_usa(s@, two_digit) == Some(
                (t.0 as int, t.1 as int, t.2 as int),
            ) && spec_valid_date(t.0 as int, t.1 as int, t.2 as int),
            None => spec_parse_short_usa(s@, two_digit) is None,
        },
{
    let len = s.unicode_len();
    let j1 = scan_num(s, 0);
    proof {
        lemma_num_end_props(s@, 0);
    }
    if !(1 <= j1 && j1 <= 2 && j1 < len && s.get_char(j1) == '/') {
        return None;
    }
    let j2 = scan_num(s, j1 + 1);
    proof {
        lemma_num_end_props(s@, j1 + 1);
    }
    if !(1 <= j2 - (j1 + 1) && j2 - (j1 + 1) <= 2 && j2 < len && s.get_char(j2) == '/') {
        return None;
    }
    let j3 = scan_num(s, j2 + 1);
    proof {
        lemma_num_end_props(s@, j2 + 1);
    }
    let ylen_ok = if two_digit {
        j3 - (j2 + 1) == 2
    } else {
        1 <= j3 - (j2 + 1) && j3 - (j2 + 1) <= 4
    };
    if !(ylen_ok && j3 == len) {
        return None;
    }
    let m = num_val(s, 0, j1);
    let d = num_val(s, j1 + 1, j2);
    let yraw = num_val(s, j2 + 1, j3);
    let y: i64 = if two_digit {
        proof {
            assert(crate::strutil::spec_all_digits(s@.subrange(j2 + 1, j3 as int)));
            crate::span::lemma_dec_val_digits_bound(s@.subrange(j2 + 1, j3 as int));
        }
        if yraw >= 69 {
            1900 + yraw
        } else {
            2000 + yraw
        }
    } else {
        yraw
    };
    if 1 <= m && m <= 12 && 1 <= d && d <= (crate::calendar::days_in_month(
        y as i16,
        m as i8,
    ) as i64) {
        Some((y as i16, m as i8, d as i8))
    } else {
        None
    }
}

} // verus!

verus! {

/// Resolve a date/time string through the ordered strategy cascade:
/// the three strict short dates (midnight, system zone), the fully
/// zone-qualified grammar, the catalog templates, and finally the bare
/// timestamp, datetime, date and time-of-day forms.  The first success
/// wins; when every strategy fails the input is unparseable.
pub fn resolve_datetime_string(s: &str) -> (r: Result<ZonedValue, DtError>)
    ensures
        match r {
            Ok(z) => z.wf(),
            Err(e) => e matches DtError::UnparseableDatetime(t) && t@ == s@,
        },
{
    if let Some((y, m, d)) = parse_short_iso(s) {
        if let Ok(jz) = jiffext::civil_to_system_zoned(y, m, d, 0, 0, 0, 0) {
            return Ok(jiffext::zoned_fields(&jz));
        }
        return Err(DtError::UnparseableDatetime(s.to_owned()));
    }
    if let Some((y, m, d)) = parse_short_usa(s, true) {
        if let Ok(jz) = jiffext::civil_to_system_zoned(y, m, d, 0, 0, 0, 0) {
            return Ok(jiffext::zoned_fields(&jz));
        }
        return Err(DtError::UnparseableDatetime(s.to_owned()));
    }
    if let Some((y, m, d)) = parse_short_usa(s, false) {
        if let Ok(jz) = jiffext::civil_to_system_zoned(y, m, d, 0, 0, 0, 0) {
            return Ok(jiffext::zoned_fields(&jz));
        }
        return Err(DtError::UnparseableDatetime(s.to_owned()));
    }
    if let Ok(jz) = jiffext::parse_zoned_str(s) {
        return Ok(jiffext::zoned_fields(&jz));
    }
    if let Ok(jz) = jiffext::strptime_relaxed(ISO8601_STRICT, s) {
        return Ok(jiffext::zoned_fields(&jz));
    }
    if let Ok(jz) = jiffext::strptime_relaxed(ISO8601_STRICT_WITH_FRACTIONAL, s) {
        return Ok(jiffext::zoned_fields(&jz));
    }
    if let Ok(jz) = jiffext::strptime_relaxed(RFC2822, s) {
        return Ok(jiffext::zoned_fields(&jz));
    }
    if let Ok(jz) = jiffext::strptime_relaxed(GIT_RFC2822, s) {
        return Ok(jiffext::zoned_fields(&jz));
    }
    if let Ok(jz) = jiffext::strptime_relaxed(GITOXIDE, s) {
        return Ok(jiffext::zoned_fields(&jz));
    }
    if let Ok(jz) = jiffext::strptime_relaxed(GITLOG_DEFAULT, s) {
        return Ok(jiffext::zoned_fields(&jz));
    }
    if let Ok(jz) = jiffext::parse_timestamp_str(s) {
        return Ok(jiffext::zoned_fields(&jz));
    }
    if let Ok(jz) = jiffext::parse_datetime_str(s) {
        return Ok(jiffext::zoned_fields(&jz));
    }
    if let Ok(jz) = jiffext::parse_date_str(s) {
        return Ok(jiffext::zoned_fields(&jz));
    }
    if let Ok(jz) = jiffext::parse_time_str(s) {
        return Ok(jiffext::zoned_fields(&jz));
    }
    Err(DtError::UnparseableDatetime(s.to_owned()))
}

/// Apply a calendar span to a zoned value with calendar rules: the
/// instant is rebuilt in its zone and the span added by the arithmetic
/// engine; leaving the supported range is an overflow.
pub fn add_span_to_zoned(z: &ZonedValue, sp: &CalendarSpan) -> (r: Result<
    ZonedValue,
    DtError,
>)
    requires
        z.wf(),
        sp.wf(),
    ensures
        match r {
            Ok(v) => v.wf(),
            Err(e) => e is DateOverflow,
        },
{
    let jz = match jiffext::instant_in_zone(
        z.epoch_second(),
        z.subsec_nanosecond,
        &z.zone,
    ) {
        Ok(jz) => jz,
        Err(_) => {
            return Err(DtError::DateOverflow(String::from_str("span addition")));
        },
    };
    let jsp = match jiffext::to_jiff_span(sp) {
        Ok(jsp) => jsp,
        Err(_) => {
            return Err(DtError::DateOverflow(String::from_str("span conversion")));
        },
    };
    match jiffext::zoned_add_span_raw(&jz, &jsp) {
        Ok(v) => Ok(jiffext::zoned_fields(&v)),
        Err(_) => Err(DtError::DateOverflow(String::from_str("span addition"))),
    }
}

/// Add a flat nanosecond count to a zoned value.
pub fn add_nanos_to_zoned(z: &ZonedValue, nanos: i64) -> (r: Result<ZonedValue, DtError>)
    requires
        z.wf(),
    ensures
        match r {
            Ok(v) => v.wf(),
            Err(e) => e is DateOverflow,
        },
{
    if nanos == i64::MIN {
        return Err(DtError::DateOverflow(String::from_str("nanosecond count")));
    }
    let mut sp = CalendarSpan::zero();
    sp.nanoseconds = nanos;
    add_span_to_zoned(z, &sp)
}

/// Resolve a date/time string and optionally add a flat nanosecond
/// count or a calendar span to the result.  A parse failure surfaces
/// the original input; overflow can only come from the optional
/// arithmetic.
pub fn parse_datetime_string_add_nanos_optionally(
    s: &str,
    duration_nanos: Option<i64>,
    jiff_span: Option<&CalendarSpan>,
) -> (r: Result<ZonedValue, DtError>)
    requires
        match jiff_span {
            Some(sp) => sp.wf(),
            None => true,
        },
    ensures
        match r {
            Ok(z) => z.wf(),
            Err(e) => match e {
                DtError::UnparseableDatetime(t) => t@ == s@,
                DtError::DateOverflow(_) => duration_nanos is Some || jiff_span
                    is Some,
                _ => false,
            },
        },
{
    let base = resolve_datetime_string(s)?;
    match duration_nanos {
        Some(nanos) => add_nanos_to_zoned(&base, nanos),
        None => match jiff_span {
            Some(sp) => add_span_to_zoned(&base, sp),
            None => Ok(base),
        },
    }
}

/// Resolve a timestamp string through its civil pieces: the embedded
/// civil reading keeps its numeric offset against the system zone's
/// rules (the embedded offset always wins), a missing time means
/// midnight, and any residual ambiguity is resolved compatibly.
/// Optionally add a flat nanosecond count or a calendar span.  A parse
/// failure surfaces the original input; overflow can only come from the
/// optional arithmetic.
pub fn parse_datetime_string_into_pieces(
    s: &str,
    duration_nanos: Option<i64>,
    jiff_span: Option<&CalendarSpan>,
) -> (r: Result<ZonedValue, DtError>)
    requires
        match jiff_span {
            Some(sp) => sp.wf(),
            None => true,
        },
    ensures
        match r {
            Ok(z) => z.wf(),
            Err(e) => match e {
                DtError::UnparseableDatetime(t) => t@ == s@,
                DtError::DateOverflow(_) => duration_nanos is Some || jiff_span
                    is Some,
                _ => false,
            },
        },
{
    let p = match jiffext::pieces_parse(s) {
        Ok(p) => p,
        Err(_) => {
            // Not a zone-ambiguous timestamp: hand the input to the full
            // strategy cascade instead.
            let base = resolve_datetime_string(s)?;
            return match duration_nanos {
                Some(nanos) => add_nanos_to_zoned(&base, nanos),
                None => match jiff_span {
                    Some(sp) => add_span_to_zoned(&base, sp),
                    None => Ok(base),
                },
            };
        },
    };
    let base = if p.has_offset {
        match jiffext::resolve_always_offset(
            p.year,
            p.month,
            p.day,
            p.hour,
            p.minute,
            p.second,
            p.subsec_nanosecond,
            p.offset_seconds,
        ) {
            Ok(jz) => jiffext::zoned_fields(&jz),
            Err(_) => {
                return Err(DtError::UnparseableDatetime(s.to_owned()));
            },
        }
    } else {
        match jiffext::civil_to_system_zoned(
            p.year,
            p.month,
            p.day,
            p.hour,
            p.minute,
            p.second,
            p.subsec_nanosecond,
        ) {
            Ok(jz) => jiffext::zoned_fields(&jz),
            Err(_) => {
                return Err(DtError::UnparseableDatetime(s.to_owned()));
            },
        }
    };
    match duration_nanos {
        Some(nanos) => add_nanos_to_zoned(&base, nanos),
        None => match jiff_span {
            Some(sp) => add_span_to_zoned(&base, sp),
            None => Ok(base),
        },
    }
}

} // verus!
