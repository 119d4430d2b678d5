//! The unit abbreviation registry: canonical calendar units, their textual
//! aliases, lookup from alias to unit, and the listing used for discovery
//! output.

use vstd::prelude::*;

verus! {

use crate::errors::DtError;
use crate::strutil::{spec_is_digit, is_digit, digit_val, str_eq};
use vstd::string::{StrSliceExecFns, StringExecFns};

/// A canonical calendar unit, ordered from coarsest to finest.
#[derive(Clone, Copy, Debug, PartialEq, Eq, Structural)]
pub enum CalendarUnit {
    Year,
    Month,
    Week,
    Day,
    Hour,
    Minute,
    Second,
    Millisecond,
    Microsecond,
    Nanosecond,
}

/// The aliases the registry accepts for each canonical unit.
pub open spec fn spec_unit_aliases(u: CalendarUnit) -> Seq<Seq<char>> {
    match u {
        CalendarUnit::Year => seq!["year"@, "years"@, "yyyy"@, "yy"@, "yr"@, "yrs"@],
        CalendarUnit::Month => seq!["month"@, "months"@, "mth"@, "mths"@, "mm"@, "m"@, "mon"@],
        CalendarUnit::Week => seq![
            "week"@,
            "weeks"@,
            "ww"@,
            "wk"@,
            "wks"@,
            "iso_week"@,
            "isowk"@,
            "isoww"@,
        ],
        CalendarUnit::Day => seq!["day"@, "days"@, "dd"@, "d"@],
        CalendarUnit::Hour => seq!["hour"@, "hours"@, "hh"@, "hr"@, "hrs"@],
        CalendarUnit::Minute => seq!["minute"@, "minutes"@, "mi"@, "n"@, "min"@, "mins"@],
        CalendarUnit::Second => seq!["second"@, "seconds"@, "ss"@, "s"@, "sec"@, "secs"@],
        CalendarUnit::Millisecond => seq!["millisecond"@, "ms"@, "millis"@],
        CalendarUnit::Microsecond => seq!["microsecond"@, "mcs"@, "us"@, "micros"@],
        CalendarUnit::Nanosecond => seq!["nanosecond"@, "ns"@, "nano"@, "nanos"@],
    }
}

/// The unit an alias resolves to, or `None` for an unknown alias.  The
/// chain follows the registry's fixed lookup order.
pub open spec fn spec_unit_from_alias(s: Seq<char>) -> Option<CalendarUnit> {
    if s == "year"@ || s == "years"@ || s == "yyyy"@ || s == "yy"@ || s == "yr"@ || s
        == "yrs"@ {
        Some(CalendarUnit::Year)
    } else if s == "month"@ || s == "months"@ || s == "mth"@ || s == "mths"@ || s == "mm"@
        || s == "m"@ || s == "mon"@ {
        Some(CalendarUnit::Month)
    } else if s == "day"@ || s == "days"@ || s == "dd"@ || s == "d"@ {
        Some(CalendarUnit::Day)
    } else if s == "week"@ || s == "weeks"@ || s == "ww"@ || s == "wk"@ || s == "wks"@ || s
        == "iso_week"@ || s == "isowk"@ || s == "isoww"@ {
        Some(CalendarUnit::Week)
    } else if s == "hour"@ || s == "hours"@ || s == "hh"@ || s == "hr"@ || s == "hrs"@ {
        Some(CalendarUnit::Hour)
    } else if s == "minute"@ || s == "minutes"@ || s == "mi"@ || s == "n"@ || s == "min"@
        || s == "mins"@ {
        Some(CalendarUnit::Minute)
    } else if s == "second"@ || s == "seconds"@ || s == "ss"@ || s == "s"@ || s == "sec"@
        || s == "secs"@ {
        Some(CalendarUnit::Second)
    } else if s == "millisecond"@ || s == "ms"@ || s == "millis"@ {
        Some(CalendarUnit::Millisecond)
    } else if s == "microsecond"@ || s == "mcs"@ || s == "us"@ || s == "micros"@ {
        Some(CalendarUnit::Microsecond)
    } else if s == "nanosecond"@ || s == "ns"@ || s == "nano"@ || s == "nanos"@ {
        Some(CalendarUnit::Nanosecond)
    } else {
        None
    }
}

/// Resolve a unit alias to its canonical unit, or report the unknown
/// input.
pub fn get_unit_from_unit_string(unit_name: String) -> (r: Result<CalendarUnit, DtError>)
    ensures
        match r {
            Ok(u) => spec_unit_from_alias(unit_name@) == Some(u),
            Err(e) => spec_unit_from_alias(unit_name@) is None && (e matches
            DtError::UnknownUnit(s) && s@ == unit_name@),
        },
{
    let n = unit_name.as_str();
    if str_eq(n, "year") || str_eq(n, "years") || str_eq(n, "yyyy") || str_eq(n, "yy")
        || str_eq(n, "yr") || str_eq(n, "yrs") {
        Ok(CalendarUnit::Year)
    } else if str_eq(n, "month") || str_eq(n, "months") || str_eq(n, "mth") || str_eq(
        n,
        "mths",
    ) || str_eq(n, "mm") || str_eq(n, "m") || str_eq(n, "mon") {
        Ok(CalendarUnit::Month)
    } else if str_eq(n, "day") || str_eq(n, "days") || str_eq(n, "dd") || str_eq(n, "d") {
        Ok(CalendarUnit::Day)
    } else if str_eq(n, "week") || str_eq(n, "weeks") || str_eq(n, "ww") || str_eq(
        n,
        "wk",
    ) || str_eq(n, "wks") || str_eq(n, "iso_week") || str_eq(n, "isowk") || str_eq(
        n,
        "isoww",
    ) {
        Ok(CalendarUnit::Week)
    } else if str_eq(n, "hour") || str_eq(n, "hours") || str_eq(n, "hh") || str_eq(
        n,
        "hr",
    ) || str_eq(n, "hrs") {
        Ok(CalendarUnit::Hour)
    } else if str_eq(n, "minute") || str_eq(n, "minutes") || str_eq(n, "mi") || str_eq(
        n,
        "n",
    ) || str_eq(n, "min") || str_eq(n, "mins") {
        Ok(CalendarUnit::Minute)
    } else if str_eq(n, "second") || str_eq(n, "seconds") || str_eq(n, "ss") || str_eq(
        n,
        "s",
    ) || str_eq(n, "sec") || str_eq(n, "secs") {
        Ok(CalendarUnit::Second)
    } else if str_eq(n, "millisecond") || str_eq(n, "ms") || str_eq(n, "millis") {
        Ok(CalendarUnit::Millisecond)
    } else if str_eq(n, "microsecond") || str_eq(n, "mcs") || str_eq(n, "us") || str_eq(
        n,
        "micros",
    ) {
        Ok(CalendarUnit::Microsecond)
    } else if str_eq(n, "nanosecond") || str_eq(n, "ns") || str_eq(n, "nano") || str_eq(
        n,
        "nanos",
    ) {
        Ok(CalendarUnit::Nanosecond)
    } else {
        Err(DtError::UnknownUnit(unit_name))
    }
}

/// Every alias the registry lists for a canonical unit resolves back to
/// that same unit.
pub proof fn lemma_unit_alias_closure(u: CalendarUnit, i: int)
    requires
        0 <= i < spec_unit_aliases(u).len(),
    ensures
        spec_unit_from_alias(spec_unit_aliases(u)[i]) == Some(u),
{
    reveal_strlit("year");
    reveal_strlit("years");
    reveal_strlit("yyyy");
    reveal_strlit("yy");
    reveal_strlit("yr");
    reveal_strlit("yrs");
    reveal_strlit("month");
    reveal_strlit("months");
    reveal_strlit("mth");
    reveal_strlit("mths");
    reveal_strlit("mm");
    reveal_strlit("m");
    reveal_strlit("mon");
    reveal_strlit("week");
    reveal_strlit("weeks");
    reveal_strlit("ww");
    reveal_strlit("wk");
    reveal_strlit("wks");
    reveal_strlit("iso_week");
    reveal_strlit("isowk");
    reveal_strlit("isoww");
    reveal_strlit("day");
    reveal_strlit("days");
    reveal_strlit("dd");
    reveal_strlit("d");
    reveal_strlit("hour");
    reveal_strlit("hours");
    reveal_strlit("hh");
    reveal_strlit("hr");
    reveal_strlit("hrs");
    reveal_strlit("minute");
    reveal_strlit("minutes");
    reveal_strlit("mi");
    reveal_strlit("n");
    reveal_strlit("min");
    reveal_strlit("mins");
    reveal_strlit("second");
    reveal_strlit("seconds");
    reveal_strlit("ss");
    reveal_strlit("s");
    reveal_strlit("sec");
    reveal_strlit("secs");
    reveal_strlit("millisecond");
    reveal_strlit("ms");
    reveal_strlit("millis");
    reveal_strlit("microsecond");
    reveal_strlit("mcs");
    reveal_strlit("us");
    reveal_strlit("micros");
    reveal_strlit("nanosecond");
    reveal_strlit("ns");
    reveal_strlit("nano");
    reveal_strlit("nanos");
    assert("year"@.len() == 4);
    assert("year"@[0] == 'y');
    assert("year"@[1] == 'e');
    assert("year"@[2] == 'a');
    assert("years"@.len() == 5);
    assert("years"@[0] == 'y');
    assert("years"@[1] == 'e');
    assert("years"@[2] == 'a');
    assert("yyyy"@.len() == 4);
    assert("yyyy"@[0] == 'y');
    assert("yyyy"@[1] == 'y');
    assert("yyyy"@[2] == 'y');
    assert("yy"@.len() == 2);
    assert("yy"@[0] == 'y');
    assert("yy"@[1] == 'y');
    assert("yr"@.len() == 2);
    assert("yr"@[0] == 'y');
    assert("yr"@[1] == 'r');
    assert("yrs"@.len() == 3);
    assert("yrs"@[0] == 'y');
    assert("yrs"@[1] == 'r');
    assert("yrs"@[2] == 's');
    assert("month"@.len() == 5);
    assert("month"@[0] == 'm');
    assert("month"@[1] == 'o');
    assert("month"@[2] == 'n');
    assert("months"@.len() == 6);
    assert("months"@[0] == 'm');
    assert("months"@[1] == 'o');
    assert("months"@[2] == 'n');
    assert("mth"@.len() == 3);
    assert("mth"@[0] == 'm');
    assert("mth"@[1] == 't');
    assert("mth"@[2] == 'h');
    assert("mths"@.len() == 4);
    assert("mths"@[0] == 'm');
    assert("mths"@[1] == 't');
    assert("mths"@[2] == 'h');
    assert("mm"@.len() == 2);
    assert("mm"@[0] == 'm');
    assert("mm"@[1] == 'm');
    assert("m"@.len() == 1);
    assert("m"@[0] == 'm');
    assert("mon"@.len() == 3);
    assert("mon"@[0] == 'm');
    assert("mon"@[1] == 'o');
    assert("mon"@[2] == 'n');
    assert("week"@.len() == 4);
    assert("week"@[0] == 'w');
    assert("week"@[1] == 'e');
    assert("week"@[2] == 'e');
    assert("weeks"@.len() == 5);
    assert("weeks"@[0] == 'w');
    assert("weeks"@[1] == 'e');
    assert("weeks"@[2] == 'e');
    assert("ww"@.len() == 2);
    assert("ww"@[0] == 'w');
    assert("ww"@[1] == 'w');
    assert("wk"@.len() == 2);
    assert("wk"@[0] == 'w');
    assert("wk"@[1] == 'k');
    assert("wks"@.len() == 3);
    assert("wks"@[0] == 'w');
    assert("wks"@[1] == 'k');
    assert("wks"@[2] == 's');
    assert("iso_week"@.len() == 8);
    assert("iso_week"@[0] == 'i');
    assert("iso_week"@[1] == 's');
    assert("iso_week"@[2] == 'o');
    assert("isowk"@.len() == 5);
    assert("isowk"@[0] == 'i');
    assert("isowk"@[1] == 's');
    assert("isowk"@[2] == 'o');
    assert("isoww"@.len() == 5);
    assert("isoww"@[0] == 'i');
    assert("isoww"@[1] == 's');
    assert("isoww"@[2] == 'o');
    assert("day"@.len() == 3);
    assert("day"@[0] == 'd');
    assert("day"@[1] == 'a');
    assert("day"@[2] == 'y');
    assert("days"@.len() == 4);
    assert("days"@[0] == 'd');
    assert("days"@[1] == 'a');
    assert("days"@[2] == 'y');
    assert("dd"@.len() == 2);
    assert("dd"@[0] == 'd');
    assert("dd"@[1] == 'd');
    assert("d"@.len() == 1);
    assert("d"@[0] == 'd');
    assert("hour"@.len() == 4);
    assert("hour"@[0] == 'h');
    assert("hour"@[1] == 'o');
    assert("hour"@[2] == 'u');
    assert("hours"@.len() == 5);
    assert("hours"@[0] == 'h');
    assert("hours"@[1] == 'o');
    assert("hours"@[2] == 'u');
    assert("hh"@.len() == 2);
    assert("hh"@[0] == 'h');
    assert("hh"@[1] == 'h');
    assert("hr"@.len() == 2);
    assert("hr"@[0] == 'h');
    assert("hr"@[1] == 'r');
    assert("hrs"@.len() == 3);
    assert("hrs"@[0] == 'h');
    assert("hrs"@[1] == 'r');
    assert("hrs"@[2] == 's');
    assert("minute"@.len() == 6);
    assert("minute"@[0] == 'm');
    assert("minute"@[1] == 'i');
    assert("minute"@[2] == 'n');
    assert("minutes"@.len() == 7);
    assert("minutes"@[0] == 'm');
    assert("minutes"@[1] == 'i');
    assert("minutes"@[2] == 'n');
    assert("mi"@.len() == 2);
    assert("mi"@[0] == 'm');
    assert("mi"@[1] == 'i');
    assert("n"@.len() == 1);
    assert("n"@[0] == 'n');
    assert("min"@.len() == 3);
    assert("min"@[0] == 'm');
    assert("min"@[1] == 'i');
    assert("min"@[2] == 'n');
    assert("mins"@.len() == 4);
    assert("mins"@[0] == 'm');
    assert("mins"@[1] == 'i');
    assert("mins"@[2] == 'n');
    assert("second"@.len() == 6);
    assert("second"@[0] == 's');
    assert("second"@[1] == 'e');
    assert("second"@[2] == 'c');
    assert("seconds"@.len() == 7);
    assert("seconds"@[0] == 's');
    assert("seconds"@[1] == 'e');
    assert("seconds"@[2] == 'c');
    assert("ss"@.len() == 2);
    assert("ss"@[0] == 's');
    assert("ss"@[1] == 's');
    assert("s"@.len() == 1);
    assert("s"@[0] == 's');
    assert("sec"@.len() == 3);
    assert("sec"@[0] == 's');
    assert("sec"@[1] == 'e');
    assert("sec"@[2] == 'c');
    assert("secs"@.len() == 4);
    assert("secs"@[0] == 's');
    assert("secs"@[1] == 'e');
    assert("secs"@[2] == 'c');
    assert("millisecond"@.len() == 11);
    assert("millisecond"@[0] == 'm');
    assert("millisecond"@[1] == 'i');
    assert("millisecond"@[2] == 'l');
    assert("ms"@.len() == 2);
    assert("ms"@[0] == 'm');
    assert("ms"@[1] == 's');
    assert("millis"@.len() == 6);
    assert("millis"@[0] == 'm');
    assert("millis"@[1] == 'i');
    assert("millis"@[2] == 'l');
    assert("microsecond"@.len() == 11);
    assert("microsecond"@[0] == 'm');
    assert("microsecond"@[1] == 'i');
    assert("microsecond"@[2] == 'c');
    assert("mcs"@.len() == 3);
    assert("mcs"@[0] == 'm');
    assert("mcs"@[1] == 'c');
    assert("mcs"@[2] == 's');
    assert("us"@.len() == 2);
    assert("us"@[0] == 'u');
    assert("us"@[1] == 's');
    assert("micros"@.len() == 6);
    assert("micros"@[0] == 'm');
    assert("micros"@[1] == 'i');
    assert("micros"@[2] == 'c');
    assert("nanosecond"@.len() == 10);
    assert("nanosecond"@[0] == 'n');
    assert("nanosecond"@[1] == 'a');
    assert("nanosecond"@[2] == 'n');
    assert("ns"@.len() == 2);
    assert("ns"@[0] == 'n');
    assert("ns"@[1] == 's');
    assert("nano"@.len() == 4);
    assert("nano"@[0] == 'n');
    assert("nano"@[1] == 'a');
    assert("nano"@[2] == 'n');
    assert("nanos"@.len() == 5);
    assert("nanos"@[0] == 'n');
    assert("nanos"@[1] == 'a');
    assert("nanos"@[2] == 'n');
    match u {
        CalendarUnit::Year => {
            if i == 0 {
                assert(spec_unit_aliases(u)[0] == "year"@);
            } else if i == 1 {
                assert(spec_unit_aliases(u)[1] == "years"@);
            } else if i == 2 {
                assert(spec_unit_aliases(u)[2] == "yyyy"@);
            } else if i == 3 {
                assert(spec_unit_aliases(u)[3] == "yy"@);
            } else if i == 4 {
                assert(spec_unit_aliases(u)[4] == "yr"@);
            } else if i == 5 {
                assert(spec_unit_aliases(u)[5] == "yrs"@);
            } else {
                assert(false);
            }
        },
        CalendarUnit::Month => {
            if i == 0 {
                assert(spec_unit_aliases(u)[0] == "month"@);
            } else if i == 1 {
                assert(spec_unit_aliases(u)[1] == "months"@);
            } else if i == 2 {
                assert(spec_unit_aliases(u)[2] == "mth"@);
            } else if i == 3 {
                assert(spec_unit_aliases(u)[3] == "mths"@);
            } else if i == 4 {
                assert(spec_unit_aliases(u)[4] == "mm"@);
            } else if i == 5 {
                assert(spec_unit_aliases(u)[5] == "m"@);
            } else if i == 6 {
                assert(spec_unit_aliases(u)[6] == "mon"@);
            } else {
                assert(false);
            }
        },
        CalendarUnit::Week => {
            if i == 0 {
                assert(spec_unit_aliases(u)[0] == "week"@);
            } else if i == 1 {
                assert(spec_unit_aliases(u)[1] == "weeks"@);
            } else if i == 2 {
                assert(spec_unit_aliases(u)[2] == "ww"@);
            } else if i == 3 {
                assert(spec_unit_aliases(u)[3] == "wk"@);
            } else if i == 4 {
                assert(spec_unit_aliases(u)[4] == "wks"@);
            } else if i == 5 {
                assert(spec_unit_aliases(u)[5] == "iso_week"@);
            } else if i == 6 {
                assert(spec_unit_aliases(u)[6] == "isowk"@);
            } else if i == 7 {
                assert(spec_unit_aliases(u)[7] == "isoww"@);
            } else {
                assert(false);
            }
        },
        CalendarUnit::Day => {
            if i == 0 {
                assert(spec_unit_aliases(u)[0] == "day"@);
            } else if i == 1 {
                assert(spec_unit_aliases(u)[1] == "days"@);
            } else if i == 2 {
                assert(spec_unit_aliases(u)[2] == "dd"@);
            } else if i == 3 {
                assert(spec_unit_aliases(u)[3] == "d"@);
            } else {
                assert(false);
            }
        },
        CalendarUnit::Hour => {
            if i == 0 {
                assert(spec_unit_aliases(u)[0] == "hour"@);
            } else if i == 1 {
                assert(spec_unit_aliases(u)[1] == "hours"@);
            } else if i == 2 {
                assert(spec_unit_aliases(u)[2] == "hh"@);
            } else if i == 3 {
                assert(spec_unit_aliases(u)[3] == "hr"@);
            } else if i == 4 {
                assert(spec_unit_aliases(u)[4] == "hrs"@);
            } else {
                assert(false);
            }
        },
        CalendarUnit::Minute => {
            if i == 0 {
                assert(spec_unit_aliases(u)[0] == "minute"@);
            } else if i == 1 {
                assert(spec_unit_aliases(u)[1] == "minutes"@);
            } else if i == 2 {
                assert(spec_unit_aliases(u)[2] == "mi"@);
            } else if i == 3 {
                assert(spec_unit_aliases(u)[3] == "n"@);
            } else if i == 4 {
                assert(spec_unit_aliases(u)[4] == "min"@);
            } else if i == 5 {
                assert(spec_unit_aliases(u)[5] == "mins"@);
            } else {
                assert(false);
            }
        },
        CalendarUnit::Second => {
            if i == 0 {
                assert(spec_unit_aliases(u)[0] == "second"@);
            } else if i == 1 {
                assert(spec_unit_aliases(u)[1] == "seconds"@);
            } else if i == 2 {
                assert(spec_unit_aliases(u)[2] == "ss"@);
            } else if i == 3 {
                assert(spec_unit_aliases(u)[3] == "s"@);
            } else if i == 4 {
                assert(spec_unit_aliases(u)[4] == "sec"@);
            } else if i == 5 {
                assert(spec_unit_aliases(u)[5] == "secs"@);
            } else {
                assert(false);
            }
        },
        CalendarUnit::Millisecond => {
            if i == 0 {
                assert(spec_unit_aliases(u)[0] == "millisecond"@);
            } else if i == 1 {
                assert(spec_unit_aliases(u)[1] == "ms"@);
            } else if i == 2 {
                assert(spec_unit_aliases(u)[2] == "millis"@);
            } else {
                assert(false);
            }
        },
        CalendarUnit::Microsecond => {
            if i == 0 {
                assert(spec_unit_aliases(u)[0] == "microsecond"@);
            } else if i == 1 {
                assert(spec_unit_aliases(u)[1] == "mcs"@);
            } else if i == 2 {
                assert(spec_unit_aliases(u)[2] == "us"@);
            } else if i == 3 {
                assert(spec_unit_aliases(u)[3] == "micros"@);
            } else {
                assert(false);
            }
        },
        CalendarUnit::Nanosecond => {
            if i == 0 {
                assert(spec_unit_aliases(u)[0] == "nanosecond"@);
            } else if i == 1 {
                assert(spec_unit_aliases(u)[1] == "ns"@);
            } else if i == 2 {
                assert(spec_unit_aliases(u)[2] == "nano"@);
            } else if i == 3 {
                assert(spec_unit_aliases(u)[3] == "nanos"@);
            } else {
                assert(false);
            }
        },
    }
}

} // verus!

verus! {

/// One row of the registry listing: a canonical name and its accepted
/// abbreviations, comma-joined.
pub struct UnitAbbreviation {
    /// Canonical field name.
    pub name: String,
    /// The accepted aliases, comma-joined, in registry order.
    pub abbreviations: String,
}

/// The registry listing used for discovery output: every extractable
/// field with its abbreviations, in the registry's fixed order.
pub fn get_unit_abbreviations() -> (r: Vec<UnitAbbreviation>)
    ensures
        r@.len() == 13,
        r@[0].name@ == "year"@,
        r@[0].abbreviations@ == "year, years, yyyy, yy, yr, yrs"@,
        r@[1].name@ == "quarter"@,
        r@[1].abbreviations@ == "quarter, qq, q, qs, qtr"@,
        r@[2].name@ == "month"@,
        r@[2].abbreviations@ == "month, months, mth, mths, mm, m, mon"@,
        r@[3].name@ == "dayofyear"@,
        r@[3].abbreviations@ == "dayofyear, dy, doy"@,
        r@[4].name@ == "day"@,
        r@[4].abbreviations@ == "day, days, dd, d"@,
        r@[5].name@ == "week"@,
        r@[5].abbreviations@ == "week, weeks, ww, wk, wks, iso_week, isowk, isoww"@,
        r@[6].name@ == "weekday"@,
        r@[6].abbreviations@ == "weekday, wd, wds, w"@,
        r@[7].name@ == "hour"@,
        r@[7].abbreviations@ == "hour, hours, hh, hr, hrs"@,
        r@[8].name@ == "minute"@,
        r@[8].abbreviations@ == "minute, minutes, mi, n, min, mins"@,
        r@[9].name@ == "second"@,
        r@[9].abbreviations@ == "second, seconds, ss, s, sec, secs"@,
        r@[10].name@ == "millisecond"@,
        r@[10].abbreviations@ == "millisecond, ms, millis"@,
        r@[11].name@ == "microsecond"@,
        r@[11].abbreviations@ == "microsecond, mcs, us, micros"@,
        r@[12].name@ == "nanosecond"@,
        r@[12].abbreviations@ == "nanosecond, ns, nano, nanos"@,
{
    let mut records: Vec<UnitAbbreviation> = Vec::new();
    records.push(
        UnitAbbreviation {
            name: String::from_str("year"),
            abbreviations: String::from_str("year, years, yyyy, yy, yr, yrs"),
        },
    );
    records.push(
        UnitAbbreviation {
            name: String::from_str("quarter"),
            abbreviations: String::from_str("quarter, qq, q, qs, qtr"),
        },
    );
    records.push(
        UnitAbbreviation {
            name: String::from_str("month"),
            abbreviations: String::from_str("month, months, mth, mths, mm, m, mon"),
        },
    );
    records.push(
        UnitAbbreviation {
            name: String::from_str("dayofyear"),
            abbreviations: String::from_str("dayofyear, dy, doy"),
        },
    );
    records.push(
        UnitAbbreviation {
            name: String::from_str("day"),
            abbreviations: String::from_str("day, days, dd, d"),
        },
    );
    records.push(
        UnitAbbreviation {
            name: String::from_str("week"),
            abbreviations: String::from_str(
                "week, weeks, ww, wk, wks, iso_week, isowk, isoww",
            ),
        },
    );
    records.push(
        UnitAbbreviation {
            name: String::from_str("weekday"),
            abbreviations: String::from_str("weekday, wd, wds, w"),
        },
    );
    records.push(
        UnitAbbreviation {
            name: String::from_str("hour"),
            abbreviations: String::from_str("hour, hours, hh, hr, hrs"),
        },
    );
    records.push(
        UnitAbbreviation {
            name: String::from_str("minute"),
            abbreviations: String::from_str("minute, minutes, mi, n, min, mins"),
        },
    );
    records.push(
        UnitAbbreviation {
            name: String::from_str("second"),
            abbreviations: String::from_str("second, seconds, ss, s, sec, secs"),
        },
    );
    records.push(
        UnitAbbreviation {
            name: String::from_str("millisecond"),
            abbreviations: String::from_str("millisecond, ms, millis"),
        },
    );
    records.push(
        UnitAbbreviation {
            name: String::from_str("microsecond"),
            abbreviations: String::from_str("microsecond, mcs, us, micros"),
        },
    );
    records.push(
        UnitAbbreviation {
            name: String::from_str("nanosecond"),
            abbreviations: String::from_str("nanosecond, ns, nano, nanos"),
        },
    );
    records
}

} // verus!

verus! {

use crate::strutil::{
    spec_dec_val,
    spec_num_end,
    lemma_num_end_props,
    lemma_dec_val_prefix_le,
    lemma_dec_val_nonneg,
};

/// Split a token such as `10days` into its leading number and trailing
/// unit text.  Fails when no digits lead the token or the number does
/// not fit an `i64`.
pub fn parse_number_and_unit_string(input_value: String) -> (r: Result<
    (i64, String),
    DtError,
>)
    ensures
        match r {
            Ok(p) => ({
                let k = spec_num_end(input_value@, 0);
                &&& k > 0
                &&& p.0 == spec_dec_val(input_value@.subrange(0, k))
                &&& p.1@ == input_value@.subrange(k, input_value@.len() as int)
            }),
            Err(e) => ({
                let k = spec_num_end(input_value@, 0);
                &&& (k == 0 || spec_dec_val(input_value@.subrange(0, k)) > i64::MAX)
                &&& (e matches DtError::InvalidSpan(s, _) && s@ == input_value@)
            }),
        },
{
    let s = input_value.as_str();
    let len = s.unicode_len();
    let ghost k = spec_num_end(input_value@, 0);
    proof {
        lemma_num_end_props(input_value@, 0);
    }
    let mut i: usize = 0;
    let mut acc: i64 = 0;
    while i < len && is_digit(s.get_char(i))
        invariant
            0 <= i <= len,
            len == input_value@.len(),
            s@ == input_value@,
            forall|j: int| 0 <= j < i ==> crate::strutil::spec_is_digit(input_value@[j]),
            0 <= acc,
            acc == spec_dec_val(input_value@.subrange(0, i as int)),
            k == spec_num_end(input_value@, 0),
        decreases len - i,
    {
        let d = digit_val(s.get_char(i));
        proof {
            lemma_num_end_props(input_value@, 0);
            assert(input_value@.subrange(0, i + 1).drop_last() =~= input_value@.subrange(
                0,
                i as int,
            ));
        }
        if acc > 922_337_203_685_477_580 || (acc == 922_337_203_685_477_580 && d > 7) {
            proof {
                assert(spec_dec_val(input_value@.subrange(0, i + 1)) > i64::MAX);
                assert(i + 1 <= k);
                assert(forall|j: int|
                    0 <= j < k ==> crate::strutil::spec_is_digit(input_value@[j]));
                assert(crate::strutil::spec_all_digits(input_value@.subrange(0, k)));
                lemma_dec_val_prefix_le(input_value@, i + 1, k);
            }
            return Err(
                DtError::InvalidSpan(
                    input_value,
                    String::from_str("the leading number does not fit a 64-bit integer"),
                ),
            );
        }
        acc = acc * 10 + (d as i64);
        i = i + 1;
    }
    proof {
        // The loop left `i` exactly at the first non-digit position.
        assert(i as int == k);
    }
    if i == 0 {
        return Err(
            DtError::InvalidSpan(
                input_value,
                String::from_str("expected a number before the unit name"),
            ),
        );
    }
    let rest = s.substring_char(i, len).to_owned();
    Ok((acc, rest))
}

} // verus!
