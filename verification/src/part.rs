//! The part extractor: one calendar field of a zoned value as an
//! integer, selected by a registry alias.  Quarters use fixed tercile
//! bucketing; ISO weeks belong to the year containing their Thursday;
//! weekdays use the fixed Sunday = 0 convention (distinct, by design,
//! from the ISO Monday = 1 convention used inside week numbering).

use vstd::prelude::*;

verus! {

use crate::calendar::{
    spec_days_before_month,
    spec_epoch_days,
    spec_iso_week,
    spec_weekday_sunday0,
    civil_to_days,
    day_of_year,
    iso_week,
    weekday_sunday0,
};
use crate::errors::DtError;
use crate::strutil::str_eq;
use crate::zoned::ZonedValue;

/// The quarter a month belongs to: fixed tercile bucketing.
pub open spec fn spec_quarter_of_month(m: int) -> int {
    if m <= 3 {
        1
    } else if m <= 6 {
        2
    } else if m <= 9 {
        3
    } else {
        4
    }
}

/// The quarter of a month.
pub fn quarter_of_month(m: i8) -> (r: i8)
    requires
        1 <= m <= 12,
    ensures
        r == spec_quarter_of_month(m as int),
        1 <= r <= 4,
{
    if m <= 3 {
        1
    } else if m <= 6 {
        2
    } else if m <= 9 {
        3
    } else {
        4
    }
}

/// Months bucket into quarters as fixed terciles: months one to three
/// are the first quarter, four to six the second, seven to nine the
/// third, and ten to twelve the fourth.
pub proof fn lemma_quarter_bucketing()
    ensures
        spec_quarter_of_month(1) == 1,
        spec_quarter_of_month(3) == 1,
        spec_quarter_of_month(4) == 2,
        spec_quarter_of_month(6) == 2,
        spec_quarter_of_month(7) == 3,
        spec_quarter_of_month(9) == 3,
        spec_quarter_of_month(10) == 4,
        spec_quarter_of_month(12) == 4,
        forall|m: int| 1 <= m <= 12 ==> spec_quarter_of_month(m) == (m + 2) / 3,
{
}

/// The extractable fields, one per registry category.
pub enum PartField {
    /// Calendar year.
    Year,
    /// Quarter, 1 to 4.
    Quarter,
    /// Calendar month.
    Month,
    /// Day of the year, 1 to 366.
    DayOfYear,
    /// Day of the month.
    Day,
    /// ISO week number.
    Week,
    /// Weekday, Sunday = 0.
    Weekday,
    /// Hour of the day.
    Hour,
    /// Minute.
    Minute,
    /// Second.
    Second,
    /// Millisecond part of the sub-second field.
    Millisecond,
    /// Microsecond part of the sub-second field.
    Microsecond,
    /// Nanosecond part of the sub-second field.
    Nanosecond,
}

/// The field an extraction alias selects, or `None` for an unknown
/// alias.
pub open spec fn spec_part_field(s: Seq<char>) -> Option<PartField> {
    if s == "year"@ || s == "years"@ || s == "yyyy"@ || s == "yy"@ || s == "yr"@ || s
        == "yrs"@ {
        Some(PartField::Year)
    } else if s == "quarter"@ || s == "qq"@ || s == "q"@ || s == "qs"@ || s == "qtr"@ {
        Some(PartField::Quarter)
    } else if s == "month"@ || s == "months"@ || s == "mth"@ || s == "mths"@ || s == "mm"@
        || s == "m"@ || s == "mon"@ {
        Some(PartField::Month)
    } else if s == "dayofyear"@ || s == "dy"@ || s == "doy"@ {
        Some(PartField::DayOfYear)
    } else if s == "day"@ || s == "days"@ || s == "dd"@ || s == "d"@ {
        Some(PartField::Day)
    } else if s == "week"@ || s == "weeks"@ || s == "ww"@ || s == "wk"@ || s == "wks"@ || s
        == "iso_week"@ || s == "isowk"@ || s == "isoww"@ {
        Some(PartField::Week)
    } else if s == "weekday"@ || s == "wd"@ || s == "wds"@ || s == "w"@ {
        Some(PartField::Weekday)
    } else if s == "hour"@ || s == "hours"@ || s == "hh"@ || s == "hr"@ || s == "hrs"@ {
        Some(PartField::Hour)
    } else if s == "minute"@ || s == "minutes"@ || s == "mi"@ || s == "n"@ || s == "min"@
        || s == "mins"@ {
        Some(PartField::Minute)
    } else if s == "second"@ || s == "seconds"@ || s == "ss"@ || s == "s"@ || s == "sec"@
        || s == "secs"@ {
        Some(PartField::Second)
    } else if s == "millisecond"@ || s == "ms"@ || s == "millis"@ {
        Some(PartField::Millisecond)
    } else if s == "microsecond"@ || s == "mcs"@ || s == "us"@ || s == "micros"@ {
        Some(PartField::Microsecond)
    } else if s == "nanosecond"@ || s == "ns"@ || s == "nano"@ || s == "nanos"@ {
        Some(PartField::Nanosecond)
    } else {
        None
    }
}

/// The integer value of a field of a zoned value.
pub open spec fn spec_part_value(f: PartField, z: ZonedValue) -> int {
    match f {
        PartField::Year => z.year as int,
        PartField::Quarter => spec_quarter_of_month(z.month as int),
        PartField::Month => z.month as int,
        PartField::DayOfYear => spec_days_before_month(z.year as int, z.month as int)
            + z.day as int,
        PartField::Day => z.day as int,
        PartField::Week => spec_iso_week(z.year as int, z.month as int, z.day as int),
        PartField::Weekday => spec_weekday_sunday0(
            spec_epoch_days(z.year as int, z.month as int, z.day as int),
        ),
        PartField::Hour => z.hour as int,
        PartField::Minute => z.minute as int,
        PartField::Second => z.second as int,
        PartField::Millisecond => z.subsec_nanosecond as int / 1000000,
        PartField::Microsecond => (z.subsec_nanosecond as int / 1000) % 1000,
        PartField::Nanosecond => z.subsec_nanosecond as int % 1000,
    }
}

/// Look up the extraction field for an alias.
fn part_field_from_string(part_string: &str) -> (r: Option<PartField>)
    ensures
        r == spec_part_field(part_string@),
{
    let n = part_string;
    if str_eq(n, "year") || str_eq(n, "years") || str_eq(n, "yyyy") || str_eq(n, "yy")
        || str_eq(n, "yr") || str_eq(n, "yrs") {
        Some(PartField::Year)
    } else if str_eq(n, "quarter") || str_eq(n, "qq") || str_eq(n, "q") || str_eq(
        n,
        "qs",
    ) || str_eq(n, "qtr") {
        Some(PartField::Quarter)
    } else if str_eq(n, "month") || str_eq(n, "months") || str_eq(n, "mth") || str_eq(
        n,
        "mths",
    ) || str_eq(n, "mm") || str_eq(n, "m") || str_eq(n, "mon") {
        Some(PartField::Month)
    } else if str_eq(n, "dayofyear") || str_eq(n, "dy") || str_eq(n, "doy") {
        Some(PartField::DayOfYear)
    } else if str_eq(n, "day") || str_eq(n, "days") || str_eq(n, "dd") || str_eq(n, "d") {
        Some(PartField::Day)
    } else if str_eq(n, "week") || str_eq(n, "weeks") || str_eq(n, "ww") || str_eq(
        n,
        "wk",
    ) || str_eq(n, "wks") || str_eq(n, "iso_week") || str_eq(n, "isowk") || str_eq(
        n,
        "isoww",
    ) {
        Some(PartField::Week)
    } else if str_eq(n, "weekday") || str_eq(n, "wd") || str_eq(n, "wds") || str_eq(
        n,
        "w",
    ) {
        Some(PartField::Weekday)
    } else if str_eq(n, "hour") || str_eq(n, "hours") || str_eq(n, "hh") || str_eq(
        n,
        "hr",
    ) || str_eq(n, "hrs") {
        Some(PartField::Hour)
    } else if str_eq(n, "minute") || str_eq(n, "minutes") || str_eq(n, "mi") || str_eq(
        n,
        "n",
    ) || str_eq(n, "min") || str_eq(n, "mins") {
        Some(PartField::Minute)
    } else if str_eq(n, "second") || str_eq(n, "seconds") || str_eq(n, "ss") || str_eq(
        n,
        "s",
    ) || str_eq(n, "sec") || str_eq(n, "secs") {
        Some(PartField::Second)
    } else if str_eq(n, "millisecond") || str_eq(n, "ms") || str_eq(n, "millis") {
        Some(PartField::Millisecond)
    } else if str_eq(n, "microsecond") || str_eq(n, "mcs") || str_eq(n, "us") || str_eq(
        n,
        "micros",
    ) {
        Some(PartField::Microsecond)
    } else if str_eq(n, "nanosecond") || str_eq(n, "ns") || str_eq(n, "nano") || str_eq(
        n,
        "nanos",
    ) {
        Some(PartField::Nanosecond)
    } else {
        None
    }
}

/// Extract one calendar field of a zoned value as a 16-bit integer,
/// selected by a registry alias: a known alias always succeeds with
/// exactly the field's value, an unknown alias names the input.
pub fn get_part_from_zoned_as_i16(part_string: String, datetime: ZonedValue) -> (r:
    Result<i16, DtError>)
    requires
        datetime.wf(),
    ensures
        match r {
            Ok(v) => ({
                &&& spec_part_field(part_string@) matches Some(f) && v
                    == spec_part_value(f, datetime)
            }),
            Err(e) => (e matches DtError::UnknownUnit(u) && spec_part_field(
                part_string@,
            ) is None && u@ == part_string@),
        },
{
    let f = match part_field_from_string(part_string.as_str()) {
        Some(f) => f,
        None => {
            return Err(DtError::UnknownUnit(part_string));
        },
    };
    match f {
        PartField::Year => Ok(datetime.year),
        PartField::Quarter => Ok(quarter_of_month(datetime.month) as i16),
        PartField::Month => Ok(datetime.month as i16),
        PartField::DayOfYear => Ok(day_of_year(datetime.year, datetime.month, datetime.day)),
        PartField::Day => Ok(datetime.day as i16),
        PartField::Week => Ok(iso_week(datetime.year, datetime.month, datetime.day) as i16),
        PartField::Weekday => {
            let days = civil_to_days(datetime.year, datetime.month, datetime.day);
            Ok(weekday_sunday0(days) as i16)
        },
        PartField::Hour => Ok(datetime.hour as i16),
        PartField::Minute => Ok(datetime.minute as i16),
        PartField::Second => Ok(datetime.second as i16),
        PartField::Millisecond => {
            let v = datetime.subsec_nanosecond / 1000000;
            Ok(v as i16)
        },
        PartField::Microsecond => {
            let v = (datetime.subsec_nanosecond / 1000) % 1000;
            Ok(v as i16)
        },
        PartField::Nanosecond => {
            let v = datetime.subsec_nanosecond % 1000;
            Ok(v as i16)
        },
    }
}

} // verus!
