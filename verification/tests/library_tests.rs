use dt::calendar::{civil_from_days, civil_to_days, day_of_year, is_leap_year, iso_week, weekday_sunday0};
use dt::commands::{DtAdd, DtDiff, DtFormat, DtPart, DtTo, Now, UtcNow};
use dt::diff::difference_span;
use dt::errors::DtError;
use dt::commands::current_zoned;
use dt::render::render_iso_span_string;
use dt::resolve::{parse_short_iso, parse_short_usa, resolve_datetime_string};
use dt::span::{normalize_span_text, parse_duration_span, CalendarSpan};
use dt::units::{get_unit_abbreviations, get_unit_from_unit_string, CalendarUnit};
use dt::zoned::{render_canonical_string, to_utc};

// -- calendar ---------------------------------------------------------------

#[test]
fn test_epoch_day_of_unix_epoch() {
    assert_eq!(civil_to_days(1970, 1, 1), 0);
    assert_eq!(civil_to_days(1970, 1, 2), 1);
    assert_eq!(civil_to_days(1969, 12, 31), -1);
    assert_eq!(civil_to_days(2000, 3, 1), 11017);
}

#[test]
fn test_civil_from_days_round_trip() {
    for days in [-719162_i64, -1, 0, 1, 59, 60, 365, 730, 11016, 11017, 2932896] {
        let (y, m, d) = civil_from_days(days);
        assert_eq!(civil_to_days(y, m, d), days);
    }
}

#[test]
fn test_leap_years() {
    assert!(is_leap_year(2000));
    assert!(is_leap_year(2024));
    assert!(!is_leap_year(1900));
    assert!(!is_leap_year(2023));
}

#[test]
fn test_weekday_convention_sunday_zero() {
    // 1970-01-01 was a Thursday.
    assert_eq!(weekday_sunday0(civil_to_days(1970, 1, 1)), 4);
    // 2024-07-09 was a Tuesday.
    assert_eq!(weekday_sunday0(civil_to_days(2024, 7, 9)), 2);
    // 2024-07-07 was a Sunday.
    assert_eq!(weekday_sunday0(civil_to_days(2024, 7, 7)), 0);
}

#[test]
fn test_iso_week_edges() {
    // 2021-01-01 falls in week 53 of the ISO year 2020.
    assert_eq!(iso_week(2021, 1, 1), 53);
    // 2019-12-30 falls in week 1 of the ISO year 2020.
    assert_eq!(iso_week(2019, 12, 30), 1);
    // An ordinary mid-year date.
    assert_eq!(iso_week(2024, 7, 9), 28);
}

#[test]
fn test_day_of_year() {
    assert_eq!(day_of_year(2024, 1, 1), 1);
    assert_eq!(day_of_year(2024, 3, 1), 61);
    assert_eq!(day_of_year(2023, 3, 1), 60);
    assert_eq!(day_of_year(2024, 12, 31), 366);
}

// -- span grammar -----------------------------------------------------------

#[test]
fn test_normalize_span_text() {
    assert_eq!(normalize_span_text("1d"), "P1d");
    assert_eq!(normalize_span_text("T1h"), "PT1h");
    assert_eq!(normalize_span_text("-1d"), "-P1d");
    assert_eq!(normalize_span_text("+P1d"), "+P1d");
    assert_eq!(normalize_span_text("-1"), "-1");
    assert_eq!(normalize_span_text("P1d"), "P1d");
}

#[test]
fn test_parse_duration_span_units() {
    let sp = parse_duration_span("1y2m3w4dT5h6m7s").unwrap();
    assert_eq!(sp.years, 1);
    assert_eq!(sp.months, 2);
    assert_eq!(sp.weeks, 3);
    assert_eq!(sp.days, 4);
    assert_eq!(sp.hours, 5);
    assert_eq!(sp.minutes, 6);
    assert_eq!(sp.seconds, 7);
}

#[test]
fn test_parse_duration_span_fractional_seconds() {
    let sp = parse_duration_span("PT0.0021s").unwrap();
    assert_eq!(sp.seconds, 0);
    assert_eq!(sp.milliseconds, 2);
    assert_eq!(sp.microseconds, 100);
    assert_eq!(sp.nanoseconds, 0);
}

#[test]
fn test_parse_duration_span_negative() {
    let sp = parse_duration_span("-1dT2h").unwrap();
    assert_eq!(sp.days, -1);
    assert_eq!(sp.hours, -2);
}

#[test]
fn test_parse_duration_span_rejects_bad_input() {
    assert!(matches!(
        parse_duration_span("P"),
        Err(DtError::InvalidSpan(_, _))
    ));
    assert!(matches!(
        parse_duration_span("nonsense"),
        Err(DtError::InvalidSpan(_, _))
    ));
    assert!(matches!(
        parse_duration_span("1d2y"),
        Err(DtError::InvalidSpan(_, _))
    ));
}

// -- short date grammars ----------------------------------------------------

#[test]
fn test_parse_short_dates() {
    assert_eq!(parse_short_iso("2018-7-9"), Some((2018, 7, 9)));
    assert_eq!(parse_short_iso("2018-07-09"), Some((2018, 7, 9)));
    assert_eq!(parse_short_iso("2018-02-30"), None);
    assert_eq!(parse_short_iso("2018-07-09T00:00:00"), None);
    assert_eq!(parse_short_usa("7/9/24", true), Some((2024, 7, 9)));
    assert_eq!(parse_short_usa("7/9/69", true), Some((1969, 7, 9)));
    assert_eq!(parse_short_usa("07/09/2024", false), Some((2024, 7, 9)));
    assert_eq!(parse_short_usa("7/9/2024", true), None);
}

// -- unit registry ----------------------------------------------------------

#[test]
fn test_unit_alias_closure_exhaustive() {
    let cases: [(&str, CalendarUnit); 53] = [
        ("year", CalendarUnit::Year),
        ("years", CalendarUnit::Year),
        ("yyyy", CalendarUnit::Year),
        ("yy", CalendarUnit::Year),
        ("yr", CalendarUnit::Year),
        ("yrs", CalendarUnit::Year),
        ("month", CalendarUnit::Month),
        ("months", CalendarUnit::Month),
        ("mth", CalendarUnit::Month),
        ("mths", CalendarUnit::Month),
        ("mm", CalendarUnit::Month),
        ("m", CalendarUnit::Month),
        ("mon", CalendarUnit::Month),
        ("week", CalendarUnit::Week),
        ("weeks", CalendarUnit::Week),
        ("ww", CalendarUnit::Week),
        ("wk", CalendarUnit::Week),
        ("wks", CalendarUnit::Week),
        ("iso_week", CalendarUnit::Week),
        ("isowk", CalendarUnit::Week),
        ("isoww", CalendarUnit::Week),
        ("day", CalendarUnit::Day),
        ("days", CalendarUnit::Day),
        ("dd", CalendarUnit::Day),
        ("d", CalendarUnit::Day),
        ("hour", CalendarUnit::Hour),
        ("hours", CalendarUnit::Hour),
        ("hh", CalendarUnit::Hour),
        ("hr", CalendarUnit::Hour),
        ("hrs", CalendarUnit::Hour),
        ("minute", CalendarUnit::Minute),
        ("minutes", CalendarUnit::Minute),
        ("mi", CalendarUnit::Minute),
        ("n", CalendarUnit::Minute),
        ("min", CalendarUnit::Minute),
        ("mins", CalendarUnit::Minute),
        ("second", CalendarUnit::Second),
        ("seconds", CalendarUnit::Second),
        ("ss", CalendarUnit::Second),
        ("s", CalendarUnit::Second),
        ("sec", CalendarUnit::Second),
        ("secs", CalendarUnit::Second),
        ("millisecond", CalendarUnit::Millisecond),
        ("ms", CalendarUnit::Millisecond),
        ("millis", CalendarUnit::Millisecond),
        ("microsecond", CalendarUnit::Microsecond),
        ("mcs", CalendarUnit::Microsecond),
        ("us", CalendarUnit::Microsecond),
        ("micros", CalendarUnit::Microsecond),
        ("nanosecond", CalendarUnit::Nanosecond),
        ("ns", CalendarUnit::Nanosecond),
        ("nano", CalendarUnit::Nanosecond),
        ("nanos", CalendarUnit::Nanosecond),
    ];
    for (alias, unit) in cases {
        assert_eq!(get_unit_from_unit_string(alias.to_string()).unwrap(), unit);
    }
}

#[test]
fn test_unknown_unit_is_rejected() {
    assert!(matches!(
        get_unit_from_unit_string("fortnight".to_string()),
        Err(DtError::UnknownUnit(_))
    ));
}

#[test]
fn test_abbreviation_listing_contents() {
    let rows = get_unit_abbreviations();
    assert_eq!(rows[0].name, "year");
    assert_eq!(rows[0].abbreviations, "year, years, yyyy, yy, yr, yrs");
    assert_eq!(rows[1].name, "quarter");
    assert_eq!(rows[1].abbreviations, "quarter, qq, q, qs, qtr");
    assert_eq!(rows[12].name, "nanosecond");
    assert_eq!(rows[12].abbreviations, "nanosecond, ns, nano, nanos");
}

// -- part extraction --------------------------------------------------------

#[test]
fn test_quarter_bucketing_all_months() {
    let z = |month: i8| dt::zoned::ZonedValue {
        year: 2024,
        month,
        day: 1,
        hour: 0,
        minute: 0,
        second: 0,
        subsec_nanosecond: 0,
        offset_seconds: 0,
        zone: dt::zoned::ZoneId::Fixed(0),
    };
    let expected = [(1, 1), (3, 1), (4, 2), (6, 2), (7, 3), (9, 3), (10, 4), (12, 4)];
    for (month, quarter) in expected {
        let r = dt::part::get_part_from_zoned_as_i16("quarter".to_string(), z(month));
        assert_eq!(r.unwrap(), quarter);
    }
}

#[test]
fn test_part_extraction_fields() {
    let z = dt::zoned::ZonedValue {
        year: 2024,
        month: 7,
        day: 9,
        hour: 13,
        minute: 45,
        second: 6,
        subsec_nanosecond: 123_456_789,
        offset_seconds: -18000,
        zone: dt::zoned::ZoneId::Fixed(-18000),
    };
    let get = |alias: &str| {
        dt::part::get_part_from_zoned_as_i16(alias.to_string(), z.clone()).unwrap()
    };
    assert_eq!(get("yyyy"), 2024);
    assert_eq!(get("qtr"), 3);
    assert_eq!(get("mon"), 7);
    assert_eq!(get("doy"), 191);
    assert_eq!(get("dd"), 9);
    assert_eq!(get("wk"), 28);
    assert_eq!(get("wd"), 2);
    assert_eq!(get("hh"), 13);
    assert_eq!(get("mi"), 45);
    assert_eq!(get("ss"), 6);
    assert_eq!(get("ms"), 123);
    assert_eq!(get("mcs"), 456);
    assert_eq!(get("ns"), 789);
    let unknown = dt::part::get_part_from_zoned_as_i16("tz".to_string(), z);
    assert!(matches!(unknown, Err(DtError::UnknownUnit(_))));
}

// -- commands and scenarios -------------------------------------------------

#[test]
fn test_add_one_day_to_bare_date() {
    let out = DtAdd.run("2017-08-25", "1d").unwrap();
    assert!(
        out.starts_with("2017-08-26T00:00:00"),
        "unexpected canonical output: {out}"
    );
}

#[test]
fn test_add_one_hour_to_bare_datetime() {
    let out = DtAdd.run("2017-08-25T12:00:00", "T1h").unwrap();
    assert!(
        out.starts_with("2017-08-25T13:00:00"),
        "unexpected canonical output: {out}"
    );
}

#[test]
fn test_add_rejects_bad_duration() {
    assert!(matches!(
        DtAdd.run("2017-08-25", "zzz"),
        Err(DtError::InvalidSpan(_, _))
    ));
}

#[test]
fn test_add_overflow_is_reported() {
    assert!(matches!(
        DtAdd.run("9000-01-01", "9999y"),
        Err(DtError::DateOverflow(_))
    ));
}

#[test]
fn test_diff_scenario_default_bounds() {
    let out = DtDiff
        .run(
            "2024-08-07T09:36:42.367322100-05:00",
            "2019-05-10T09:59:12-07:00",
            None,
            None,
            None,
        )
        .unwrap();
    assert_eq!(
        out,
        "P5y2m27dT21h37m30.3673221s\n5yrs 2mths 3wks 6days 21hrs 37mins 30secs 367ms 322µs 100ns"
    );
}

#[test]
fn test_diff_scenario_as_hours() {
    let out = DtDiff
        .run(
            "2024-08-07T09:36:42.367322100-05:00",
            "2019-05-10T09:59:12-07:00",
            None,
            None,
            Some("hr".to_string()),
        )
        .unwrap();
    assert_eq!(out, "PT45982h\n45982hrs");
}

#[test]
fn test_diff_scenario_day_to_year_bounds() {
    let out = DtDiff
        .run(
            "2024-08-07T09:36:42.367322100-05:00",
            "2019-05-10T09:59:12-07:00",
            Some("year".to_string()),
            Some("day".to_string()),
            None,
        )
        .unwrap();
    assert_eq!(out, "P5y2m28d\n5yrs 2mths 4wks");
}

#[test]
fn test_part_command() {
    assert_eq!(DtPart.run("2017-08-25", "yy".to_string()).unwrap(), 2017);
    assert_eq!(
        DtPart.run("2017-08-25T12:00:00", "hh".to_string()).unwrap(),
        12
    );
    assert_eq!(
        DtPart.run("2017-08-25T12:00:00", "mon".to_string()).unwrap(),
        8
    );
}

#[test]
fn test_to_command_standard_formats() {
    let out = DtTo.run("07/09/24").unwrap();
    assert!(out.rfc9557.starts_with("2024-07-09T00:00:00+00:00["));
    assert_eq!(out.rfc3339, "2024-07-09T00:00:00Z");
    assert_eq!(out.rfc2822, "Tue, 9 Jul 2024 00:00:00 +0000");
    assert_eq!(out.iso8601, "2024-07-09T00:00:00+00:00");
}

#[test]
fn test_format_command() {
    assert_eq!(DtFormat.run("07/09/24", "%A").unwrap(), "Tuesday");
    assert_eq!(
        DtFormat.run("2024-07-09T10:30:00+00:00", "%+").unwrap(),
        "2024-07-09T10:30:00+00:00"
    );
    assert_eq!(
        DtFormat.run("2024-07-09T10:30:00+00:00", "%c").unwrap(),
        "Tue, 9 Jul 2024 10:30:00 +0000"
    );
}

#[test]
fn test_format_command_from_unix_timestamp() {
    assert_eq!(DtFormat.run_unix(0, "%Y").unwrap(), "1970");
}

#[test]
fn test_now_commands_agree_on_the_instant() {
    let now = current_zoned();
    let (s1, n1) = Now.run(&now);
    let (s2, n2) = UtcNow.run(&now).unwrap();
    assert_eq!(s1, s2);
    assert_eq!(n1, n2);
}

#[test]
fn test_strftime_listing_length() {
    let now = current_zoned();
    assert_eq!(dt::format_list::generate_strftime_list(&now, false).len(), 50);
    let now = current_zoned();
    assert_eq!(dt::format_list::generate_strftime_list(&now, true).len(), 51);
}

// -- round-trip properties --------------------------------------------------

#[test]
fn test_add_diff_round_trip() {
    // Re-applying the full-precision difference of z and add(z, s)
    // reproduces add(z, s) exactly.
    let z = resolve_datetime_string("2020-01-31T10:00:00+02:00").unwrap();
    let s = parse_duration_span("1m2dT3h4m5.000000600s").unwrap();
    let z2 = dt::resolve::add_span_to_zoned(&z, &s).unwrap();
    let sp = difference_span(&z, &z2, CalendarUnit::Nanosecond, CalendarUnit::Year).unwrap();
    let z3 = dt::resolve::add_span_to_zoned(&z, &sp).unwrap();
    assert!(z3.same_value(&z2), "round trip failed: {:?} vs {:?}", z3, z2);
}

#[test]
fn test_canonical_parse_idempotent() {
    for input in [
        "2019-05-10T09:59:12-07:00",
        "2024-08-07T09:36:42.367322100-05:00",
        "2024-06-14T17:30:00-04:00[America/New_York]",
    ] {
        let z = resolve_datetime_string(input).unwrap();
        let canonical = render_canonical_string(&z);
        let z2 = resolve_datetime_string(&canonical).unwrap();
        assert!(
            z.same_value(&z2),
            "reparse of {canonical} changed the value"
        );
    }
}

#[test]
fn test_utc_normalization_keeps_the_instant() {
    let z = resolve_datetime_string("2019-05-10T09:59:12-07:00").unwrap();
    let u = to_utc(&z).unwrap();
    assert_eq!(u.offset_seconds, 0);
    assert_eq!(u.hour, 16);
    assert_eq!(u.minute, 59);
    assert_eq!(u.second, 12);
}

#[test]
fn test_iso_span_rendering_zero() {
    let sp = CalendarSpan {
        years: 0,
        months: 0,
        weeks: 0,
        days: 0,
        hours: 0,
        minutes: 0,
        seconds: 0,
        milliseconds: 0,
        microseconds: 0,
        nanoseconds: 0,
    };
    assert_eq!(render_iso_span_string(&sp), "PT0s");
}

#[test]
fn test_unparseable_input_names_the_string() {
    match resolve_datetime_string("certainly not a date") {
        Err(DtError::UnparseableDatetime(s)) => {
            assert_eq!(s, "certainly not a date");
        }
        other => panic!("expected an unparseable-datetime error, got {:?}", other),
    }
}

#[test]
fn test_parse_duration_span_fractional_hours() {
    let sp = parse_duration_span("T1.5h").unwrap();
    assert_eq!(sp.hours, 1);
    assert_eq!(sp.minutes, 30);
    assert_eq!(sp.seconds, 0);
}

#[test]
fn test_parse_duration_span_fractional_minutes() {
    let sp = parse_duration_span("PT1.075m").unwrap();
    assert_eq!(sp.minutes, 1);
    assert_eq!(sp.seconds, 4);
    assert_eq!(sp.milliseconds, 500);
}

#[test]
fn test_parse_duration_span_comma_separator() {
    let sp = parse_duration_span("T0,5s").unwrap();
    assert_eq!(sp.seconds, 0);
    assert_eq!(sp.milliseconds, 500);
}

#[test]
fn test_parse_duration_span_fraction_must_end_the_text() {
    assert!(matches!(
        parse_duration_span("PT1.5h2m"),
        Err(DtError::InvalidSpan(_, _))
    ));
}

#[test]
fn test_nushelly_renders_negative_components() {
    let span = CalendarSpan {
        years: -1,
        months: -2,
        weeks: 0,
        days: -3,
        hours: -4,
        minutes: -5,
        seconds: -6,
        milliseconds: 0,
        microseconds: 0,
        nanoseconds: 0,
    };
    assert_eq!(
        dt::render::create_nushelly_duration_string(span),
        "-1yrs -2mths -3days -4hrs -5mins -6secs"
    );
}

#[test]
fn test_nushelly_renders_explicit_weeks() {
    let span = CalendarSpan {
        years: 0,
        months: 0,
        weeks: 2,
        days: 3,
        hours: 0,
        minutes: 0,
        seconds: 0,
        milliseconds: 0,
        microseconds: 0,
        nanoseconds: 0,
    };
    assert_eq!(dt::render::create_nushelly_duration_string(span), "2wks 3days");
}

#[test]
fn test_diff_reversed_order_is_signed() {
    let out = dt::diff::calculate_date_diff(
        "2019-05-10T09:59:12-07:00",
        "2024-08-07T09:36:42.367322100-05:00",
        None,
        None,
        None,
    )
    .unwrap();
    assert_eq!(
        out,
        "-P5y2m27dT21h37m30.3673221s\n-5yrs -2mths -27days -21hrs -37mins -30secs -367ms -322µs -100ns"
    );
}

#[test]
fn test_iso_week_at_first_supported_year() {
    assert_eq!(iso_week(-9999, 1, 1), 1);
    let z = dt::zoned::ZonedValue {
        year: -9999,
        month: 1,
        day: 1,
        hour: 0,
        minute: 0,
        second: 0,
        subsec_nanosecond: 0,
        offset_seconds: 0,
        zone: dt::zoned::ZoneId::Fixed(0),
    };
    let w = dt::part::get_part_from_zoned_as_i16("wk".to_string(), z).unwrap();
    assert_eq!(w, 1);
}
