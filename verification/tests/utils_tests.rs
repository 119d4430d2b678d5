use dt::commands::current_zoned;
use dt::part::get_part_from_zoned_as_i16;
use dt::render::{create_nushelly_duration_string, get_single_duration_unit_from_span};
use dt::resolve::{
    parse_datetime_string_add_nanos_optionally, parse_datetime_string_into_pieces,
};
use dt::span::CalendarSpan;
use dt::units::{get_unit_abbreviations, get_unit_from_unit_string, parse_number_and_unit_string, CalendarUnit};
use dt::zoned::unix_timestamp_in_seconds_to_local_zoned;

fn span_of(
    years: i64,
    months: i64,
    weeks: i64,
    days: i64,
    hours: i64,
    minutes: i64,
    seconds: i64,
) -> CalendarSpan {
    CalendarSpan {
        years,
        months,
        weeks,
        days,
        hours,
        minutes,
        seconds,
        milliseconds: 0,
        microseconds: 0,
        nanoseconds: 0,
    }
}

#[test]
fn test_get_part_from_zoned_as_i16() {
    let datetime = current_zoned();
    let part_string = "year".to_string();

    let year_field = datetime.year;
    let result = get_part_from_zoned_as_i16(part_string, datetime);
    assert!(result.is_ok());
    let year = result.unwrap();
    assert_eq!(year, year_field);
}

#[test]
fn test_get_unit_from_unit_string() {
    let unit_name = "year".to_string();

    let result = get_unit_from_unit_string(unit_name);
    assert!(result.is_ok());
    let unit = result.unwrap();
    assert_eq!(unit, CalendarUnit::Year);
}

#[test]
fn test_parse_number_and_unit_string() {
    let input_value = "10days".to_string();

    let result = parse_number_and_unit_string(input_value);
    assert!(result.is_ok());
    let (number, unit) = result.unwrap();
    assert_eq!(number, 10);
    assert_eq!(unit, "days");
}

#[test]
fn test_get_unit_abbreviations() {
    let abbreviations = get_unit_abbreviations();
    assert_eq!(abbreviations.len(), 13);
}

#[test]
fn test_create_nushelly_duration_string() {
    let span = span_of(1, 2, 0, 3, 4, 5, 6);
    let result = create_nushelly_duration_string(span);
    assert_eq!(result, "1yrs 2mths 3days 4hrs 5mins 6secs");
}

#[test]
fn test_get_single_duration_unit_from_span() {
    let span = span_of(1, 0, 0, 0, 0, 0, 0);
    let result = get_single_duration_unit_from_span(CalendarUnit::Year, span);
    assert_eq!(result, "1yrs");
}

#[test]
fn test_strptime_relaxed() {
    let fmt = "%Y-%m-%dT%H:%M:%S%:z";
    let input = "2022-01-01T00:00:00+00:00";

    let result = dt::jiffext::strptime_relaxed(fmt, input);
    assert!(result.is_ok());
    let datetime = dt::jiffext::zoned_fields(&result.unwrap());
    assert_eq!(datetime.year, 2022);
    assert_eq!(datetime.month, 1);
    assert_eq!(datetime.day, 1);
}

#[test]
fn test_unix_timestamp_formatting() {
    assert_eq!(
        unix_timestamp_in_seconds_to_local_zoned(0).unwrap(),
        "1970-01-01 00:00:00"
    );
    assert_eq!(
        unix_timestamp_in_seconds_to_local_zoned(86399).unwrap(),
        "1970-01-01 23:59:59"
    );
    assert_eq!(
        unix_timestamp_in_seconds_to_local_zoned(1_000_000_000).unwrap(),
        "2001-09-09 01:46:40"
    );
}

#[test]
fn test_parse_datetime_string_add_nanos_optionally_case1() {
    let s = "2022-01-01T00:00:00+00:00";
    let duration_nanos = Some(1_000_000_000); // 1 second

    let result = parse_datetime_string_add_nanos_optionally(s, duration_nanos, None);
    assert!(result.is_ok());
    let datetime = result.unwrap();
    assert_eq!(datetime.second, 1);
}

#[test]
fn test_parse_datetime_string_add_nanos_optionally_case2() {
    let s = "2022-01-01T00:00:00+00:00";
    let duration_nanos = Some(60_000_000_000); // 1 minute

    let result = parse_datetime_string_add_nanos_optionally(s, duration_nanos, None);
    assert!(result.is_ok());
    let datetime = result.unwrap();
    assert_eq!(datetime.minute, 1);
}

#[test]
fn test_parse_datetime_string_add_nanos_optionally_case3() {
    let s = "2022-01-01T00:00:00+00:00";
    let duration_nanos = Some(3_600_000_000_000); // 1 hour

    let result = parse_datetime_string_add_nanos_optionally(s, duration_nanos, None);
    assert!(result.is_ok());
    let datetime = result.unwrap();
    assert_eq!(datetime.hour, 1);
}

#[test]
fn test_parse_datetime_string_add_nanos_optionally_case4() {
    let s = "2022-01-01T00:00:00+00:00";
    let duration_nanos = Some(86_400_000_000_000); // 1 day

    let result = parse_datetime_string_add_nanos_optionally(s, duration_nanos, None);
    assert!(result.is_ok());
    let datetime = result.unwrap();
    assert_eq!(datetime.day, 2);
}

#[test]
fn test_parse_datetime_string_add_nanos_optionally_case5() {
    let s = "2022-01-01T00:00:00+00:00";
    let duration_nanos = None;

    let result = parse_datetime_string_add_nanos_optionally(s, duration_nanos, None);
    assert!(result.is_ok());
    let datetime = result.unwrap();
    assert_eq!(datetime.second, 0);
}

#[test]
fn test_parse_datetime_string_add_nanos_optionally_case6() {
    let s = "2022-01-01";
    let duration_nanos = None;

    let result = parse_datetime_string_add_nanos_optionally(s, duration_nanos, None);
    assert!(result.is_ok());
    let datetime = result.unwrap();
    assert_eq!(datetime.second, 0);
}

#[test]
fn test_parse_datetime_string_add_nanos_optionally_case7() {
    let s = "2022-01-01";
    let duration_nanos = Some(86_400_000_000_000); // 1 day

    let result = parse_datetime_string_add_nanos_optionally(s, duration_nanos, None);
    assert!(result.is_ok());
    let datetime = result.unwrap();
    assert_eq!(datetime.day, 2);
}

#[test]
fn test_parse_datetime_string_add_nanos_optionally_case8() {
    let s = "2022-01-01T00:00:00.123456789+00:00";
    let duration_nanos = None;

    let result = parse_datetime_string_add_nanos_optionally(s, duration_nanos, None);
    assert!(result.is_ok());
    let datetime = result.unwrap();
    assert_eq!(datetime.hour, 0);
    assert_eq!(datetime.minute, 0);
    assert_eq!(datetime.second, 0);
    assert_eq!(datetime.subsec_nanosecond / 1_000_000, 123);
    assert_eq!((datetime.subsec_nanosecond / 1_000) % 1_000, 456);
    assert_eq!(datetime.subsec_nanosecond % 1_000, 789);
}

#[test]
fn test_parse_datetime_string_add_nanos_optionally_case9() {
    let s = "2022-01-01T00:00:00.123456789+00:00";
    let duration_nanos = Some(1_000_000_000); // 1 second

    let result = parse_datetime_string_add_nanos_optionally(s, duration_nanos, None);
    assert!(result.is_ok());
    let datetime = result.unwrap();

    assert_eq!(datetime.second, 1);
    assert_eq!(datetime.subsec_nanosecond % 1_000, 789);
}

#[test]
fn test_parse_datetime_string_add_nanos_optionally_case10() {
    let s = "Thu, 18 Aug 2022 12:45:06 +0800";
    let duration_nanos = None;

    let result = parse_datetime_string_add_nanos_optionally(s, duration_nanos, None);
    assert!(result.is_ok());
    let datetime = result.unwrap();
    assert_eq!(datetime.second, 6);
}

#[test]
fn test_parse_datetime_string_add_nanos_optionally_case11() {
    let s = "Thu, 18 Aug 2022 12:45:06 +0800";
    let duration_nanos = Some(1_000_000_000); // 1 second

    let result = parse_datetime_string_add_nanos_optionally(s, duration_nanos, None);
    assert!(result.is_ok());
    let datetime = result.unwrap();
    assert_eq!(datetime.second, 7);
}

#[test]
fn test_parse_datetime_string_add_nanos_optionally_case1b() {
    let s = "2022-01-01T00:00:00+00:00";
    let duration_nanos = Some(1_000_000_000); // 1 second

    let result = parse_datetime_string_into_pieces(s, duration_nanos, None);
    assert!(result.is_ok());
    let datetime = result.unwrap();
    assert_eq!(datetime.second, 1);
}

#[test]
fn test_parse_datetime_string_add_nanos_optionally_case2b() {
    let s = "2022-01-01T00:00:00+00:00";
    let duration_nanos = Some(60_000_000_000); // 1 minute

    let result = parse_datetime_string_into_pieces(s, duration_nanos, None);
    assert!(result.is_ok());
    let datetime = result.unwrap();
    assert_eq!(datetime.minute, 1);
}

#[test]
fn test_parse_datetime_string_add_nanos_optionally_case3b() {
    let s = "2022-01-01T00:00:00+00:00";
    let duration_nanos = Some(3_600_000_000_000); // 1 hour

    let result = parse_datetime_string_into_pieces(s, duration_nanos, None);
    assert!(result.is_ok());
    let datetime = result.unwrap();
    assert_eq!(datetime.hour, 1);
}

#[test]
fn test_parse_datetime_string_add_nanos_optionally_case4b() {
    let s = "2022-01-01T00:00:00+00:00";
    let duration_nanos = Some(86_400_000_000_000); // 1 day

    let result = parse_datetime_string_into_pieces(s, duration_nanos, None);
    assert!(result.is_ok());
    let datetime = result.unwrap();
    assert_eq!(datetime.day, 2);
}

#[test]
fn test_parse_datetime_string_add_nanos_optionally_case5b() {
    let s = "2022-01-01T00:00:00+00:00";
    let duration_nanos = None;

    let result = parse_datetime_string_into_pieces(s, duration_nanos, None);
    assert!(result.is_ok());
    let datetime = result.unwrap();
    assert_eq!(datetime.second, 0);
}

#[test]
fn test_parse_datetime_string_add_nanos_optionally_case6b() {
    let s = "2022-01-01";
    let duration_nanos = None;

    let result = parse_datetime_string_into_pieces(s, duration_nanos, None);
    println!("result: {:#?}", result);
    assert!(result.is_ok());

    let datetime = result.unwrap();
    assert_eq!(datetime.second, 0);
}

#[test]
fn test_parse_datetime_string_add_nanos_optionally_case7b() {
    let s = "2022-01-01";
    let duration_nanos = Some(86_400_000_000_000); // 1 day

    let result = parse_datetime_string_into_pieces(s, duration_nanos, None);
    assert!(result.is_ok());
    let datetime = result.unwrap();
    assert_eq!(datetime.day, 2);
}

#[test]
fn test_parse_datetime_string_add_nanos_optionally_case8b() {
    let s = "2022-01-01T00:00:00.123456789+00:00";
    let duration_nanos = None;

    let result = parse_datetime_string_into_pieces(s, duration_nanos, None);
    assert!(result.is_ok());
    let datetime = result.unwrap();
    assert_eq!(datetime.hour, 0);
    assert_eq!(datetime.minute, 0);
    assert_eq!(datetime.second, 0);
    assert_eq!(datetime.subsec_nanosecond / 1_000_000, 123);
    assert_eq!((datetime.subsec_nanosecond / 1_000) % 1_000, 456);
    assert_eq!(datetime.subsec_nanosecond % 1_000, 789);
}

#[test]
fn test_parse_datetime_string_add_nanos_optionally_case9b() {
    let s = "2022-01-01T00:00:00.123456789+00:00";
    let duration_nanos = Some(1_000_000_000); // 1 second

    let result = parse_datetime_string_into_pieces(s, duration_nanos, None);
    assert!(result.is_ok());
    let datetime = result.unwrap();

    assert_eq!(datetime.second, 1);
    assert_eq!(datetime.subsec_nanosecond % 1_000, 789);
}

#[test]
fn test_parse_datetime_string_add_nanos_optionally_case10b() {
    let s = "Thu, 18 Aug 2022 12:45:06 +0800";
    let duration_nanos = None;

    let result = parse_datetime_string_into_pieces(s, duration_nanos, None);
    assert!(result.is_ok());
    let datetime = result.unwrap();
    assert_eq!(datetime.second, 6);
}

#[test]
fn test_parse_datetime_string_add_nanos_optionally_case11b() {
    let s = "Thu, 18 Aug 2022 12:45:06 +0800";
    let duration_nanos = Some(1_000_000_000); // 1 second

    let result = parse_datetime_string_into_pieces(s, duration_nanos, None);
    assert!(result.is_ok());
    let datetime = result.unwrap();
    assert_eq!(datetime.second, 7);
}
