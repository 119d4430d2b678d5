use dt::diff::calculate_date_diff;
use dt::errors::DtError;

#[test]
fn test_calculate_date_diff() {
    let parameter_datetime_provided = "2024-08-20T10:24:11.693666300-05:00";
    let piped_in_input = "2019-05-10T09:59:12-07:00";

    let result = calculate_date_diff(
        parameter_datetime_provided,
        piped_in_input,
        None,
        None,
        None,
    )
    .unwrap();

    assert_eq!(
        result,
        "P5y3m9dT22h24m59.6936663s\n5yrs 3mths 1wks 2days 22hrs 24mins 59secs 693ms 666µs 300ns"
    );
}

#[test]
fn test_calculate_date_diff_with_as_unit() {
    let parameter_datetime_provided = "2024-08-20T10:24:11.693666300-05:00";
    let piped_in_input = "2019-05-10T09:59:12-07:00";

    let result = calculate_date_diff(
        parameter_datetime_provided,
        piped_in_input,
        None,
        None,
        Some("hr".to_string()),
    )
    .unwrap();

    assert_eq!(result, "PT46294h\n46294hrs");
}

#[test]
fn test_calculate_date_diff_with_smallest_and_biggest() {
    let parameter_datetime_provided = "2024-08-20T10:24:11.693666300-05:00";
    let piped_in_input = "2019-05-10T09:59:12-07:00";

    let result = calculate_date_diff(
        parameter_datetime_provided,
        piped_in_input,
        Some("year".to_string()),
        Some("day".to_string()),
        None,
    )
    .unwrap();

    assert_eq!(result, "P5y3m10d\n5yrs 3mths 1wks 3days");
}

#[test]
fn test_calculate_date_diff_with_invalid_input() {
    let parameter_datetime_provided = "2024-08-20T10:24:11.693666300-05:00";
    let piped_in_input = "Invalid Date";

    let result = calculate_date_diff(
        parameter_datetime_provided,
        piped_in_input,
        None,
        None,
        None,
    );

    assert!(result.is_err());
}

#[test]
fn test_conflicting_unit_options() {
    let result = calculate_date_diff(
        "2024-08-20T10:24:11-05:00",
        "2019-05-10T09:59:12-07:00",
        Some("year".to_string()),
        None,
        Some("hr".to_string()),
    );
    assert!(matches!(result, Err(DtError::ConflictingUnitOptions)));
}

#[test]
fn test_diff_unknown_unit() {
    let result = calculate_date_diff(
        "2024-08-20T10:24:11-05:00",
        "2019-05-10T09:59:12-07:00",
        None,
        None,
        Some("lightyears".to_string()),
    );
    assert!(matches!(result, Err(DtError::UnknownUnit(_))));
}

#[test]
fn test_half_expand_rounds_up_at_thirty_minutes() {
    let result = calculate_date_diff(
        "2022-01-01T05:31:00+00:00",
        "2022-01-01T00:00:00+00:00",
        None,
        None,
        Some("hr".to_string()),
    )
    .unwrap();
    assert_eq!(result, "PT6h\n6hrs");
}

#[test]
fn test_half_expand_rounds_down_under_thirty_minutes() {
    let result = calculate_date_diff(
        "2022-01-01T05:29:00+00:00",
        "2022-01-01T00:00:00+00:00",
        None,
        None,
        Some("hr".to_string()),
    )
    .unwrap();
    assert_eq!(result, "PT5h\n5hrs");
}
