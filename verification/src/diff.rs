//! The difference engine: resolve two date/time strings, normalize
//! mixed zones to UTC, compute the calendar-aware difference through the
//! arithmetic engine with half-expand rounding at the requested bounds,
//! and render the machine and human forms together.

use vstd::prelude::*;

verus! {

use crate::errors::DtError;
use crate::jiffext;
use crate::render::{
    spec_iso_span_str,
    spec_nushelly_str,
    spec_single_unit_str,
    render_iso_span_string,
    create_nushelly_duration_string,
    get_single_duration_unit_from_span,
};
use crate::resolve::parse_datetime_string_add_nanos_optionally;
use crate::span::CalendarSpan;
use crate::units::{CalendarUnit, get_unit_from_unit_string, spec_unit_from_alias};
use crate::zoned::{ZonedValue, to_utc};
use vstd::string::{StrSliceExecFns, StringExecFns};

/// A single output unit is mutually exclusive with explicit
/// smallest/biggest bounds.
pub open spec fn spec_conflicting_options(
    biggest: Option<String>,
    smallest: Option<String>,
    as_unit: Option<String>,
) -> bool {
    (biggest is Some || smallest is Some) && as_unit is Some
}

/// The two-line output of the difference engine: the machine rendering,
/// a newline, and the human rendering of one well-formed span.
pub open spec fn spec_diff_output(r: Seq<char>, as_unit: Option<CalendarUnit>) -> bool {
    exists|sp: CalendarSpan|
        {
            &&& sp.wf()
            &&& r == #[trigger] spec_iso_span_str(sp) + seq!['\n'] + (match as_unit {
                Some(u) => spec_single_unit_str(u, sp),
                None => spec_nushelly_str(sp),
            })
        }
}

/// Join the machine and human renderings of a span on one newline.
fn render_diff_output(sp: &CalendarSpan, as_unit: Option<CalendarUnit>) -> (r: String)
    requires
        sp.wf(),
    ensures
        spec_diff_output(r@, as_unit),
{
    let mut out = render_iso_span_string(sp);
    proof {
        reveal_strlit("\n");
    }
    out.append("\n");
    match as_unit {
        Some(u) => {
            out.append(get_single_duration_unit_from_span(u, *sp).as_str());
            proof {
                assert(out@ =~= spec_iso_span_str(*sp) + seq!['\n'] + spec_single_unit_str(
                    u,
                    *sp,
                ));
            }
        },
        None => {
            out.append(create_nushelly_duration_string(*sp).as_str());
            proof {
                assert(out@ =~= spec_iso_span_str(*sp) + seq!['\n'] + spec_nushelly_str(
                    *sp,
                ));
            }
        },
    }
    out
}

/// The difference between the two zoned values, rounded half-expand at
/// the given bounds and rendered.  The zones must already agree.
fn diff_zoned_rendered(
    a: &ZonedValue,
    b: &ZonedValue,
    smallest: CalendarUnit,
    largest: CalendarUnit,
    as_unit: Option<CalendarUnit>,
) -> (r: Result<String, DtError>)
    requires
        a.wf(),
        b.wf(),
    ensures
        match r {
            Ok(t) => spec_diff_output(t@, as_unit),
            Err(e) => e is DateOverflow,
        },
{
    let ja = match jiffext::instant_in_zone(a.epoch_second(), a.subsec_nanosecond, &a.zone) {
        Ok(j) => j,
        Err(_) => {
            return Err(DtError::DateOverflow(String::from_str("difference")));
        },
    };
    let jb = match jiffext::instant_in_zone(b.epoch_second(), b.subsec_nanosecond, &b.zone) {
        Ok(j) => j,
        Err(_) => {
            return Err(DtError::DateOverflow(String::from_str("difference")));
        },
    };
    let jsm = jiffext::unit_to_jiff(smallest);
    let jlg = jiffext::unit_to_jiff(largest);
    let jspan = match jiffext::until_zoned_raw(&ja, &jb, jsm, jlg) {
        Ok(jspan) => jspan,
        Err(_) => {
            return Err(DtError::DateOverflow(String::from_str("difference")));
        },
    };
    let sp = jiffext::from_jiff_span(&jspan);
    Ok(render_diff_output(&sp, as_unit))
}

/// The calendar-aware difference from `a` to `b` as a span, rounded
/// half-expand at the given bounds.  The zones of `a` and `b` must
/// agree for calendar units to be meaningful; both values are rebuilt
/// as instants in their zones and differenced by the arithmetic
/// engine.
pub fn difference_span(
    a: &ZonedValue,
    b: &ZonedValue,
    smallest: CalendarUnit,
    largest: CalendarUnit,
) -> (r: Result<CalendarSpan, DtError>)
    requires
        a.wf(),
        b.wf(),
    ensures
        match r {
            Ok(sp) => sp.wf(),
            Err(e) => e is DateOverflow,
        },
{
    let ja = match jiffext::instant_in_zone(a.epoch_second(), a.subsec_nanosecond, &a.zone) {
        Ok(j) => j,
        Err(_) => {
            return Err(DtError::DateOverflow(String::from_str("difference")));
        },
    };
    let jb = match jiffext::instant_in_zone(b.epoch_second(), b.subsec_nanosecond, &b.zone) {
        Ok(j) => j,
        Err(_) => {
            return Err(DtError::DateOverflow(String::from_str("difference")));
        },
    };
    let jsm = jiffext::unit_to_jiff(smallest);
    let jlg = jiffext::unit_to_jiff(largest);
    match jiffext::until_zoned_raw(&ja, &jb, jsm, jlg) {
        Ok(jspan) => Ok(jiffext::from_jiff_span(&jspan)),
        Err(_) => Err(DtError::DateOverflow(String::from_str("difference"))),
    }
}

/// Compute and render the calendar-aware difference between the piped-in
/// date and the parameter date.  A requested single output unit excludes
/// explicit smallest/biggest bounds; values in different zones are both
/// normalized to UTC before differencing; the defaults are nanoseconds
/// up to years.  A parse failure surfaces the offending input, an
/// unknown unit surfaces the offending alias, and under conflicting
/// options the only errors are the conflict itself or a parse failure.
pub fn calculate_date_diff(
    parameter_datetime_provided: &str,
    piped_in_input: &str,
    biggest_unit_opt: Option<String>,
    smallest_unit_opt: Option<String>,
    as_unit_opt: Option<String>,
) -> (r: Result<String, DtError>)
    ensures
        match r {
            Ok(t) => !spec_conflicting_options(biggest_unit_opt, smallest_unit_opt, as_unit_opt)
                && spec_diff_output(
                t@,
                match as_unit_opt {
                    Some(u) => spec_unit_from_alias(u@),
                    None => None,
                },
            ),
            Err(e) => match e {
                DtError::ConflictingUnitOptions => spec_conflicting_options(
                    biggest_unit_opt,
                    smallest_unit_opt,
                    as_unit_opt,
                ),
                DtError::UnknownUnit(u) => {
                    &&& !spec_conflicting_options(
                        biggest_unit_opt,
                        smallest_unit_opt,
                        as_unit_opt,
                    )
                    &&& spec_unit_from_alias(u@) is None
                    &&& ((as_unit_opt matches Some(a) && u@ == a@) || (
                    smallest_unit_opt matches Some(a) && u@ == a@) || (biggest_unit_opt
                        matches Some(a) && u@ == a@))
                },
                DtError::UnparseableDatetime(t) => t@ == piped_in_input@ || t@
                    == parameter_datetime_provided@,
                DtError::DateOverflow(_) => !spec_conflicting_options(
                    biggest_unit_opt,
                    smallest_unit_opt,
                    as_unit_opt,
                ),
                _ => false,
            },
        },
{
    let mut zoned_input_datetime = match parse_datetime_string_add_nanos_optionally(
        piped_in_input,
        None,
        None,
    ) {
        Ok(z) => z,
        Err(e) => {
            return Err(e);
        },
    };
    let mut zoned_parameter_datetime = match parse_datetime_string_add_nanos_optionally(
        parameter_datetime_provided,
        None,
        None,
    ) {
        Ok(z) => z,
        Err(e) => {
            return Err(e);
        },
    };
    if (biggest_unit_opt.is_some() || smallest_unit_opt.is_some())
        && as_unit_opt.is_some() {
        return Err(DtError::ConflictingUnitOptions);
    }
    if !zoned_input_datetime.zone.same(&zoned_parameter_datetime.zone) {
        zoned_input_datetime = match to_utc(&zoned_input_datetime) {
            Ok(z) => z,
            Err(e) => {
                return Err(e);
            },
        };
        zoned_parameter_datetime = match to_utc(&zoned_parameter_datetime) {
            Ok(z) => z,
            Err(e) => {
                return Err(e);
            },
        };
    }
    match as_unit_opt {
        Some(as_unit_string) => {
            let as_unit = match get_unit_from_unit_string(as_unit_string) {
                Ok(u) => u,
                Err(e) => {
                    return Err(e);
                },
            };
            diff_zoned_rendered(
                &zoned_input_datetime,
                &zoned_parameter_datetime,
                as_unit,
                as_unit,
                Some(as_unit),
            )
        },
        None => {
            let smallest_unit = match smallest_unit_opt {
                Some(sm) => match get_unit_from_unit_string(sm) {
                    Ok(u) => u,
                    Err(e) => {
                        return Err(e);
                    },
                },
                None => CalendarUnit::Nanosecond,
            };
            let biggest_unit = match biggest_unit_opt {
                Some(bg) => match get_unit_from_unit_string(bg) {
                    Ok(u) => u,
                    Err(e) => {
                        return Err(e);
                    },
                },
                None => CalendarUnit::Year,
            };
            diff_zoned_rendered(
                &zoned_input_datetime,
                &zoned_parameter_datetime,
                smallest_unit,
                biggest_unit,
                None,
            )
        },
    }
}

} // verus!
