//! The command cores: the decision and computation layer of each user
//! operation, over plain values.  A host wraps these in its own
//! argument handling and output conventions.

use vstd::prelude::*;

verus! {

use crate::errors::DtError;
use crate::resolve::parse_datetime_string_add_nanos_optionally;
use crate::span::{CalendarSpan, parse_duration_span};
use crate::zoned::{
    ZonedValue,
    spec_canonical_str,
    spec_iso8601_strict_str,
    spec_rfc2822_str,
    spec_rfc3339_utc_str,
    render_canonical_string,
    render_iso8601_strict_string,
    render_rfc2822_string,
    render_rfc3339_utc_string,
    to_utc,
    unix_timestamp_in_seconds_to_local_zoned,
};
use crate::strutil::str_eq;
use vstd::string::StrSliceExecFns;

/// The current date and time as a zoned value, read once from the
/// clock and the system zone.
pub fn current_zoned() -> (r: ZonedValue)
    ensures
        r.wf(),
{
    crate::jiffext::zoned_fields(&crate::jiffext::now_zoned())
}

/// A rendering of some well-formed zoned value in its canonical form.
pub open spec fn spec_canonical_of_some(r: Seq<char>) -> bool {
    exists|z: ZonedValue| z.wf() && r == #[trigger] spec_canonical_str(z)
}

/// Add a duration expression to a date/time string: the duration is
/// parsed by the span grammar, the date resolved through the cascade,
/// the span applied with calendar rules, and the result rendered in the
/// canonical zone-qualified form.
pub struct DtAdd;

impl DtAdd {
    /// Run the addition on plain inputs.  The duration is rejected, with
    /// the offending input named, exactly when the normalized text fails
    /// the span grammar; a datetime parse failure names the datetime
    /// input; overflow can only arise from the arithmetic itself.
    pub fn run(&self, input_datetime: &str, duration: &str) -> (r: Result<String, DtError>)
        ensures
            match r {
                Ok(t) => crate::span::spec_parse_span_text(
                    crate::span::spec_normalize_span_text(duration@),
                ) is Some && spec_canonical_of_some(t@),
                Err(e) => match e {
                    DtError::InvalidSpan(sp, _) => crate::span::spec_parse_span_text(
                        crate::span::spec_normalize_span_text(duration@),
                    ) is None && sp@ == duration@,
                    DtError::UnparseableDatetime(t) => crate::span::spec_parse_span_text(
                        crate::span::spec_normalize_span_text(duration@),
                    ) is Some && t@ == input_datetime@,
                    DtError::DateOverflow(_) => crate::span::spec_parse_span_text(
                        crate::span::spec_normalize_span_text(duration@),
                    ) is Some,
                    _ => false,
                },
            },
    {
        let span: CalendarSpan = match parse_duration_span(duration) {
            Ok(sp) => sp,
            Err(e) => {
                return Err(e);
            },
        };
        let z = match parse_datetime_string_add_nanos_optionally(
            input_datetime,
            None,
            Some(&span),
        ) {
            Ok(z) => z,
            Err(e) => {
                return Err(e);
            },
        };
        let out = render_canonical_string(&z);
        proof {
            assert(spec_canonical_of_some(out@));
        }
        Ok(out)
    }
}

/// Compute the difference between two dates, with configurable rounding
/// bounds or a single output unit.
pub struct DtDiff;

impl DtDiff {
    /// Run the difference on plain inputs, with the exact contract of
    /// [`crate::diff::calculate_date_diff`].
    pub fn run(
        &self,
        parameter_datetime: &str,
        piped_in_input: &str,
        biggest_unit_opt: Option<String>,
        smallest_unit_opt: Option<String>,
        as_unit_opt: Option<String>,
    ) -> (r: Result<String, DtError>)
        ensures
            match r {
                Ok(t) => !crate::diff::spec_conflicting_options(
                    biggest_unit_opt,
                    smallest_unit_opt,
                    as_unit_opt,
                ) && crate::diff::spec_diff_output(
                    t@,
                    match as_unit_opt {
                        Some(u) => crate::units::spec_unit_from_alias(u@),
                        None => None,
                    },
                ),
                Err(e) => match e {
                    DtError::ConflictingUnitOptions => crate::diff::spec_conflicting_options(
                        biggest_unit_opt,
                        smallest_unit_opt,
                        as_unit_opt,
                    ),
                    DtError::UnknownUnit(u) => {
                        &&& !crate::diff::spec_conflicting_options(
                            biggest_unit_opt,
                            smallest_unit_opt,
                            as_unit_opt,
                        )
                        &&& crate::units::spec_unit_from_alias(u@) is None
                        &&& ((as_unit_opt matches Some(a) && u@ == a@) || (
                        smallest_unit_opt matches Some(a) && u@ == a@) || (
                        biggest_unit_opt matches Some(a) && u@ == a@))
                    },
                    DtError::UnparseableDatetime(t) => t@ == piped_in_input@ || t@
                        == parameter_datetime@,
                    DtError::DateOverflow(_) => !crate::diff::spec_conflicting_options(
                        biggest_unit_opt,
                        smallest_unit_opt,
                        as_unit_opt,
                    ),
                    _ => false,
                },
            },
    {
        crate::diff::calculate_date_diff(
            parameter_datetime,
            piped_in_input,
            biggest_unit_opt,
            smallest_unit_opt,
            as_unit_opt,
        )
    }
}

/// The value of a field of some well-formed zoned value.
pub open spec fn spec_part_value_of_some(f: crate::part::PartField, v: int) -> bool {
    exists|z: ZonedValue| z.wf() && v == #[trigger] crate::part::spec_part_value(f, z)
}

/// Extract a single calendar field of a date/time as an integer.
pub struct DtPart;

impl DtPart {
    /// Run the extraction on plain inputs: a known alias on a parseable
    /// input yields exactly the field's value of the resolved zoned
    /// value; an unknown alias or an unparseable input is named in the
    /// error.
    pub fn run(&self, input_datetime: &str, unit: String) -> (r: Result<i16, DtError>)
        ensures
            match r {
                Ok(v) => crate::part::spec_part_field(unit@) matches Some(f)
                    && spec_part_value_of_some(f, v as int),
                Err(e) => match e {
                    DtError::UnknownUnit(u) => crate::part::spec_part_field(unit@)
                        is None && u@ == unit@,
                    DtError::UnparseableDatetime(t) => t@ == input_datetime@,
                    _ => false,
                },
            },
    {
        let z = match parse_datetime_string_add_nanos_optionally(
            input_datetime,
            None,
            None,
        ) {
            Ok(z) => z,
            Err(e) => {
                return Err(e);
            },
        };
        let ghost gz = z;
        let result = crate::part::get_part_from_zoned_as_i16(unit, z);
        proof {
            if let Ok(v) = result {
                if let Some(f) = crate::part::spec_part_field(unit@) {
                    assert(v as int == crate::part::spec_part_value(f, gz));
                }
            }
        }
        result
    }
}

/// The four standard renderings of one instant, produced together.
pub struct ToOutput {
    /// RFC 9557, the canonical zone-qualified form.
    pub rfc9557: String,
    /// RFC 3339, the instant in UTC.
    pub rfc3339: String,
    /// RFC 2822, as in mail headers.
    pub rfc2822: String,
    /// Strict ISO 8601 with numeric offset.
    pub iso8601: String,
}

/// Print a date/time in the four standard formats at once.
pub struct DtTo;

impl DtTo {
    /// Run the conversion on a plain input.
    pub fn run(&self, input_datetime: &str) -> (r: Result<ToOutput, DtError>)
        ensures
            match r {
                Ok(out) => exists|z: ZonedValue, u: ZonedValue|
                    {
                        &&& z.wf()
                        &&& u.wf()
                        &&& out.rfc9557@ == #[trigger] spec_canonical_str(z)
                        &&& out.rfc3339@ == #[trigger] spec_rfc3339_utc_str(u)
                        &&& u.spec_epoch_second() == z.spec_epoch_second()
                        &&& out.rfc2822@ == spec_rfc2822_str(z)
                        &&& out.iso8601@ == spec_iso8601_strict_str(z)
                    },
                Err(e) => e is UnparseableDatetime || e is DateOverflow,
            },
    {
        let z = parse_datetime_string_add_nanos_optionally(input_datetime, None, None)?;
        let u = to_utc(&z)?;
        let rfc9557 = render_canonical_string(&z);
        let rfc3339 = render_rfc3339_utc_string(&u);
        let rfc2822 = render_rfc2822_string(&z)?;
        let iso8601 = render_iso8601_strict_string(&z);
        let out = ToOutput { rfc9557, rfc3339, rfc2822, iso8601 };
        proof {
            assert(out.rfc9557@ == spec_canonical_str(z));
            assert(out.rfc3339@ == spec_rfc3339_utc_str(u));
        }
        Ok(out)
    }
}

/// A rendering of some well-formed zoned value in the strict ISO form.
pub open spec fn spec_iso_of_some(r: Seq<char>) -> bool {
    exists|z: ZonedValue| z.wf() && r == #[trigger] spec_iso8601_strict_str(z)
}

/// A rendering of some well-formed zoned value of a non-negative year
/// in the RFC 2822 form.
pub open spec fn spec_rfc2822_of_some(r: Seq<char>) -> bool {
    exists|z: ZonedValue| z.wf() && z.year >= 0 && r == #[trigger] spec_rfc2822_str(z)
}

/// Render a date/time by a strftime-style format string.
pub struct DtFormat;

impl DtFormat {
    /// Run the formatting on plain inputs.  The `%+` and `%c` templates
    /// are rendered by the library's own verified formatters — the
    /// output is then the strict ISO or RFC 2822 form of a well-formed
    /// zoned value; all other templates go to the formatting engine.  A
    /// failed parse names the datetime input, a template the engine
    /// rejects names the template.
    pub fn run(&self, input_datetime: &str, format_string: &str) -> (r: Result<
        String,
        DtError,
    >)
        ensures
            match r {
                Ok(t) => {
                    &&& (format_string@ == "%+"@ ==> spec_iso_of_some(t@))
                    &&& (format_string@ == "%c"@ ==> spec_rfc2822_of_some(t@))
                },
                Err(e) => match e {
                    DtError::UnparseableDatetime(t) => t@ == input_datetime@ || t@
                        == format_string@,
                    DtError::DateOverflow(_) => true,
                    _ => false,
                },
            },
    {
        let z = match parse_datetime_string_add_nanos_optionally(
            input_datetime,
            None,
            None,
        ) {
            Ok(z) => z,
            Err(e) => {
                return Err(e);
            },
        };
        proof {
            reveal_strlit("%+");
            reveal_strlit("%c");
            assert("%+"@.len() == 2 && "%c"@.len() == 2);
            assert("%+"@[1] == '+' && "%c"@[1] == 'c');
        }
        if str_eq(format_string, "%+") {
            let out = render_iso8601_strict_string(&z);
            proof {
                assert(spec_iso_of_some(out@));
            }
            return Ok(out);
        }
        if str_eq(format_string, "%c") {
            let rendered = render_rfc2822_string(&z);
            match rendered {
                Ok(out) => {
                    proof {
                        assert(spec_rfc2822_of_some(out@));
                    }
                    return Ok(out);
                },
                Err(e) => {
                    return Err(e);
                },
            }
        }
        let jz = match crate::jiffext::instant_in_zone(
            z.epoch_second(),
            z.subsec_nanosecond,
            &z.zone,
        ) {
            Ok(j) => j,
            Err(_) => {
                return Err(DtError::DateOverflow(String::from_str("format")));
            },
        };
        match crate::jiffext::strftime_format(format_string, &jz) {
            Ok(t) => Ok(t),
            Err(_) => Err(DtError::UnparseableDatetime(format_string.to_owned())),
        }
    }

    /// Format a Unix second count: the timestamp is first rendered as a
    /// plain UTC civil datetime, then resolved and formatted like any
    /// other input, with the same guarantees for the `%+` and `%c`
    /// templates.
    pub fn run_unix(&self, unix_timestamp: i64, format_string: &str) -> (r: Result<
        String,
        DtError,
    >)
        ensures
            match r {
                Ok(t) => {
                    &&& (format_string@ == "%+"@ ==> spec_iso_of_some(t@))
                    &&& (format_string@ == "%c"@ ==> spec_rfc2822_of_some(t@))
                },
                Err(e) => e is UnparseableDatetime || e is DateOverflow,
            },
    {
        let dt_str = match unix_timestamp_in_seconds_to_local_zoned(unix_timestamp) {
            Ok(t) => t,
            Err(e) => {
                return Err(e);
            },
        };
        self.run(dt_str.as_str(), format_string)
    }
}

/// The current date and time, as an instant handed in by the host.
pub struct Now;

impl Now {
    /// The epoch second and sub-second nanosecond pair of the given
    /// current instant.
    pub fn run(&self, now: &ZonedValue) -> (r: (i64, i32))
        requires
            now.wf(),
        ensures
            r.0 == now.spec_epoch_second(),
            r.1 == now.subsec_nanosecond,
    {
        (now.epoch_second(), now.subsec_nanosecond)
    }
}

/// The current date and time in UTC, as an instant handed in by the
/// host.
pub struct UtcNow;

impl UtcNow {
    /// The epoch second and sub-second nanosecond pair after converting
    /// the instant to UTC; conversion to UTC does not move the instant.
    pub fn run(&self, now: &ZonedValue) -> (r: Result<(i64, i32), DtError>)
        requires
            now.wf(),
        ensures
            match r {
                Ok(p) => p.0 == now.spec_epoch_second() && p.1 == now.subsec_nanosecond,
                Err(e) => e is DateOverflow,
            },
    {
        let u = to_utc(now)?;
        Ok((u.epoch_second(), u.subsec_nanosecond))
    }
}

} // verus!
