//! The format-specifier discovery listing: every strftime-style
//! specifier the formatting engine accepts, each with a live example
//! rendered from the given current instant and a short description.

use vstd::prelude::*;

verus! {

use crate::jiffext;
use crate::strutil::str_eq;
use crate::zoned::{ZonedValue, render_iso8601_strict_string, render_rfc2822_string};
use vstd::string::{StrSliceExecFns, StringExecFns};

/// One row of the format listing.
pub struct FormatEntry {
    /// The specifier itself.
    pub specification: String,
    /// The specifier rendered against the given current instant.
    pub example: String,
    /// What the specifier means.
    pub description: String,
}

/// The example column for one specifier: the library's own renderings
/// for `%+` and `%c`, escaped glyphs for `%n` and `%t`, and the
/// formatting engine for the rest (an empty example where it fails).
fn example_for(
    jz: &Option<jiff::Zoned>,
    spec: &str,
    iso_now: &String,
    rfc_now: &String,
) -> (r: String)
    ensures
        spec@ == "%+"@ ==> r@ == iso_now@,
        spec@ == "%c"@ ==> r@ == rfc_now@,
        spec@ == "%n"@ ==> r@ == "\\n"@,
        spec@ == "%t"@ ==> r@ == "\\t"@,
{
    proof {
        reveal_strlit("%+");
        reveal_strlit("%c");
        reveal_strlit("%n");
        reveal_strlit("%t");
        assert("%+"@.len() == 2 && "%c"@.len() == 2 && "%n"@.len() == 2 && "%t"@.len()
            == 2);
        assert("%+"@[1] == '+' && "%c"@[1] == 'c' && "%n"@[1] == 'n' && "%t"@[1] == 't');
    }
    if str_eq(spec, "%+") {
        return iso_now.clone();
    }
    if str_eq(spec, "%c") {
        return rfc_now.clone();
    }
    if str_eq(spec, "%n") {
        return String::from_str("\\n");
    }
    if str_eq(spec, "%t") {
        return String::from_str("\\t");
    }
    match jz {
        Some(j) => match jiffext::strftime_format(spec, j) {
            Ok(t) => t,
            Err(_) => String::new(),
        },
        None => String::new(),
    }
}

/// Generate the table of available datetime format specifiers, with
/// examples rendered from `now`.  With `show_parse_only_formats` the
/// parse-only specifiers are appended; that flag belongs to input
/// conversion, not to output formatting.
#[verifier::rlimit(100)]
pub fn generate_strftime_list(now: &ZonedValue, show_parse_only_formats: bool) -> (r:
    Vec<FormatEntry>)
    requires
        now.wf(),
    ensures
        r@.len() == if show_parse_only_formats {
            51int
        } else {
            50int
        },
        r@[0].specification@ == "%%"@,
        r@[0].description@ == "A literal %."@,
        r@[1].specification@ == "%+"@,
        r@[1].description@ == "ISO 8601 / RFC 3339 date & time format."@,
        r@[1].example@ == crate::zoned::spec_iso8601_strict_str(*now),
        r@[2].specification@ == "%A"@,
        r@[2].description@ == "The full weekday."@,
        r@[3].specification@ == "%a"@,
        r@[3].description@ == "The abbreviated weekday."@,
        r@[4].specification@ == "%B"@,
        r@[4].description@ == "The full month name."@,
        r@[5].specification@ == "%b"@,
        r@[5].description@ == "The abbreviated month name."@,
        r@[6].specification@ == "%h"@,
        r@[6].description@ == "The abbreviated month name."@,
        r@[7].specification@ == "%C"@,
        r@[7].description@ == "The century of the year. No padding."@,
        r@[8].specification@ == "%c"@,
        r@[8].description@ == "Locale's date and time in rfc2822 format (e.g., Wed, 2 Oct 2024 12:53:44 -0500)."@,
        now.year >= 0 ==> r@[8].example@ == crate::zoned::spec_rfc2822_str(*now),
        now.year < 0 ==> r@[8].example@ == Seq::<char>::empty(),
        r@[9].specification@ == "%D"@,
        r@[9].description@ == "Equivalent to %m/%d/%y."@,
        r@[10].specification@ == "%d"@,
        r@[10].description@ == "The day of the month. Zero-padded."@,
        r@[11].specification@ == "%e"@,
        r@[11].description@ == "The day of the month. Space padded."@,
        r@[12].specification@ == "%F"@,
        r@[12].description@ == "Equivalent to %Y-%m-%d."@,
        r@[13].specification@ == "%f"@,
        r@[13].description@ == "Fractional seconds, up to nanosecond precision."@,
        r@[14].specification@ == "%.f"@,
        r@[14].description@ == "Optional fractional seconds, with dot, up to nanosecond precision.."@,
        r@[15].specification@ == "%.3f"@,
        r@[15].description@ == "Similar to .%f but left-aligned but fixed to a length of 3."@,
        r@[16].specification@ == "%.6f"@,
        r@[16].description@ == "Similar to .%f but left-aligned but fixed to a length of 6."@,
        r@[17].specification@ == "%.9f"@,
        r@[17].description@ == "Similar to .%f but left-aligned but fixed to a length of 9."@,
        r@[18].specification@ == "%3f"@,
        r@[18].description@ == "Similar to %.3f but without the leading dot."@,
        r@[19].specification@ == "%6f"@,
        r@[19].description@ == "Similar to %.6f but without the leading dot."@,
        r@[20].specification@ == "%9f"@,
        r@[20].description@ == "Similar to %.9f but without the leading dot."@,
        r@[21].specification@ == "%G"@,
        r@[21].description@ == "An ISO 8601 week-based year. Zero padded to 4 digits."@,
        r@[22].specification@ == "%g"@,
        r@[22].description@ == "A two-digit ISO 8601 week-based year. Represents only 1969-2068. Zero padded."@,
        r@[23].specification@ == "%H"@,
        r@[23].description@ == "The hour in a 24 hour clock. Zero padded."@,
        r@[24].specification@ == "%I"@,
        r@[24].description@ == "The hour in a 12 hour clock. Zero padded."@,
        r@[25].specification@ == "%j"@,
        r@[25].description@ == "The day of the year. Range is 1..=366. Zero padded to 3 digits."@,
        r@[26].specification@ == "%k"@,
        r@[26].description@ == "The hour in a 24 hour clock. Space padded."@,
        r@[27].specification@ == "%l"@,
        r@[27].description@ == "The hour in a 12 hour clock. Space padded."@,
        r@[28].specification@ == "%M"@,
        r@[28].description@ == "The minute. Zero padded."@,
        r@[29].specification@ == "%m"@,
        r@[29].description@ == "The month. Zero padded."@,
        r@[30].specification@ == "%n"@,
        r@[30].description@ == "Formats as a newline character. Parses arbitrary whitespace."@,
        r@[30].example@ == "\\n"@,
        r@[31].specification@ == "%P"@,
        r@[31].description@ == "Whether the time is in the am or pm, lowercase. (am/pm)"@,
        r@[32].specification@ == "%p"@,
        r@[32].description@ == "Whether the time is in the AM or PM, uppercase. (AM/PM)"@,
        r@[33].specification@ == "%Q"@,
        r@[33].description@ == "An IANA time zone identifier, or %z if one doesn't exist."@,
        r@[34].specification@ == "%:Q"@,
        r@[34].description@ == "An IANA time zone identifier, or %:z if one doesn't exist."@,
        r@[35].specification@ == "%R"@,
        r@[35].description@ == "Equivalent to %H:%M."@,
        r@[36].specification@ == "%S"@,
        r@[36].description@ == "The second. Zero padded."@,
        r@[37].specification@ == "%s"@,
        r@[37].description@ == "A Unix timestamp, in seconds."@,
        r@[38].specification@ == "%T"@,
        r@[38].description@ == "Equivalent to %H:%M:%S."@,
        r@[39].specification@ == "%t"@,
        r@[39].description@ == "Formats as a tab character. Parses arbitrary whitespace."@,
        r@[39].example@ == "\\t"@,
        r@[40].specification@ == "%U"@,
        r@[40].description@ == "Week number. Week 1 is the first week starting with a Sunday. Zero padded."@,
        r@[41].specification@ == "%u"@,
        r@[41].description@ == "The day of the week beginning with Monday at 1."@,
        r@[42].specification@ == "%V"@,
        r@[42].description@ == "Week number in the ISO 8601 week-based calendar. Zero padded."@,
        r@[43].specification@ == "%W"@,
        r@[43].description@ == "Week number. Week 1 is the first week starting with a Monday. Zero padded."@,
        r@[44].specification@ == "%w"@,
        r@[44].description@ == "The day of the week beginning with Sunday at 0."@,
        r@[45].specification@ == "%Y"@,
        r@[45].description@ == "A full year, including century. Zero padded to 4 digits."@,
        r@[46].specification@ == "%y"@,
        r@[46].description@ == "A two-digit year. Represents only 1969-2068. Zero padded."@,
        r@[47].specification@ == "%Z"@,
        r@[47].description@ == "A time zone abbreviation. Supported when formatting only."@,
        r@[48].specification@ == "%z"@,
        r@[48].description@ == "A time zone offset in the format [+-]HHMM[SS]."@,
        r@[49].specification@ == "%:z"@,
        r@[49].description@ == "A time zone offset in the format [+-]HH:MM[:SS]."@,
        show_parse_only_formats ==> r@[50].specification@ == "%#z"@,
        show_parse_only_formats ==> r@[50].description@ == "Parsing only: Same as %z but allows minutes to be missing or present."@,
{
    let jz: Option<jiff::Zoned> = match jiffext::instant_in_zone(
        now.epoch_second(),
        now.subsec_nanosecond,
        &now.zone,
    ) {
        Ok(j) => Some(j),
        Err(_) => None,
    };
    let iso_now = render_iso8601_strict_string(now);
    let rfc_now = match render_rfc2822_string(now) {
        Ok(t) => t,
        Err(_) => String::new(),
    };
    let mut records: Vec<FormatEntry> = Vec::new();
    records.push(
        FormatEntry {
            specification: String::from_str("%%"),
            example: example_for(&jz, "%%", &iso_now, &rfc_now),
            description: String::from_str("A literal %."),
        },
    );
    records.push(
        FormatEntry {
            specification: String::from_str("%+"),
            example: example_for(&jz, "%+", &iso_now, &rfc_now),
            description: String::from_str("ISO 8601 / RFC 3339 date & time format."),
        },
    );
    records.push(
        FormatEntry {
            specification: String::from_str("%A"),
            example: example_for(&jz, "%A", &iso_now, &rfc_now),
            description: String::from_str("The full weekday."),
        },
    );
    records.push(
        FormatEntry {
            specification: String::from_str("%a"),
            example: example_for(&jz, "%a", &iso_now, &rfc_now),
            description: String::from_str("The abbreviated weekday."),
        },
    );
    records.push(
        FormatEntry {
            specification: String::from_str("%B"),
            example: example_for(&jz, "%B", &iso_now, &rfc_now),
            description: String::from_str("The full month name."),
        },
    );
    records.push(
        FormatEntry {
            specification: String::from_str("%b"),
            example: example_for(&jz, "%b", &iso_now, &rfc_now),
            description: String::from_str("The abbreviated month name."),
        },
    );
    records.push(
        FormatEntry {
            specification: String::from_str("%h"),
            example: example_for(&jz, "%h", &iso_now, &rfc_now),
            description: String::from_str("The abbreviated month name."),
        },
    );
    records.push(
        FormatEntry {
            specification: String::from_str("%C"),
            example: example_for(&jz, "%C", &iso_now, &rfc_now),
            description: String::from_str("The century of the year. No padding."),
        },
    );
    records.push(
        FormatEntry {
            specification: String::from_str("%c"),
            example: example_for(&jz, "%c", &iso_now, &rfc_now),
            description: String::from_str("Locale's date and time in rfc2822 format (e.g., Wed, 2 Oct 2024 12:53:44 -0500)."),
        },
    );
    records.push(
        FormatEntry {
            specification: String::from_str("%D"),
            example: example_for(&jz, "%D", &iso_now, &rfc_now),
            description: String::from_str("Equivalent to %m/%d/%y."),
        },
    );
    records.push(
        FormatEntry {
            specification: String::from_str("%d"),
            example: example_for(&jz, "%d", &iso_now, &rfc_now),
            description: String::from_str("The day of the month. Zero-padded."),
        },
    );
    records.push(
        FormatEntry {
            specification: String::from_str("%e"),
            example: example_for(&jz, "%e", &iso_now, &rfc_now),
            description: String::from_str("The day of the month. Space padded."),
        },
    );
    records.push(
        FormatEntry {
            specification: String::from_str("%F"),
            example: example_for(&jz, "%F", &iso_now, &rfc_now),
            description: String::from_str("Equivalent to %Y-%m-%d."),
        },
    );
    records.push(
        FormatEntry {
            specification: String::from_str("%f"),
            example: example_for(&jz, "%f", &iso_now, &rfc_now),
            description: String::from_str("Fractional seconds, up to nanosecond precision."),
        },
    );
    records.push(
        FormatEntry {
            specification: String::from_str("%.f"),
            example: example_for(&jz, "%.f", &iso_now, &rfc_now),
            description: String::from_str("Optional fractional seconds, with dot, up to nanosecond precision.."),
        },
    );
    records.push(
        FormatEntry {
            specification: String::from_str("%.3f"),
            example: example_for(&jz, "%.3f", &iso_now, &rfc_now),
            description: String::from_str("Similar to .%f but left-aligned but fixed to a length of 3."),
        },
    );
    records.push(
        FormatEntry {
            specification: String::from_str("%.6f"),
            example: example_for(&jz, "%.6f", &iso_now, &rfc_now),
            description: String::from_str("Similar to .%f but left-aligned but fixed to a length of 6."),
        },
    );
    records.push(
        FormatEntry {
            specification: String::from_str("%.9f"),
            example: example_for(&jz, "%.9f", &iso_now, &rfc_now),
            description: String::from_str("Similar to .%f but left-aligned but fixed to a length of 9."),
        },
    );
    records.push(
        FormatEntry {
            specification: String::from_str("%3f"),
            example: example_for(&jz, "%3f", &iso_now, &rfc_now),
            description: String::from_str("Similar to %.3f but without the leading dot."),
        },
    );
    records.push(
        FormatEntry {
            specification: String::from_str("%6f"),
            example: example_for(&jz, "%6f", &iso_now, &rfc_now),
            description: String::from_str("Similar to %.6f but without the leading dot."),
        },
    );
    records.push(
        FormatEntry {
            specification: String::from_str("%9f"),
            example: example_for(&jz, "%9f", &iso_now, &rfc_now),
            description: String::from_str("Similar to %.9f but without the leading dot."),
        },
    );
    records.push(
        FormatEntry {
            specification: String::from_str("%G"),
            example: example_for(&jz, "%G", &iso_now, &rfc_now),
            description: String::from_str("An ISO 8601 week-based year. Zero padded to 4 digits."),
        },
    );
    records.push(
        FormatEntry {
            specification: String::from_str("%g"),
            example: example_for(&jz, "%g", &iso_now, &rfc_now),
            description: String::from_str("A two-digit ISO 8601 week-based year. Represents only 1969-2068. Zero padded."),
        },
    );
    records.push(
        FormatEntry {
            specification: String::from_str("%H"),
            example: example_for(&jz, "%H", &iso_now, &rfc_now),
            description: String::from_str("The hour in a 24 hour clock. Zero padded."),
        },
    );
    records.push(
        FormatEntry {
            specification: String::from_str("%I"),
            example: example_for(&jz, "%I", &iso_now, &rfc_now),
            description: String::from_str("The hour in a 12 hour clock. Zero padded."),
        },
    );
    records.push(
        FormatEntry {
            specification: String::from_str("%j"),
            example: example_for(&jz, "%j", &iso_now, &rfc_now),
            description: String::from_str("The day of the year. Range is 1..=366. Zero padded to 3 digits."),
        },
    );
    records.push(
        FormatEntry {
            specification: String::from_str("%k"),
            example: example_for(&jz, "%k", &iso_now, &rfc_now),
            description: String::from_str("The hour in a 24 hour clock. Space padded."),
        },
    );
    records.push(
        FormatEntry {
            specification: String::from_str("%l"),
            example: example_for(&jz, "%l", &iso_now, &rfc_now),
            description: String::from_str("The hour in a 12 hour clock. Space padded."),
        },
    );
    records.push(
        FormatEntry {
            specification: String::from_str("%M"),
            example: example_for(&jz, "%M", &iso_now, &rfc_now),
            description: String::from_str("The minute. Zero padded."),
        },
    );
    records.push(
        FormatEntry {
            specification: String::from_str("%m"),
            example: example_for(&jz, "%m", &iso_now, &rfc_now),
            description: String::from_str("The month. Zero padded."),
        },
    );
    records.push(
        FormatEntry {
            specification: String::from_str("%n"),
            example: example_for(&jz, "%n", &iso_now, &rfc_now),
            description: String::from_str("Formats as a newline character. Parses arbitrary whitespace."),
        },
    );
    records.push(
        FormatEntry {
            specification: String::from_str("%P"),
            example: example_for(&jz, "%P", &iso_now, &rfc_now),
            description: String::from_str("Whether the time is in the am or pm, lowercase. (am/pm)"),
        },
    );
    records.push(
        FormatEntry {
            specification: String::from_str("%p"),
            example: example_for(&jz, "%p", &iso_now, &rfc_now),
            description: String::from_str("Whether the time is in the AM or PM, uppercase. (AM/PM)"),
        },
    );
    records.push(
        FormatEntry {
            specification: String::from_str("%Q"),
            example: example_for(&jz, "%Q", &iso_now, &rfc_now),
            description: String::from_str("An IANA time zone identifier, or %z if one doesn't exist."),
        },
    );
    records.push(
        FormatEntry {
            specification: String::from_str("%:Q"),
            example: example_for(&jz, "%:Q", &iso_now, &rfc_now),
            description: String::from_str("An IANA time zone identifier, or %:z if one doesn't exist."),
        },
    );
    records.push(
        FormatEntry {
            specification: String::from_str("%R"),
            example: example_for(&jz, "%R", &iso_now, &rfc_now),
            description: String::from_str("Equivalent to %H:%M."),
        },
    );
    records.push(
        FormatEntry {
            specification: String::from_str("%S"),
            example: example_for(&jz, "%S", &iso_now, &rfc_now),
            description: String::from_str("The second. Zero padded."),
        },
    );
    records.push(
        FormatEntry {
            specification: String::from_str("%s"),
            example: example_for(&jz, "%s", &iso_now, &rfc_now),
            description: String::from_str("A Unix timestamp, in seconds."),
        },
    );
    records.push(
        FormatEntry {
            specification: String::from_str("%T"),
            example: example_for(&jz, "%T", &iso_now, &rfc_now),
            description: String::from_str("Equivalent to %H:%M:%S."),
        },
    );
    records.push(
        FormatEntry {
            specification: String::from_str("%t"),
            example: example_for(&jz, "%t", &iso_now, &rfc_now),
            description: String::from_str("Formats as a tab character. Parses arbitrary whitespace."),
        },
    );
    records.push(
        FormatEntry {
            specification: String::from_str("%U"),
            example: example_for(&jz, "%U", &iso_now, &rfc_now),
            description: String::from_str("Week number. Week 1 is the first week starting with a Sunday. Zero padded."),
        },
    );
    records.push(
        FormatEntry {
            specification: String::from_str("%u"),
            example: example_for(&jz, "%u", &iso_now, &rfc_now),
            description: String::from_str("The day of the week beginning with Monday at 1."),
        },
    );
    records.push(
        FormatEntry {
            specification: String::from_str("%V"),
            example: example_for(&jz, "%V", &iso_now, &rfc_now),
            description: String::from_str("Week number in the ISO 8601 week-based calendar. Zero padded."),
        },
    );
    records.push(
        FormatEntry {
            specification: String::from_str("%W"),
            example: example_for(&jz, "%W", &iso_now, &rfc_now),
            description: String::from_str("Week number. Week 1 is the first week starting with a Monday. Zero padded."),
        },
    );
    records.push(
        FormatEntry {
            specification: String::from_str("%w"),
            example: example_for(&jz, "%w", &iso_now, &rfc_now),
            description: String::from_str("The day of the week beginning with Sunday at 0."),
        },
    );
    records.push(
        FormatEntry {
            specification: String::from_str("%Y"),
            example: example_for(&jz, "%Y", &iso_now, &rfc_now),
            description: String::from_str("A full year, including century. Zero padded to 4 digits."),
        },
    );
    records.push(
        FormatEntry {
            specification: String::from_str("%y"),
            example: example_for(&jz, "%y", &iso_now, &rfc_now),
            description: String::from_str("A two-digit year. Represents only 1969-2068. Zero padded."),
        },
    );
    records.push(
        FormatEntry {
            specification: String::from_str("%Z"),
            example: example_for(&jz, "%Z", &iso_now, &rfc_now),
            description: String::from_str("A time zone abbreviation. Supported when formatting only."),
        },
    );
    records.push(
        FormatEntry {
            specification: String::from_str("%z"),
            example: example_for(&jz, "%z", &iso_now, &rfc_now),
            description: String::from_str("A time zone offset in the format [+-]HHMM[SS]."),
        },
    );
    records.push(
        FormatEntry {
            specification: String::from_str("%:z"),
            example: example_for(&jz, "%:z", &iso_now, &rfc_now),
            description: String::from_str("A time zone offset in the format [+-]HH:MM[:SS]."),
        },
    );
    if show_parse_only_formats {
        // The formatting engine cannot render a parse-only specifier, so
        // its example is the hour part of the offset.
        let offset_example = match &jz {
            Some(j) => match jiffext::strftime_format("%:z", j) {
                Ok(t) => {
                    if t.as_str().unicode_len() >= 3 {
                        t.as_str().substring_char(0, 3).to_owned()
                    } else {
                        String::new()
                    }
                },
                Err(_) => String::new(),
            },
            None => String::new(),
        };
        records.push(
            FormatEntry {
                specification: String::from_str("%#z"),
                example: offset_example,
                description: String::from_str(
                    "Parsing only: Same as %z but allows minutes to be missing or present.",
                ),
            },
        );
    }
    records
}

} // verus!
