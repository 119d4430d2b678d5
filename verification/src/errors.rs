//! The error taxonomy shared by every fallible operation of the library.

use vstd::prelude::*;

verus! {

use vstd::string::StringExecFns;

/// Why an operation failed.  Each variant carries enough context to render
/// a precise message for the caller.
#[derive(Debug, Clone)]
pub enum DtError {
    /// The input string matched none of the resolver's parse strategies.
    UnparseableDatetime(String),
    /// A duration expression was malformed; holds the input and a reason.
    InvalidSpan(String, String),
    /// A unit alias not known to the registry; holds the offending input.
    UnknownUnit(String),
    /// A single output unit was requested together with explicit
    /// smallest/largest bounds; the two options are mutually exclusive.
    ConflictingUnitOptions,
    /// Arithmetic left the supported year range; holds the operation name.
    DateOverflow(String),
    /// A calendar field was out of range; holds the field name and value.
    InvalidCalendarField(String, i64),
}

impl DtError {
    /// A human-readable rendering of the error.
    pub fn message(&self) -> String {
        match self {
            DtError::UnparseableDatetime(s) => {
                let mut m = String::new();
                m.append(
                    "could not parse date/time string (tried short dates, zone-qualified timestamps, catalog formats, and bare timestamp, datetime, date and time forms): ",
                );
                m.append(s.as_str());
                m
            },
            DtError::InvalidSpan(s, reason) => {
                let mut m = String::new();
                m.append("could not parse duration ");
                m.append(s.as_str());
                m.append(": ");
                m.append(reason.as_str());
                m
            },
            DtError::UnknownUnit(s) => {
                let mut m = String::new();
                m.append("unknown unit name ");
                m.append(s.as_str());
                m.append(
                    "; please supply a valid unit name, see the list of abbreviations",
                );
                m
            },
            DtError::ConflictingUnitOptions => {
                let mut m = String::new();
                m.append(
                    "please provide either smallest/biggest or a single output unit; they are mutually exclusive",
                );
                m
            },
            DtError::DateOverflow(op) => {
                let mut m = String::new();
                m.append("date arithmetic overflowed the supported range in ");
                m.append(op.as_str());
                m
            },
            DtError::InvalidCalendarField(field, _value) => {
                let mut m = String::new();
                m.append("calendar field out of range: ");
                m.append(field.as_str());
                m
            },
        }
    }
}

} // verus!
