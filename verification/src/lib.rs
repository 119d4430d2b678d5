//! Calendar-aware date/time parsing, arithmetic, differencing and rendering.
//!
//! The library resolves human-entered date/time strings into zone-qualified
//! values, adds calendar spans to them, computes calendar-aware differences
//! with configurable rounding bounds, extracts single calendar fields, and
//! renders results in several standard textual forms.  Time-zone lookups and
//! the fallback parsing grammars of the `jiff` crate sit behind a small set
//! of trusted wrappers; everything around them is verified.

pub mod calendar;
pub mod commands;
pub mod diff;
pub mod errors;
pub mod format_list;
pub mod jiffext;
pub mod part;
pub mod render;
pub mod resolve;
pub mod span;
pub mod strutil;
pub mod units;
pub mod zoned;
