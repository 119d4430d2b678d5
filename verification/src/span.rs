//! Calendar spans: the signed mixed-unit duration type, the normalization
//! of human-written duration text, and the verified parser for the
//! ISO-8601-like duration grammar.
//!
//! The grammar accepted by [`parse_duration_span`] is
//! `[+|-] P (<n>y)? (<n>m)? (<n>w)? (<n>d)? (T (<n>h)? (<n>m)? (<n>s)?)?`
//! with case-insensitive designators and units in strictly this order, at
//! least one unit present.  The last time unit (hour, minute or second)
//! may carry a fractional part of one to nine digits, opened by `.` or
//! `,`, which closes the text; a fraction of an hour or minute is spread
//! exactly over the finer units.  A missing leading `P` is inserted
//! first, and a leading sign is relocated before the inserted `P`.

use vstd::prelude::*;

verus! {

use crate::errors::DtError;
use crate::strutil::{
    spec_is_digit,
    spec_dec_val,
    spec_all_digits,
    spec_num_end,
    is_digit,
    digit_val,
    lemma_num_end_props,
    lemma_dec_val_prefix_le,
    lemma_dec_val_nonneg,
};
use vstd::string::{StrSliceExecFns, StringExecFns};

/// Largest magnitude each unit component may carry.
pub const MAX_SPAN_YEARS: i64 = 19998;

/// Largest month component magnitude.
pub const MAX_SPAN_MONTHS: i64 = 239976;

/// Largest week component magnitude.
pub const MAX_SPAN_WEEKS: i64 = 1043497;

/// Largest day component magnitude.
pub const MAX_SPAN_DAYS: i64 = 7304484;

/// Largest hour component magnitude.
pub const MAX_SPAN_HOURS: i64 = 175307616;

/// Largest minute component magnitude.
pub const MAX_SPAN_MINUTES: i64 = 10518456960;

/// Largest second component magnitude.
pub const MAX_SPAN_SECONDS: i64 = 631107417600;

/// Largest millisecond component magnitude.
pub const MAX_SPAN_MILLIS: i64 = 631107417600000;

/// Largest microsecond component magnitude.
pub const MAX_SPAN_MICROS: i64 = 631107417600000000;

/// A signed calendar-aware duration with one component per unit.
/// All active components carry the same sign.
#[derive(Clone, Copy, Debug, PartialEq, Eq, Structural)]
pub struct CalendarSpan {
    /// Years component.
    pub years: i64,
    /// Months component.
    pub months: i64,
    /// Weeks component.
    pub weeks: i64,
    /// Days component.
    pub days: i64,
    /// Hours component.
    pub hours: i64,
    /// Minutes component.
    pub minutes: i64,
    /// Seconds component.
    pub seconds: i64,
    /// Milliseconds component.
    pub milliseconds: i64,
    /// Microseconds component.
    pub microseconds: i64,
    /// Nanoseconds component.
    pub nanoseconds: i64,
}

impl CalendarSpan {
    /// The zero span.
    pub fn zero() -> (r: CalendarSpan)
        ensures
            r == CalendarSpan::spec_zero(),
    {
        CalendarSpan {
            years: 0,
            months: 0,
            weeks: 0,
            days: 0,
            hours: 0,
            minutes: 0,
            seconds: 0,
            milliseconds: 0,
            microseconds: 0,
            nanoseconds: 0,
        }
    }

    /// The zero span.
    pub open spec fn spec_zero() -> CalendarSpan {
        CalendarSpan {
            years: 0,
            months: 0,
            weeks: 0,
            days: 0,
            hours: 0,
            minutes: 0,
            seconds: 0,
            milliseconds: 0,
            microseconds: 0,
            nanoseconds: 0,
        }
    }

    /// Every component is within its unit's supported magnitude.
    pub open spec fn in_range(self) -> bool {
        &&& -MAX_SPAN_YEARS <= self.years <= MAX_SPAN_YEARS
        &&& -MAX_SPAN_MONTHS <= self.months <= MAX_SPAN_MONTHS
        &&& -MAX_SPAN_WEEKS <= self.weeks <= MAX_SPAN_WEEKS
        &&& -MAX_SPAN_DAYS <= self.days <= MAX_SPAN_DAYS
        &&& -MAX_SPAN_HOURS <= self.hours <= MAX_SPAN_HOURS
        &&& -MAX_SPAN_MINUTES <= self.minutes <= MAX_SPAN_MINUTES
        &&& -MAX_SPAN_SECONDS <= self.seconds <= MAX_SPAN_SECONDS
        &&& -MAX_SPAN_MILLIS <= self.milliseconds <= MAX_SPAN_MILLIS
        &&& -MAX_SPAN_MICROS <= self.microseconds <= MAX_SPAN_MICROS
        &&& -9223372036854775807 <= self.nanoseconds
    }

    /// All components are non-negative.
    pub open spec fn all_nonneg(self) -> bool {
        &&& self.years >= 0
        &&& self.months >= 0
        &&& self.weeks >= 0
        &&& self.days >= 0
        &&& self.hours >= 0
        &&& self.minutes >= 0
        &&& self.seconds >= 0
        &&& self.milliseconds >= 0
        &&& self.microseconds >= 0
        &&& self.nanoseconds >= 0
    }

    /// All components are non-positive.
    pub open spec fn all_nonpos(self) -> bool {
        &&& self.years <= 0
        &&& self.months <= 0
        &&& self.weeks <= 0
        &&& self.days <= 0
        &&& self.hours <= 0
        &&& self.minutes <= 0
        &&& self.seconds <= 0
        &&& self.milliseconds <= 0
        &&& self.microseconds <= 0
        &&& self.nanoseconds <= 0
    }

    /// Well-formedness: components in range and of one sign.
    pub open spec fn wf(self) -> bool {
        &&& self.in_range()
        &&& (self.all_nonneg() || self.all_nonpos())
    }

    /// Negate every component.
    pub fn negated(self) -> (r: CalendarSpan)
        requires
            self.in_range(),
            self.nanoseconds > i64::MIN,
        ensures
            r == self.spec_negated(),
    {
        CalendarSpan {
            years: -self.years,
            months: -self.months,
            weeks: -self.weeks,
            days: -self.days,
            hours: -self.hours,
            minutes: -self.minutes,
            seconds: -self.seconds,
            milliseconds: -self.milliseconds,
            microseconds: -self.microseconds,
            nanoseconds: -self.nanoseconds,
        }
    }

    /// The span with every component negated.
    pub open spec fn spec_negated(self) -> CalendarSpan {
        CalendarSpan {
            years: (-self.years) as i64,
            months: (-self.months) as i64,
            weeks: (-self.weeks) as i64,
            days: (-self.days) as i64,
            hours: (-self.hours) as i64,
            minutes: (-self.minutes) as i64,
            seconds: (-self.seconds) as i64,
            milliseconds: (-self.milliseconds) as i64,
            microseconds: (-self.microseconds) as i64,
            nanoseconds: (-self.nanoseconds) as i64,
        }
    }
}

/// Duration text normalization: insert the `P` designator where the
/// grammar tolerates its absence, relocating it after a leading sign.
/// A signed token of length two or less is left untouched.
pub open spec fn spec_normalize_span_text(s: Seq<char>) -> Seq<char> {
    if s.len() > 0 && (s[0] == '+' || s[0] == '-') {
        if s.len() > 2 && s[1] != 'P' {
            s.subrange(0, 1) + seq!['P'] + s.subrange(1, s.len() as int)
        } else {
            s
        }
    } else if !(s.len() > 0 && s[0] == 'P') {
        seq!['P'] + s
    } else {
        s
    }
}

/// Normalize duration text as the grammar expects it.
pub fn normalize_span_text(s: &str) -> (r: String)
    ensures
        r@ == spec_normalize_span_text(s@),
{
    let len = s.unicode_len();
    if len > 0 && (s.get_char(0) == '+' || s.get_char(0) == '-') {
        if len > 2 && s.get_char(1) != 'P' {
            let mut out = s.substring_char(0, 1).to_owned();
            out.append("P");
            out.append(s.substring_char(1, len));
            proof {
                reveal_strlit("P");
                assert(out@ =~= spec_normalize_span_text(s@));
            }
            out
        } else {
            s.to_owned()
        }
    } else if !(len > 0 && s.get_char(0) == 'P') {
        let mut out = String::new();
        out.append("P");
        out.append(s);
        proof {
            reveal_strlit("P");
            assert(out@ =~= spec_normalize_span_text(s@));
        }
        out
    } else {
        s.to_owned()
    }
}

} // verus!

verus! {

/// Ten to the power `k`, for the small exponents of a fractional part.
pub open spec fn spec_pow10(k: int) -> int {
    if k <= 0 {
        1
    } else if k == 1 {
        10
    } else if k == 2 {
        100
    } else if k == 3 {
        1000
    } else if k == 4 {
        10000
    } else if k == 5 {
        100000
    } else if k == 6 {
        1000000
    } else if k == 7 {
        10000000
    } else if k == 8 {
        100000000
    } else {
        1000000000
    }
}

/// The functional specification of the duration grammar, from the cursor
/// `i` to the end of the text.  `in_time` tells whether the `T`
/// designator has been passed, `next_stage` is the first unit still
/// allowed in the current section (date: 0 years, 1 months, 2 weeks,
/// 3 days; time: 0 hours, 1 minutes, 2 seconds), and `seen` whether any
/// unit has been read yet.
pub open spec fn spec_parse_units(
    s: Seq<char>,
    i: int,
    in_time: bool,
    next_stage: int,
    seen: bool,
    acc: CalendarSpan,
) -> Option<CalendarSpan>
    decreases s.len() - i,
    when 0 <= i <= s.len()
    via spec_parse_units_dec
{
    if i == s.len() {
        if seen {
            Some(acc)
        } else {
            None
        }
    } else {
        let j = spec_num_end(s, i);
        if j == i {
            // No digits here: only the time designator may follow, and it
            // must introduce at least one time unit.
            if !in_time && (s[i] == 'T' || s[i] == 't') && i + 1 < s.len()
                && spec_num_end(s, i + 1) > i + 1 {
                spec_parse_units(s, i + 1, true, 0, seen, acc)
            } else {
                None
            }
        } else if j >= s.len() {
            // A number with no unit letter after it.
            None
        } else {
            let v = spec_dec_val(s.subrange(i, j));
            let c = s[j];
            if in_time && (c == '.' || c == ',') {
                // A fractional part: up to nine digits, closed by an
                // hour, minute or seconds designator, ending the text.
                // The fraction is scaled to nine digits of its unit and
                // spread exactly over the finer units.
                let j2 = spec_num_end(s, j + 1);
                if j2 > j + 1 && j2 - (j + 1) <= 9 && j2 < s.len() && j2 + 1 == s.len() {
                    let f = spec_dec_val(s.subrange(j + 1, j2)) * spec_pow10(
                        9 - (j2 - (j + 1)),
                    );
                    let cu = s[j2];
                    if (cu == 'h' || cu == 'H') && next_stage <= 0 && v
                        <= MAX_SPAN_HOURS {
                        let t = f * 3600;
                        Some(
                            CalendarSpan {
                                hours: v as i64,
                                minutes: (t / 60000000000) as i64,
                                seconds: ((t / 1000000000) % 60) as i64,
                                milliseconds: ((t / 1000000) % 1000) as i64,
                                microseconds: ((t / 1000) % 1000) as i64,
                                nanoseconds: (t % 1000) as i64,
                                ..acc
                            },
                        )
                    } else if (cu == 'm' || cu == 'M') && next_stage <= 1 && v
                        <= MAX_SPAN_MINUTES {
                        let t = f * 60;
                        Some(
                            CalendarSpan {
                                minutes: v as i64,
                                seconds: (t / 1000000000) as i64,
                                milliseconds: ((t / 1000000) % 1000) as i64,
                                microseconds: ((t / 1000) % 1000) as i64,
                                nanoseconds: (t % 1000) as i64,
                                ..acc
                            },
                        )
                    } else if (cu == 's' || cu == 'S') && next_stage <= 2 && v
                        <= MAX_SPAN_SECONDS {
                        Some(
                            CalendarSpan {
                                seconds: v as i64,
                                milliseconds: (f / 1000000) as i64,
                                microseconds: ((f / 1000) % 1000) as i64,
                                nanoseconds: (f % 1000) as i64,
                                ..acc
                            },
                        )
                    } else {
                        None
                    }
                } else {
                    None
                }
            } else if !in_time {
                if (c == 'y' || c == 'Y') && next_stage <= 0 && v <= MAX_SPAN_YEARS {
                    spec_parse_units(
                        s,
                        j + 1,
                        false,
                        1,
                        true,
                        CalendarSpan { years: v as i64, ..acc },
                    )
                } else if (c == 'm' || c == 'M') && next_stage <= 1 && v
                    <= MAX_SPAN_MONTHS {
                    spec_parse_units(
                        s,
                        j + 1,
                        false,
                        2,
                        true,
                        CalendarSpan { months: v as i64, ..acc },
                    )
                } else if (c == 'w' || c == 'W') && next_stage <= 2 && v
                    <= MAX_SPAN_WEEKS {
                    spec_parse_units(
                        s,
                        j + 1,
                        false,
                        3,
                        true,
                        CalendarSpan { weeks: v as i64, ..acc },
                    )
                } else if (c == 'd' || c == 'D') && next_stage <= 3 && v <= MAX_SPAN_DAYS {
                    spec_parse_units(
                        s,
                        j + 1,
                        false,
                        4,
                        true,
                        CalendarSpan { days: v as i64, ..acc },
                    )
                } else {
                    None
                }
            } else {
                if (c == 'h' || c == 'H') && next_stage <= 0 && v <= MAX_SPAN_HOURS {
                    spec_parse_units(
                        s,
                        j + 1,
                        true,
                        1,
                        true,
                        CalendarSpan { hours: v as i64, ..acc },
                    )
                } else if (c == 'm' || c == 'M') && next_stage <= 1 && v
                    <= MAX_SPAN_MINUTES {
                    spec_parse_units(
                        s,
                        j + 1,
                        true,
                        2,
                        true,
                        CalendarSpan { minutes: v as i64, ..acc },
                    )
                } else if (c == 's' || c == 'S') && next_stage <= 2 && v
                    <= MAX_SPAN_SECONDS {
                    spec_parse_units(
                        s,
                        j + 1,
                        true,
                        3,
                        true,
                        CalendarSpan { seconds: v as i64, ..acc },
                    )
                } else {
                    None
                }
            }
        }
    }
}

#[via_fn]
proof fn spec_parse_units_dec(
    s: Seq<char>,
    i: int,
    in_time: bool,
    next_stage: int,
    seen: bool,
    acc: CalendarSpan,
) {
    if 0 <= i <= s.len() {
        crate::strutil::lemma_num_end_props(s, i);
        if i < s.len() {
            crate::strutil::lemma_num_end_props(s, i + 1);
        }
    }
}

/// What the whole duration text denotes: an optional sign, the `P`
/// designator, then the unit sequence; a leading `-` negates every
/// component of the result.
pub open spec fn spec_parse_span_text(s: Seq<char>) -> Option<CalendarSpan> {
    let neg = s.len() > 0 && s[0] == '-';
    let i0: int = if s.len() > 0 && (s[0] == '+' || s[0] == '-') {
        1
    } else {
        0
    };
    if i0 < s.len() && (s[i0] == 'P' || s[i0] == 'p') {
        match spec_parse_units(s, i0 + 1, false, 0, false, CalendarSpan::spec_zero()) {
            Some(sp) => Some(
                if neg {
                    sp.spec_negated()
                } else {
                    sp
                },
            ),
            None => None,
        }
    } else {
        None
    }
}

} // verus!

verus! {

/// Scan the run of decimal digits starting at `i`.
fn scan_digits(s: &str, i: usize) -> (j: usize)
    requires
        i <= s@.len(),
    ensures
        j == spec_num_end(s@, i as int),
        i <= j <= s@.len(),
{
    let len = s.unicode_len();
    let mut j: usize = i;
    proof {
        lemma_num_end_props(s@, i as int);
    }
    while j < len && is_digit(s.get_char(j))
        invariant
            i <= j <= len,
            len == s@.len(),
            spec_num_end(s@, i as int) == spec_num_end(s@, j as int),
        decreases len - j,
    {
        j = j + 1;
    }
    proof {
        lemma_num_end_props(s@, j as int);
    }
    j
}

/// A cap above every per-unit magnitude limit; values above it can only
/// be rejected, so their exact size need not be computed.
const VALUE_CAP: i64 = 700000000000000000;

/// Evaluate the digits `s[i..j)` as a number, or report that the value
/// exceeds the cap.
fn dec_value_capped(s: &str, i: usize, j: usize) -> (r: Option<i64>)
    requires
        i <= j <= s@.len(),
        forall|k: int| i <= k < j ==> spec_is_digit(s@[k]),
    ensures
        match r {
            Some(v) => v == spec_dec_val(s@.subrange(i as int, j as int)) && 0 <= v
                <= VALUE_CAP,
            None => spec_dec_val(s@.subrange(i as int, j as int)) > VALUE_CAP,
        },
{
    let mut k: usize = i;
    let mut acc: i64 = 0;
    while k < j
        invariant
            i <= k <= j <= s@.len(),
            forall|t: int| i <= t < j ==> spec_is_digit(s@[t]),
            0 <= acc <= VALUE_CAP,
            acc == spec_dec_val(s@.subrange(i as int, k as int)),
        decreases j - k,
    {
        let d = digit_val(s.get_char(k));
        proof {
            assert(s@.subrange(i as int, k + 1).drop_last() =~= s@.subrange(
                i as int,
                k as int,
            ));
        }
        if acc > (VALUE_CAP - (d as i64)) / 10 {
            proof {
                vstd::arithmetic::div_mod::lemma_fundamental_div_mod(
                    VALUE_CAP - d,
                    10,
                );
                vstd::arithmetic::div_mod::lemma_mod_pos_bound(VALUE_CAP - d, 10);
                assert(spec_dec_val(s@.subrange(i as int, k + 1)) > VALUE_CAP);
                assert(spec_all_digits(s@.subrange(i as int, j as int)));
                assert(s@.subrange(i as int, j as int).subrange(0, k + 1 - i) =~= s@
                    .subrange(i as int, k + 1));
                assert(s@.subrange(i as int, j as int).subrange(0, j - i) =~= s@.subrange(
                    i as int,
                    j as int,
                ));
                lemma_dec_val_prefix_le(s@.subrange(i as int, j as int), k + 1 - i, j - i);
            }
            return None;
        }
        proof {
            vstd::arithmetic::div_mod::lemma_fundamental_div_mod(VALUE_CAP - d, 10);
            vstd::arithmetic::div_mod::lemma_mod_pos_bound(VALUE_CAP - d, 10);
        }
        acc = acc * 10 + (d as i64);
        k = k + 1;
    }
    proof {
        assert(s@.subrange(i as int, j as int) =~= s@.subrange(i as int, k as int));
    }
    Some(acc)
}

} // verus!

verus! {

/// The unit sequence parser, the executable mirror of
/// [`spec_parse_units`].
fn parse_units(
    s: &str,
    i: usize,
    in_time: bool,
    next_stage: u8,
    seen: bool,
    acc: CalendarSpan,
) -> (r: Option<CalendarSpan>)
    requires
        i <= s@.len(),
    ensures
        r == spec_parse_units(s@, i as int, in_time, next_stage as int, seen, acc),
    decreases s@.len() - i,
{
    let len = s.unicode_len();
    if i == len {
        if seen {
            return Some(acc);
        } else {
            return None;
        }
    }
    let j = scan_digits(s, i);
    proof {
        lemma_num_end_props(s@, i as int);
    }
    if j == i {
        let c = s.get_char(i);
        if !in_time && (c == 'T' || c == 't') && i + 1 < len {
            let j2 = scan_digits(s, i + 1);
            if j2 > i + 1 {
                return parse_units(s, i + 1, true, 0, seen, acc);
            } else {
                return None;
            }
        } else {
            return None;
        }
    }
    if j >= len {
        return None;
    }
    let v_opt = dec_value_capped(s, i, j);
    let c = s.get_char(j);
    if in_time && (c == '.' || c == ',') {
        let j2 = scan_digits(s, j + 1);
        proof {
            lemma_num_end_props(s@, j + 1);
        }
        if j2 > j + 1 && j2 - (j + 1) <= 9 && j2 < len && j2 + 1 == len {
            let f_opt = dec_value_capped(s, j + 1, j2);
            let fv = match f_opt {
                Some(fv) => fv,
                None => {
                    proof {
                        lemma_dec_val_digits_bound(s@.subrange(j + 1, j2 as int));
                    }
                    return None;
                },
            };
            let ghost nd = j2 - (j + 1);
            proof {
                lemma_dec_val_digits_bound(s@.subrange(j + 1, j2 as int));
                lemma_pow10_complement(nd as int);
            }
            let scale = pow10_small((9 - (j2 - (j + 1))) as u8);
            proof {
                assert(fv * scale < 1000000000) by (nonlinear_arith)
                    requires
                        0 <= fv,
                        fv <= spec_pow10(nd as int) - 1,
                        scale == spec_pow10(9 - nd as int),
                        scale >= 1,
                        spec_pow10(nd as int) * spec_pow10(9 - nd as int)
                            == 1000000000,
                ;
            }
            let f: i64 = fv * scale;
            let cu = s.get_char(j2);
            let v = match v_opt {
                Some(v) => v,
                None => {
                    return None;
                },
            };
            if (cu == 'h' || cu == 'H') && next_stage <= 0 && v <= MAX_SPAN_HOURS {
                let t: i64 = f * 3600;
                return Some(
                    CalendarSpan {
                        hours: v,
                        minutes: t / 60000000000,
                        seconds: (t / 1000000000) % 60,
                        milliseconds: (t / 1000000) % 1000,
                        microseconds: (t / 1000) % 1000,
                        nanoseconds: t % 1000,
                        ..acc
                    },
                );
            } else if (cu == 'm' || cu == 'M') && next_stage <= 1 && v
                <= MAX_SPAN_MINUTES {
                let t: i64 = f * 60;
                return Some(
                    CalendarSpan {
                        minutes: v,
                        seconds: t / 1000000000,
                        milliseconds: (t / 1000000) % 1000,
                        microseconds: (t / 1000) % 1000,
                        nanoseconds: t % 1000,
                        ..acc
                    },
                );
            } else if (cu == 's' || cu == 'S') && next_stage <= 2 && v
                <= MAX_SPAN_SECONDS {
                return Some(
                    CalendarSpan {
                        seconds: v,
                        milliseconds: f / 1000000,
                        microseconds: (f / 1000) % 1000,
                        nanoseconds: f % 1000,
                        ..acc
                    },
                );
            } else {
                return None;
            }
        } else {
            return None;
        }
    }
    let v = match v_opt {
        Some(v) => v,
        None => {
            // The value exceeds every unit's limit, whatever the letter.
            return None;
        },
    };
    if !in_time {
        if (c == 'y' || c == 'Y') && next_stage <= 0 && v <= MAX_SPAN_YEARS {
            parse_units(s, j + 1, false, 1, true, CalendarSpan { years: v, ..acc })
        } else if (c == 'm' || c == 'M') && next_stage <= 1 && v <= MAX_SPAN_MONTHS {
            parse_units(s, j + 1, false, 2, true, CalendarSpan { months: v, ..acc })
        } else if (c == 'w' || c == 'W') && next_stage <= 2 && v <= MAX_SPAN_WEEKS {
            parse_units(s, j + 1, false, 3, true, CalendarSpan { weeks: v, ..acc })
        } else if (c == 'd' || c == 'D') && next_stage <= 3 && v <= MAX_SPAN_DAYS {
            parse_units(s, j + 1, false, 4, true, CalendarSpan { days: v, ..acc })
        } else {
            None
        }
    } else {
        if (c == 'h' || c == 'H') && next_stage <= 0 && v <= MAX_SPAN_HOURS {
            parse_units(s, j + 1, true, 1, true, CalendarSpan { hours: v, ..acc })
        } else if (c == 'm' || c == 'M') && next_stage <= 1 && v <= MAX_SPAN_MINUTES {
            parse_units(s, j + 1, true, 2, true, CalendarSpan { minutes: v, ..acc })
        } else if (c == 's' || c == 'S') && next_stage <= 2 && v <= MAX_SPAN_SECONDS {
            parse_units(s, j + 1, true, 3, true, CalendarSpan { seconds: v, ..acc })
        } else {
            None
        }
    }
}

/// Ten to a small power, executable form.
fn pow10_small(k: u8) -> (r: i64)
    requires
        k <= 8,
    ensures
        r == spec_pow10(k as int),
        1 <= r <= 100000000,
{
    if k == 0 {
        1
    } else if k == 1 {
        10
    } else if k == 2 {
        100
    } else if k == 3 {
        1000
    } else if k == 4 {
        10000
    } else if k == 5 {
        100000
    } else if k == 6 {
        1000000
    } else if k == 7 {
        10000000
    } else {
        100000000
    }
}

/// A run of at most nine digits denotes a value below ten to the length.
pub proof fn lemma_dec_val_digits_bound(s: Seq<char>)
    requires
        spec_all_digits(s),
        s.len() <= 9,
    ensures
        0 <= spec_dec_val(s) < spec_pow10(s.len() as int),
        spec_dec_val(s) <= 999999999,
    decreases s.len(),
{
    if s.len() == 0 {
    } else {
        assert(spec_all_digits(s.drop_last()));
        lemma_dec_val_digits_bound(s.drop_last());
    }
}

/// The two halves of a nine-digit split multiply to ten to the ninth.
proof fn lemma_pow10_complement(k: int)
    requires
        0 <= k <= 9,
    ensures
        spec_pow10(k) * spec_pow10(9 - k) == 1000000000,
{
}

} // verus!

verus! {

/// Spans produced by the unit-sequence parser keep every component
/// non-negative and inside its unit's range.
proof fn lemma_parse_units_wf(
    s: Seq<char>,
    i: int,
    in_time: bool,
    next_stage: int,
    seen: bool,
    acc: CalendarSpan,
)
    requires
        0 <= i <= s.len(),
        acc.in_range(),
        acc.all_nonneg(),
    ensures
        match spec_parse_units(s, i, in_time, next_stage, seen, acc) {
            Some(sp) => sp.in_range() && sp.all_nonneg(),
            None => true,
        },
    decreases s.len() - i,
{
    lemma_num_end_props(s, i);
    if i == s.len() {
    } else {
        let j = spec_num_end(s, i);
        if j == i {
            if !in_time && (s[i] == 'T' || s[i] == 't') && i + 1 < s.len()
                && spec_num_end(s, i + 1) > i + 1 {
                lemma_parse_units_wf(s, i + 1, true, 0, seen, acc);
            }
        } else if j >= s.len() {
        } else {
            let v = spec_dec_val(s.subrange(i, j));
            assert(spec_all_digits(s.subrange(i, j)));
            lemma_dec_val_nonneg(s.subrange(i, j));
            let c = s[j];
            if in_time && (c == '.' || c == ',') {
                let j2 = spec_num_end(s, j + 1);
                if j2 > j + 1 && j2 - (j + 1) <= 9 && j2 < s.len() && j2 + 1 == s.len() {
                    lemma_num_end_props(s, j + 1);
                    assert(spec_all_digits(s.subrange(j + 1, j2)));
                    lemma_dec_val_nonneg(s.subrange(j + 1, j2));
                    lemma_dec_val_digits_bound(s.subrange(j + 1, j2));
                    lemma_pow10_complement(j2 - (j + 1));
                    let f = spec_dec_val(s.subrange(j + 1, j2)) * spec_pow10(
                        9 - (j2 - (j + 1)),
                    );
                    assert(0 <= f < 1000000000) by (nonlinear_arith)
                        requires
                            0 <= spec_dec_val(s.subrange(j + 1, j2)) < spec_pow10(
                                j2 - (j + 1),
                            ),
                            f == spec_dec_val(s.subrange(j + 1, j2)) * spec_pow10(
                                9 - (j2 - (j + 1)),
                            ),
                            1 <= spec_pow10(9 - (j2 - (j + 1))),
                            spec_pow10(j2 - (j + 1)) * spec_pow10(9 - (j2 - (j + 1)))
                                == 1000000000,
                    ;
                    lemma_spread_fraction_bounds(f * 3600);
                    lemma_spread_fraction_bounds(f * 60);
                    lemma_spread_fraction_bounds(f);
                }
            } else if !in_time {
                if (c == 'y' || c == 'Y') && next_stage <= 0 && v <= MAX_SPAN_YEARS {
                    lemma_parse_units_wf(
                        s,
                        j + 1,
                        false,
                        1,
                        true,
                        CalendarSpan { years: v as i64, ..acc },
                    );
                } else if (c == 'm' || c == 'M') && next_stage <= 1 && v
                    <= MAX_SPAN_MONTHS {
                    lemma_parse_units_wf(
                        s,
                        j + 1,
                        false,
                        2,
                        true,
                        CalendarSpan { months: v as i64, ..acc },
                    );
                } else if (c == 'w' || c == 'W') && next_stage <= 2 && v
                    <= MAX_SPAN_WEEKS {
                    lemma_parse_units_wf(
                        s,
                        j + 1,
                        false,
                        3,
                        true,
                        CalendarSpan { weeks: v as i64, ..acc },
                    );
                } else if (c == 'd' || c == 'D') && next_stage <= 3 && v <= MAX_SPAN_DAYS {
                    lemma_parse_units_wf(
                        s,
                        j + 1,
                        false,
                        4,
                        true,
                        CalendarSpan { days: v as i64, ..acc },
                    );
                }
            } else {
                if (c == 'h' || c == 'H') && next_stage <= 0 && v <= MAX_SPAN_HOURS {
                    lemma_parse_units_wf(
                        s,
                        j + 1,
                        true,
                        1,
                        true,
                        CalendarSpan { hours: v as i64, ..acc },
                    );
                } else if (c == 'm' || c == 'M') && next_stage <= 1 && v
                    <= MAX_SPAN_MINUTES {
                    lemma_parse_units_wf(
                        s,
                        j + 1,
                        true,
                        2,
                        true,
                        CalendarSpan { minutes: v as i64, ..acc },
                    );
                } else if (c == 's' || c == 'S') && next_stage <= 2 && v
                    <= MAX_SPAN_SECONDS {
                    lemma_parse_units_wf(
                        s,
                        j + 1,
                        true,
                        3,
                        true,
                        CalendarSpan { seconds: v as i64, ..acc },
                    );
                }
            }
        }
    }
}

/// Splitting a non-negative nanosecond total below an hour's worth into
/// minutes, seconds and sub-second units keeps every component in its
/// unit's range.
proof fn lemma_spread_fraction_bounds(t: int)
    requires
        0 <= t < 3600000000000,
    ensures
        0 <= t / 60000000000 <= 59,
        0 <= t / 1000000000 <= 3599,
        0 <= (t / 1000000000) % 60 <= 59,
        0 <= (t / 1000000) % 1000 <= 999,
        0 <= (t / 1000) % 1000 <= 999,
        0 <= t % 1000 <= 999,
{
    vstd::arithmetic::div_mod::lemma_fundamental_div_mod(t, 60000000000);
    vstd::arithmetic::div_mod::lemma_mod_bound(t, 60000000000);
    vstd::arithmetic::div_mod::lemma_fundamental_div_mod(t, 1000000000);
    vstd::arithmetic::div_mod::lemma_mod_bound(t, 1000000000);
    vstd::arithmetic::div_mod::lemma_mod_bound(t / 1000000000, 60);
    vstd::arithmetic::div_mod::lemma_div_pos_is_pos(t, 1000000000);
    vstd::arithmetic::div_mod::lemma_div_pos_is_pos(t, 60000000000);
    vstd::arithmetic::div_mod::lemma_div_pos_is_pos(t, 1000000);
    vstd::arithmetic::div_mod::lemma_div_pos_is_pos(t, 1000);
    vstd::arithmetic::div_mod::lemma_mod_bound(t / 1000000, 1000);
    vstd::arithmetic::div_mod::lemma_mod_bound(t / 1000, 1000);
    vstd::arithmetic::div_mod::lemma_mod_bound(t, 1000);
}

/// Whatever the whole duration text parses to is well-formed.
pub proof fn lemma_parse_span_text_wf(s: Seq<char>)
    ensures
        match spec_parse_span_text(s) {
            Some(sp) => sp.wf(),
            None => true,
        },
{
    let i0: int = if s.len() > 0 && (s[0] == '+' || s[0] == '-') {
        1
    } else {
        0
    };
    if i0 < s.len() && (s[i0] == 'P' || s[i0] == 'p') {
        lemma_parse_units_wf(s, i0 + 1, false, 0, false, CalendarSpan::spec_zero());
    }
}

} // verus!

verus! {

/// Parse a human-written duration expression into a calendar span.
/// The text is normalized first (`P` inserted, sign relocated), then
/// held to the duration grammar; the error names the offending input
/// and lists the valid unit letters.
pub fn parse_duration_span(text: &str) -> (r: Result<CalendarSpan, DtError>)
    ensures
        match r {
            Ok(sp) => spec_parse_span_text(spec_normalize_span_text(text@)) == Some(sp)
                && sp.wf(),
            Err(e) => spec_parse_span_text(spec_normalize_span_text(text@)) is None && (
            e matches DtError::InvalidSpan(s, _) && s@ == text@),
        },
{
    let normalized = normalize_span_text(text);
    let n = normalized.as_str();
    let len = n.unicode_len();
    let neg = len > 0 && n.get_char(0) == '-';
    let i0: usize = if len > 0 && (n.get_char(0) == '+' || n.get_char(0) == '-') {
        1
    } else {
        0
    };
    let parsed: Option<CalendarSpan> = if i0 < len && (n.get_char(i0) == 'P'
        || n.get_char(i0) == 'p') {
        parse_units(n, i0 + 1, false, 0, false, CalendarSpan::zero())
    } else {
        None
    };
    proof {
        lemma_parse_span_text_wf(normalized@);
        if i0 < len && (normalized@[i0 as int] == 'P' || normalized@[i0 as int] == 'p') {
            lemma_parse_units_wf(
                normalized@,
                i0 + 1,
                false,
                0,
                false,
                CalendarSpan::spec_zero(),
            );
        }
    }
    match parsed {
        Some(sp) => {
            if neg {
                Ok(sp.negated())
            } else {
                Ok(sp)
            }
        },
        None => {
            Err(
                DtError::InvalidSpan(
                    text.to_owned(),
                    String::from_str(
                        "expected a duration such as 1y2m3dT4h5m6s; valid component letters are y, m, w, d and, after T, h, m, s with optional fractional seconds",
                    ),
                ),
            )
        },
    }
}

} // verus!
