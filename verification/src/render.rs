//! Verified textual rendering: decimal numbers, zero padding, and the
//! standard date/time and duration formats built from them.

use vstd::prelude::*;

verus! {

use vstd::string::{StrSliceExecFns, StringExecFns};

/// The character for a single decimal digit value.
pub open spec fn spec_digit_char(d: int) -> char {
    if d == 0 {
        '0'
    } else if d == 1 {
        '1'
    } else if d == 2 {
        '2'
    } else if d == 3 {
        '3'
    } else if d == 4 {
        '4'
    } else if d == 5 {
        '5'
    } else if d == 6 {
        '6'
    } else if d == 7 {
        '7'
    } else if d == 8 {
        '8'
    } else {
        '9'
    }
}

/// Decimal rendering of a non-negative integer, most significant digit
/// first, without leading zeros (except for zero itself).
pub open spec fn spec_dec_str(n: int) -> Seq<char>
    decreases n,
{
    if n < 10 {
        seq![spec_digit_char(n)]
    } else {
        spec_dec_str(n / 10) + seq![spec_digit_char(n % 10)]
    }
}

/// Decimal rendering of a signed integer: a `-` before the magnitude.
pub open spec fn spec_dec_str_signed(n: int) -> Seq<char> {
    if n < 0 {
        seq!['-'] + spec_dec_str(-n)
    } else {
        spec_dec_str(n)
    }
}

/// `s` left-padded with `0` up to width `w`.
pub open spec fn spec_zero_pad(s: Seq<char>, w: int) -> Seq<char> {
    if s.len() >= w {
        s
    } else {
        Seq::new((w - s.len()) as nat, |i: int| '0') + s
    }
}

/// The one-character string of a digit.
fn digit_str(d: u8) -> (r: &'static str)
    requires
        d <= 9,
    ensures
        r@ == seq![spec_digit_char(d as int)],
{
    let r: &'static str = if d == 0 {
        "0"
    } else if d == 1 {
        "1"
    } else if d == 2 {
        "2"
    } else if d == 3 {
        "3"
    } else if d == 4 {
        "4"
    } else if d == 5 {
        "5"
    } else if d == 6 {
        "6"
    } else if d == 7 {
        "7"
    } else if d == 8 {
        "8"
    } else {
        "9"
    };
    proof {
        reveal_strlit("0");
        reveal_strlit("1");
        reveal_strlit("2");
        reveal_strlit("3");
        reveal_strlit("4");
        reveal_strlit("5");
        reveal_strlit("6");
        reveal_strlit("7");
        reveal_strlit("8");
        reveal_strlit("9");
        assert(r@ =~= seq![spec_digit_char(d as int)]);
    }
    r
}

/// Render a non-negative number in decimal.
pub fn dec_str(n: i64) -> (r: String)
    requires
        n >= 0,
    ensures
        r@ == spec_dec_str(n as int),
    decreases n,
{
    if n < 10 {
        digit_str(n as u8).to_owned()
    } else {
        let mut r = dec_str(n / 10);
        proof {
            vstd::arithmetic::div_mod::lemma_fundamental_div_mod(n as int, 10);
            vstd::arithmetic::div_mod::lemma_mod_pos_bound(n as int, 10);
        }
        r.append(digit_str((n % 10) as u8));
        r
    }
}

/// Render a signed number in decimal.
pub fn dec_str_signed(n: i64) -> (r: String)
    requires
        n > i64::MIN,
    ensures
        r@ == spec_dec_str_signed(n as int),
{
    if n < 0 {
        let mut r = String::new();
        r.append("-");
        r.append(dec_str(-n).as_str());
        proof {
            reveal_strlit("-");
            assert(r@ =~= spec_dec_str_signed(n as int));
        }
        r
    } else {
        dec_str(n)
    }
}

/// Render a non-negative number zero-padded to the given width.
pub fn dec_str_pad(n: i64, w: usize) -> (r: String)
    requires
        n >= 0,
        w <= 9,
    ensures
        r@ == spec_zero_pad(spec_dec_str(n as int), w as int),
{
    let digits = dec_str(n);
    let dl = digits.as_str().unicode_len();
    if dl >= w {
        digits
    } else {
        let mut r = String::new();
        let mut k: usize = 0;
        while k < w - dl
            invariant
                0 <= k <= w - dl,
                dl == spec_dec_str(n as int).len(),
                dl < w <= 9,
                r@ =~= Seq::new(k as nat, |i: int| '0'),
        decreases w - dl - k,
        {
            proof {
                reveal_strlit("0");
            }
            r.append("0");
            proof {
                assert(r@ =~= Seq::new((k + 1) as nat, |i: int| '0'));
            }
            k = k + 1;
        }
        r.append(digits.as_str());
        proof {
            assert(r@ =~= spec_zero_pad(spec_dec_str(n as int), w as int));
        }
        r
    }
}

} // verus!

verus! {

use crate::span::CalendarSpan;
use crate::units::CalendarUnit;

/// Magnitude of a component.
pub open spec fn spec_abs(n: int) -> int {
    if n < 0 {
        -n
    } else {
        n
    }
}

/// Drop trailing `0` characters.
pub open spec fn spec_trim_zeros(s: Seq<char>) -> Seq<char>
    decreases s.len(),
{
    if s.len() > 0 && s.last() == '0' {
        spec_trim_zeros(s.drop_last())
    } else {
        s
    }
}

/// Drop trailing `0` characters of a rendered fraction.
pub fn trim_trailing_zeros(s: &String) -> (r: String)
    ensures
        r@ == spec_trim_zeros(s@),
{
    let n = s.as_str().unicode_len();
    let mut k: usize = n;
    proof {
        assert(s@.subrange(0, n as int) =~= s@);
    }
    while k > 0 && s.as_str().get_char(k - 1) == '0'
        invariant
            0 <= k <= n,
            n == s@.len(),
            spec_trim_zeros(s@.subrange(0, k as int)) == spec_trim_zeros(s@),
        decreases k,
    {
        proof {
            assert(s@.subrange(0, k as int).drop_last() =~= s@.subrange(0, k - 1));
        }
        k = k - 1;
    }
    let r = s.as_str().substring_char(0, k).to_owned();
    proof {
        assert(s@.subrange(0, k as int) == spec_trim_zeros(s@.subrange(0, k as int)));
    }
    r
}

/// Whether a span is negative: some component below zero.
pub open spec fn spec_span_negative(sp: CalendarSpan) -> bool {
    ||| sp.years < 0
    ||| sp.months < 0
    ||| sp.weeks < 0
    ||| sp.days < 0
    ||| sp.hours < 0
    ||| sp.minutes < 0
    ||| sp.seconds < 0
    ||| sp.milliseconds < 0
    ||| sp.microseconds < 0
    ||| sp.nanoseconds < 0
}

/// The combined sub-second magnitude of a span, in nanoseconds.
pub open spec fn spec_span_frac(sp: CalendarSpan) -> int {
    spec_abs(sp.milliseconds as int) * 1000000 + spec_abs(sp.microseconds as int) * 1000 + spec_abs(sp.nanoseconds as int)
}

/// The seconds item of the machine rendering: the whole seconds (with
/// any whole seconds carried out of the sub-second components) and the
/// trimmed nine-digit fraction, present when either is non-zero.
pub open spec fn spec_iso_seconds_part(sp: CalendarSpan) -> Seq<char> {
    let f = spec_span_frac(sp);
    let whole = spec_abs(sp.seconds as int) + f / 1000000000;
    let rem = f % 1000000000;
    if whole > 0 || rem > 0 {
        if rem > 0 {
            spec_dec_str(whole) + seq!['.'] + spec_trim_zeros(
                spec_zero_pad(spec_dec_str(rem), 9),
            ) + seq!['s']
        } else {
            spec_dec_str(whole) + seq!['s']
        }
    } else {
        Seq::empty()
    }
}

/// The date items of the machine rendering.
pub open spec fn spec_iso_date_part(sp: CalendarSpan) -> Seq<char> {
    (if spec_abs(sp.years as int) > 0 {
        spec_dec_str(spec_abs(sp.years as int)) + seq!['y']
    } else {
        Seq::empty()
    }) + (if spec_abs(sp.months as int) > 0 {
        spec_dec_str(spec_abs(sp.months as int)) + seq!['m']
    } else {
        Seq::empty()
    }) + (if spec_abs(sp.weeks as int) > 0 {
        spec_dec_str(spec_abs(sp.weeks as int)) + seq!['w']
    } else {
        Seq::empty()
    }) + (if spec_abs(sp.days as int) > 0 {
        spec_dec_str(spec_abs(sp.days as int)) + seq!['d']
    } else {
        Seq::empty()
    })
}

/// The time items of the machine rendering.
pub open spec fn spec_iso_time_part(sp: CalendarSpan) -> Seq<char> {
    (if spec_abs(sp.hours as int) > 0 {
        spec_dec_str(spec_abs(sp.hours as int)) + seq!['h']
    } else {
        Seq::empty()
    }) + (if spec_abs(sp.minutes as int) > 0 {
        spec_dec_str(spec_abs(sp.minutes as int)) + seq!['m']
    } else {
        Seq::empty()
    }) + spec_iso_seconds_part(sp)
}

/// The machine-parseable ISO-8601-style rendering of a span: sign, `P`,
/// date items, and a `T` section when any time item is present; the zero
/// span renders as `PT0s`.
pub open spec fn spec_iso_span_str(sp: CalendarSpan) -> Seq<char> {
    let sign: Seq<char> = if spec_span_negative(sp) {
        seq!['-']
    } else {
        Seq::empty()
    };
    let date = spec_iso_date_part(sp);
    let time = spec_iso_time_part(sp);
    if date.len() == 0 && time.len() == 0 {
        sign + seq!['P', 'T', '0', 's']
    } else if time.len() == 0 {
        sign + seq!['P'] + date
    } else {
        sign + seq!['P'] + date + seq!['T'] + time
    }
}

/// Magnitude of a span component, executable form.
fn abs64(n: i64) -> (r: i64)
    requires
        n > i64::MIN,
    ensures
        r == spec_abs(n as int),
        r >= 0,
{
    if n < 0 {
        -n
    } else {
        n
    }
}

/// Render the date items of a span.
fn render_iso_date_part(sp: &CalendarSpan) -> (r: String)
    requires
        sp.in_range(),
    ensures
        r@ == spec_iso_date_part(*sp),
{
    let mut out = String::new();
    if abs64(sp.years) > 0 {
        out.append(dec_str(abs64(sp.years)).as_str());
        proof {
            reveal_strlit("y");
        }
        out.append("y");
    }
    if abs64(sp.months) > 0 {
        out.append(dec_str(abs64(sp.months)).as_str());
        proof {
            reveal_strlit("m");
        }
        out.append("m");
    }
    if abs64(sp.weeks) > 0 {
        out.append(dec_str(abs64(sp.weeks)).as_str());
        proof {
            reveal_strlit("w");
        }
        out.append("w");
    }
    if abs64(sp.days) > 0 {
        out.append(dec_str(abs64(sp.days)).as_str());
        proof {
            reveal_strlit("d");
        }
        out.append("d");
    }
    proof {
        assert(out@ =~= spec_iso_date_part(*sp));
    }
    out
}

/// Render the seconds item of a span, fraction included.
fn render_iso_seconds_part(sp: &CalendarSpan) -> (r: String)
    requires
        sp.in_range(),
    ensures
        r@ == spec_iso_seconds_part(*sp),
{
    let frac: i128 = (abs64(sp.milliseconds) as i128) * 1000000 + (abs64(
        sp.microseconds,
    ) as i128) * 1000 + (abs64(sp.nanoseconds) as i128);
    let carry: i64 = (frac / 1000000000) as i64;
    let rem: i64 = (frac % 1000000000) as i64;
    let whole: i64 = abs64(sp.seconds) + carry;
    let mut out = String::new();
    if whole > 0 || rem > 0 {
        out.append(dec_str(whole).as_str());
        if rem > 0 {
            proof {
                reveal_strlit(".");
            }
            out.append(".");
            out.append(trim_trailing_zeros(&dec_str_pad(rem, 9)).as_str());
        }
        proof {
            reveal_strlit("s");
        }
        out.append("s");
    }
    proof {
        assert(out@ =~= spec_iso_seconds_part(*sp));
    }
    out
}

/// Render the time items of a span.
fn render_iso_time_part(sp: &CalendarSpan) -> (r: String)
    requires
        sp.in_range(),
    ensures
        r@ == spec_iso_time_part(*sp),
{
    let mut out = String::new();
    if abs64(sp.hours) > 0 {
        out.append(dec_str(abs64(sp.hours)).as_str());
        proof {
            reveal_strlit("h");
        }
        out.append("h");
    }
    if abs64(sp.minutes) > 0 {
        out.append(dec_str(abs64(sp.minutes)).as_str());
        proof {
            reveal_strlit("m");
        }
        out.append("m");
    }
    out.append(render_iso_seconds_part(sp).as_str());
    proof {
        assert(out@ =~= spec_iso_time_part(*sp));
    }
    out
}

/// Render a span in the machine-parseable ISO-8601-style form.
pub fn render_iso_span_string(sp: &CalendarSpan) -> (r: String)
    requires
        sp.wf(),
    ensures
        r@ == spec_iso_span_str(*sp),
{
    let mut out = String::new();
    if sp.years < 0 || sp.months < 0 || sp.weeks < 0 || sp.days < 0 || sp.hours < 0
        || sp.minutes < 0 || sp.seconds < 0 || sp.milliseconds < 0 || sp.microseconds < 0
        || sp.nanoseconds < 0 {
        proof {
            reveal_strlit("-");
        }
        out.append("-");
    }
    proof {
        reveal_strlit("P");
    }
    out.append("P");
    let date = render_iso_date_part(sp);
    let time = render_iso_time_part(sp);
    if date.as_str().unicode_len() == 0 && time.as_str().unicode_len() == 0 {
        proof {
            reveal_strlit("T0s");
        }
        out.append("T0s");
    } else if time.as_str().unicode_len() == 0 {
        out.append(date.as_str());
    } else {
        out.append(date.as_str());
        proof {
            reveal_strlit("T");
        }
        out.append("T");
        out.append(time.as_str());
    }
    proof {
        assert(out@ =~= spec_iso_span_str(*sp));
    }
    out
}

} // verus!

verus! {

/// Join two rendered pieces with a single space, dropping empty sides.
pub open spec fn spec_join2(a: Seq<char>, b: Seq<char>) -> Seq<char> {
    if b.len() == 0 {
        a
    } else if a.len() == 0 {
        b
    } else {
        a + seq![' '] + b
    }
}

/// Join a list of rendered pieces with single spaces, dropping empties.
pub open spec fn spec_join_parts(parts: Seq<Seq<char>>) -> Seq<char>
    decreases parts.len(),
{
    if parts.len() == 0 {
        Seq::empty()
    } else {
        spec_join2(spec_join_parts(parts.drop_last()), parts.last())
    }
}

/// The items of the human-readable duration rendering, in descending
/// unit order.  Every non-zero component appears, negative ones with
/// their sign; a day count above six with no explicit week component is
/// repacked into whole weeks and remainder days.
pub open spec fn spec_nushelly_parts(sp: CalendarSpan) -> Seq<Seq<char>> {
    let yrs: Seq<char> = if sp.years != 0 {
        spec_dec_str_signed(sp.years as int) + seq!['y', 'r', 's']
    } else {
        Seq::empty()
    };
    let mths: Seq<char> = if sp.months != 0 {
        spec_dec_str_signed(sp.months as int) + seq!['m', 't', 'h', 's']
    } else {
        Seq::empty()
    };
    let wks: Seq<char> = if sp.days > 6 && sp.weeks == 0 {
        spec_dec_str(sp.days as int / 7) + seq!['w', 'k', 's']
    } else if sp.weeks != 0 {
        spec_dec_str_signed(sp.weeks as int) + seq!['w', 'k', 's']
    } else {
        Seq::empty()
    };
    let days: Seq<char> = if sp.days > 6 && sp.weeks == 0 {
        if sp.days as int % 7 > 0 {
            spec_dec_str(sp.days as int % 7) + seq!['d', 'a', 'y', 's']
        } else {
            Seq::empty()
        }
    } else if sp.days != 0 {
        spec_dec_str_signed(sp.days as int) + seq!['d', 'a', 'y', 's']
    } else {
        Seq::empty()
    };
    let hrs: Seq<char> = if sp.hours != 0 {
        spec_dec_str_signed(sp.hours as int) + seq!['h', 'r', 's']
    } else {
        Seq::empty()
    };
    let mins: Seq<char> = if sp.minutes != 0 {
        spec_dec_str_signed(sp.minutes as int) + seq!['m', 'i', 'n', 's']
    } else {
        Seq::empty()
    };
    let secs: Seq<char> = if sp.seconds != 0 {
        spec_dec_str_signed(sp.seconds as int) + seq!['s', 'e', 'c', 's']
    } else {
        Seq::empty()
    };
    let ms: Seq<char> = if sp.milliseconds != 0 {
        spec_dec_str_signed(sp.milliseconds as int) + seq!['m', 's']
    } else {
        Seq::empty()
    };
    let us: Seq<char> = if sp.microseconds != 0 {
        spec_dec_str_signed(sp.microseconds as int) + seq!['µ', 's']
    } else {
        Seq::empty()
    };
    let ns: Seq<char> = if sp.nanoseconds != 0 {
        spec_dec_str_signed(sp.nanoseconds as int) + seq!['n', 's']
    } else {
        Seq::empty()
    };
    seq![yrs, mths, wks, days, hrs, mins, secs, ms, us, ns]
}

/// The human-readable rendering: the non-zero items joined by spaces.
pub open spec fn spec_nushelly_str(sp: CalendarSpan) -> Seq<char> {
    spec_join_parts(spec_nushelly_parts(sp))
}

/// Append `part` to `acc` with a separating space where both are
/// non-empty.
fn join2(acc: String, part: &String) -> (r: String)
    ensures
        r@ == spec_join2(acc@, part@),
{
    if part.as_str().unicode_len() == 0 {
        acc
    } else if acc.as_str().unicode_len() == 0 {
        part.clone()
    } else {
        let mut r = acc;
        proof {
            reveal_strlit(" ");
        }
        r.append(" ");
        r.append(part.as_str());
        proof {
            assert(r@ =~= spec_join2(acc@, part@));
        }
        r
    }
}

/// One non-zero component with its sign and suffix, or the empty string.
fn component_part(n: i64, suffix: &str) -> (r: String)
    requires
        n > i64::MIN,
    ensures
        n != 0 ==> r@ == spec_dec_str_signed(n as int) + suffix@,
        n == 0 ==> r@ == Seq::<char>::empty(),
{
    if n != 0 {
        let mut t = dec_str_signed(n);
        t.append(suffix);
        proof {
            assert(t@ =~= spec_dec_str_signed(n as int) + suffix@);
        }
        t
    } else {
        String::new()
    }
}

} // verus!

verus! {

/// The human-readable space-joined duration rendering: every non-zero
/// component, signed, with the day-to-week folding rule.
#[verifier::rlimit(80)]
pub fn create_nushelly_duration_string(span: CalendarSpan) -> (r: String)
    requires
        span.wf(),
    ensures
        r@ == spec_nushelly_str(span),
{
    let ghost parts = spec_nushelly_parts(span);
    let p_yrs = component_part(span.years, "yrs");
    let p_mths = component_part(span.months, "mths");
    let fold_weeks = span.days > 6 && span.weeks == 0;
    let p_wks = if fold_weeks {
        component_part(span.days / 7, "wks")
    } else {
        component_part(span.weeks, "wks")
    };
    let p_days = if fold_weeks {
        component_part(span.days % 7, "days")
    } else {
        component_part(span.days, "days")
    };
    let p_hrs = component_part(span.hours, "hrs");
    let p_mins = component_part(span.minutes, "mins");
    let p_secs = component_part(span.seconds, "secs");
    let p_ms = component_part(span.milliseconds, "ms");
    let p_us = component_part(span.microseconds, "µs");
    let p_ns = component_part(span.nanoseconds, "ns");
    proof {
        reveal_strlit("yrs");
        reveal_strlit("mths");
        reveal_strlit("wks");
        reveal_strlit("days");
        reveal_strlit("hrs");
        reveal_strlit("mins");
        reveal_strlit("secs");
        reveal_strlit("ms");
        reveal_strlit("µs");
        reveal_strlit("ns");
        assert(p_yrs@ =~= parts[0]);
        assert(p_mths@ =~= parts[1]);
        assert(p_wks@ =~= parts[2]);
        assert(p_days@ =~= parts[3]);
        assert(p_hrs@ =~= parts[4]);
        assert(p_mins@ =~= parts[5]);
        assert(p_secs@ =~= parts[6]);
        assert(p_ms@ =~= parts[7]);
        assert(p_us@ =~= parts[8]);
        assert(p_ns@ =~= parts[9]);
    }
    let o0 = String::new();
    let o1 = join2(o0, &p_yrs);
    let o2 = join2(o1, &p_mths);
    let o3 = join2(o2, &p_wks);
    let o4 = join2(o3, &p_days);
    let o5 = join2(o4, &p_hrs);
    let o6 = join2(o5, &p_mins);
    let o7 = join2(o6, &p_secs);
    let o8 = join2(o7, &p_ms);
    let o9 = join2(o8, &p_us);
    let o10 = join2(o9, &p_ns);
    proof {
        assert(spec_join_parts(parts.take(0)) =~= Seq::<char>::empty());
        assert(parts.take(1).drop_last() =~= parts.take(0));
        assert(parts.take(1).last() == parts[0]);
        assert(o1@ == spec_join_parts(parts.take(1)));
        assert(parts.take(2).drop_last() =~= parts.take(1));
        assert(parts.take(2).last() == parts[1]);
        assert(o2@ == spec_join_parts(parts.take(2)));
        assert(parts.take(3).drop_last() =~= parts.take(2));
        assert(parts.take(3).last() == parts[2]);
        assert(o3@ == spec_join_parts(parts.take(3)));
        assert(parts.take(4).drop_last() =~= parts.take(3));
        assert(parts.take(4).last() == parts[3]);
        assert(o4@ == spec_join_parts(parts.take(4)));
        assert(parts.take(5).drop_last() =~= parts.take(4));
        assert(parts.take(5).last() == parts[4]);
        assert(o5@ == spec_join_parts(parts.take(5)));
        assert(parts.take(6).drop_last() =~= parts.take(5));
        assert(parts.take(6).last() == parts[5]);
        assert(o6@ == spec_join_parts(parts.take(6)));
        assert(parts.take(7).drop_last() =~= parts.take(6));
        assert(parts.take(7).last() == parts[6]);
        assert(o7@ == spec_join_parts(parts.take(7)));
        assert(parts.take(8).drop_last() =~= parts.take(7));
        assert(parts.take(8).last() == parts[7]);
        assert(o8@ == spec_join_parts(parts.take(8)));
        assert(parts.take(9).drop_last() =~= parts.take(8));
        assert(parts.take(9).last() == parts[8]);
        assert(o9@ == spec_join_parts(parts.take(9)));
        assert(parts.take(10).drop_last() =~= parts.take(9));
        assert(parts.take(10).last() == parts[9]);
        assert(o10@ == spec_join_parts(parts.take(10)));
        assert(parts.take(10) =~= parts);
    }
    o10
}

/// The rendering of a single requested unit: its signed count and the
/// unit's short suffix.
pub open spec fn spec_single_unit_str(as_unit: CalendarUnit, sp: CalendarSpan) -> Seq<char> {
    match as_unit {
        CalendarUnit::Year => spec_dec_str_signed(sp.years as int) + seq!['y', 'r', 's'],
        CalendarUnit::Month => spec_dec_str_signed(sp.months as int) + seq!['m', 't', 'h', 's'],
        CalendarUnit::Week => spec_dec_str_signed(sp.weeks as int) + seq!['w', 'k', 's'],
        CalendarUnit::Day => spec_dec_str_signed(sp.days as int) + seq!['d', 'a', 'y', 's'],
        CalendarUnit::Hour => spec_dec_str_signed(sp.hours as int) + seq!['h', 'r', 's'],
        CalendarUnit::Minute => spec_dec_str_signed(sp.minutes as int) + seq!['m', 'i', 'n', 's'],
        CalendarUnit::Second => spec_dec_str_signed(sp.seconds as int) + seq!['s', 'e', 'c', 's'],
        CalendarUnit::Millisecond => spec_dec_str_signed(sp.milliseconds as int) + seq!['m', 's'],
        CalendarUnit::Microsecond => spec_dec_str_signed(sp.microseconds as int) + seq![
            'µ',
            's',
        ],
        CalendarUnit::Nanosecond => spec_dec_str_signed(sp.nanoseconds as int) + seq!['n', 's'],
    }
}

/// Render only the requested unit of a span, signed, with its suffix.
pub fn get_single_duration_unit_from_span(as_unit: CalendarUnit, span: CalendarSpan) -> (r:
    String)
    requires
        span.wf(),
    ensures
        r@ == spec_single_unit_str(as_unit, span),
{
    proof {
        reveal_strlit("yrs");
        reveal_strlit("mths");
        reveal_strlit("wks");
        reveal_strlit("days");
        reveal_strlit("hrs");
        reveal_strlit("mins");
        reveal_strlit("secs");
        reveal_strlit("ms");
        reveal_strlit("µs");
        reveal_strlit("ns");
    }
    let (n, suffix): (i64, &str) = match as_unit {
        CalendarUnit::Year => (span.years, "yrs"),
        CalendarUnit::Month => (span.months, "mths"),
        CalendarUnit::Week => (span.weeks, "wks"),
        CalendarUnit::Day => (span.days, "days"),
        CalendarUnit::Hour => (span.hours, "hrs"),
        CalendarUnit::Minute => (span.minutes, "mins"),
        CalendarUnit::Second => (span.seconds, "secs"),
        CalendarUnit::Millisecond => (span.milliseconds, "ms"),
        CalendarUnit::Microsecond => (span.microseconds, "µs"),
        CalendarUnit::Nanosecond => (span.nanoseconds, "ns"),
    };
    let mut out = dec_str_signed(n);
    out.append(suffix);
    proof {
        assert(out@ =~= spec_single_unit_str(as_unit, span));
    }
    out
}

} // verus!
