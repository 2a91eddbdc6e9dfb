//! Elixir `Date`, `Time`, `NaiveDateTime` and `DateTime` values, their
//! validation, their text and their struct terms.
use vstd::prelude::*;
use vstd::string::*;
use vstd::utf8;
use crate::term::{self, Term, TermV};
use crate::text;

verus! {

/// Whether `year` is a leap year of the proleptic Gregorian calendar.
pub open spec fn leap_year(year: int) -> bool {
    (year % 4 == 0 && year % 100 != 0) || year % 400 == 0
}

/// The number of days of `month` (1 to 12) in `year`; 0 for any other month.
pub open spec fn days_in_month(year: int, month: int) -> int {
    if month == 1 || month == 3 || month == 5 || month == 7 || month == 8 || month == 10 || month
        == 12 {
        31
    } else if month == 4 || month == 6 || month == 9 || month == 11 {
        30
    } else if month == 2 {
        if leap_year(year) {
            29
        } else {
            28
        }
    } else {
        0
    }
}

/// The Gregorian month lengths: 31 days in January, March, May, July,
/// August, October and December; 30 in April, June, September and November;
/// in February 29 in years divisible by 4 but not by 100, or by 400, and 28
/// otherwise. No other month has days.
pub proof fn lemma_gregorian_month_lengths(year: int, month: int)
    ensures
        (month == 1 || month == 3 || month == 5 || month == 7 || month == 8 || month == 10 || month
            == 12) ==> days_in_month(year, month) == 31,
        (month == 4 || month == 6 || month == 9 || month == 11) ==> days_in_month(year, month)
            == 30,
        month == 2 && ((year % 4 == 0 && year % 100 != 0) || year % 400 == 0) ==> days_in_month(
            year,
            month,
        ) == 29,
        month == 2 && !((year % 4 == 0 && year % 100 != 0) || year % 400 == 0) ==> days_in_month(
            year,
            month,
        ) == 28,
        !(1 <= month <= 12) ==> days_in_month(year, month) == 0,
        valid_date(year, month, 31) <==> (month == 1 || month == 3 || month == 5 || month == 7
            || month == 8 || month == 10 || month == 12),
{
}

/// A time of day has an hour below 24, a minute and a second below 60, a
/// microsecond below one million and a precision of at most 6 digits.
pub proof fn lemma_time_of_day_bounds(hour: u8, minute: u8, second: u8, microsecond: u32, precision: u8)
    ensures
        valid_time(hour as int, minute as int, second as int, microsecond as int, precision as int)
            <==> (hour < 24 && minute < 60 && second < 60 && microsecond < 1_000_000 && precision
            < 7),
{
}

/// A number and its negation are divisible by the same positive numbers.
proof fn lemma_divisible_abs(x: int, d: int)
    requires
        d > 0,
    ensures
        (x % d == 0) == ((-x) % d == 0),
{
    vstd::arithmetic::div_mod::lemma_fundamental_div_mod(x, d);
    vstd::arithmetic::div_mod::lemma_fundamental_div_mod(-x, d);
    if x % d == 0 {
        let q = x / d;
        assert(-x == (-q) * d) by (nonlinear_arith)
            requires
                x == d * q + 0,
        ;
        vstd::arithmetic::div_mod::lemma_mod_multiples_basic(-q, d);
    }
    if (-x) % d == 0 {
        let q = (-x) / d;
        assert(x == (-q) * d) by (nonlinear_arith)
            requires
                -x == d * q + 0,
        ;
        vstd::arithmetic::div_mod::lemma_mod_multiples_basic(-q, d);
    }
}

/// Whether a year, month and day name a calendar day.
pub open spec fn valid_date(year: int, month: int, day: int) -> bool {
    1 <= month <= 12 && 1 <= day <= days_in_month(year, month)
}

/// Whether the parts of a time of day are in range.
pub open spec fn valid_time(hour: int, minute: int, second: int, microsecond: int, precision: int) -> bool {
    hour <= 23 && minute <= 59 && second <= 59 && microsecond <= 999_999 && precision <= 6
}

/// Ten to the `n`.
pub open spec fn pow10(n: nat) -> nat
    decreases n,
{
    if n == 0 {
        1
    } else {
        10 * pow10((n - 1) as nat)
    }
}

/// The fraction of a second as written: nothing at precision 0, else a dot and
/// the leading `precision` of the six microsecond digits.
pub open spec fn frac_text(microsecond: u32, precision: u8) -> Seq<char> {
    if precision > 0 {
        "."@ + text::padded_decimal(
            (microsecond / (pow10((6 - precision) as nat) as u32)) as int,
            precision as nat,
        )
    } else {
        Seq::empty()
    }
}

/// `YYYY-MM-DD`.
pub open spec fn date_part(year: i32, month: u8, day: u8) -> Seq<char> {
    text::padded_decimal(year as int, 4) + "-"@ + text::padded_decimal(month as int, 2) + "-"@
        + text::padded_decimal(day as int, 2)
}

/// `hh:mm:ss` and the fraction.
pub open spec fn clock_part(hour: u8, minute: u8, second: u8, microsecond: u32, precision: u8) -> Seq<
    char,
> {
    text::padded_decimal(hour as int, 2) + ":"@ + text::padded_decimal(minute as int, 2) + ":"@
        + text::padded_decimal(second as int, 2) + frac_text(microsecond, precision)
}

/// `10^n` for `n` up to 6.
fn pow10_u32(n: u8) -> (r: u32)
    requires
        n <= 6,
    ensures
        r == pow10(n as nat),
{
    proof {
        reveal_with_fuel(pow10, 7);
    }
    match n {
        0 => 1,
        1 => 10,
        2 => 100,
        3 => 1000,
        4 => 10000,
        5 => 100000,
        _ => 1000000,
    }
}

/// Appends the fraction of a second.
fn push_frac(s: &mut String, microsecond: u32, precision: u8)
    requires
        precision <= 6,
    ensures
        final(s)@ == old(s)@ + frac_text(microsecond, precision),
{
    if precision > 0 {
        let divisor = pow10_u32(6 - precision);
        assert(divisor > 0) by {
            reveal_with_fuel(pow10, 7);
        }
        let frac = microsecond / divisor;
        let ghost before = s@;
        s.append(".");
        text::push_padded(s, frac as i64, precision as usize);
        assert(s@ =~= before + frac_text(microsecond, precision));
    } else {
        assert(old(s)@ + frac_text(microsecond, precision) =~= old(s)@);
    }
}

/// Appends `YYYY-MM-DD`.
fn push_date(s: &mut String, year: i32, month: u8, day: u8)
    ensures
        final(s)@ == old(s)@ + date_part(year, month, day),
{
    let ghost before = s@;
    text::push_padded(s, year as i64, 4);
    s.append("-");
    text::push_padded(s, month as i64, 2);
    s.append("-");
    text::push_padded(s, day as i64, 2);
    assert(s@ =~= before + date_part(year, month, day));
}

/// Appends `hh:mm:ss` and the fraction.
fn push_clock(s: &mut String, hour: u8, minute: u8, second: u8, microsecond: u32, precision: u8)
    requires
        precision <= 6,
    ensures
        final(s)@ == old(s)@ + clock_part(hour, minute, second, microsecond, precision),
{
    let ghost before = s@;
    text::push_padded(s, hour as i64, 2);
    s.append(":");
    text::push_padded(s, minute as i64, 2);
    s.append(":");
    text::push_padded(s, second as i64, 2);
    push_frac(s, microsecond, precision);
    assert(s@ =~= before + clock_part(hour, minute, second, microsecond, precision));
}

/// The `{value, precision}` tuple of a microsecond field.
fn microsecond_term(value: u32, precision: u8) -> (r: Term)
    ensures
        r@ == TermV::Tuple(seq![TermV::Integer(value as i64), TermV::Integer(precision as i64)]),
{
    let es: Vec<Term> = vec![Term::Integer(value as i64), Term::Integer(precision as i64)];
    proof {
        term::lemma_values_index(es@);
        assert(Term::values(es@) =~= seq![
            TermV::Integer(value as i64),
            TermV::Integer(precision as i64),
        ]);
    }
    Term::Tuple(es)
}

/// The microsecond value and precision of a struct term: those of its
/// `microsecond` tuple of two integers, (0, 0) when the key is absent or holds
/// something other than a pair, nothing when a pair holds a non-integer.
pub open spec fn microsecond_of_term(t: TermV) -> Option<(u32, u8)> {
    match term::map_value(t, "microsecond"@) {
        Some(TermV::Tuple(es)) => if es.len() == 2 {
            match (term::integer_of(es[0]), term::integer_of(es[1])) {
                (Some(v), Some(p)) => Some((v as u32, p as u8)),
                _ => None,
            }
        } else {
            Some((0, 0))
        },
        _ => Some((0, 0)),
    }
}

fn microsecond_field(t: &Term) -> (r: Option<(u32, u8)>)
    ensures
        r == microsecond_of_term(t@),
{
    match t.map_get("microsecond") {
        Some(us) => match us.as_2_tuple() {
            Some((val, prec)) => {
                let v = match val.as_integer() {
                    Some(v) => v,
                    None => {
                        return None;
                    },
                };
                let p = match prec.as_integer() {
                    Some(p) => p,
                    None => {
                        return None;
                    },
                };
                Some((v as u32, p as u8))
            },
            None => Some((0, 0)),
        },
        None => Some((0, 0)),
    }
}

/// An Elixir `Date` (`~D[2025-12-25]`).
#[derive(Debug, Clone, Copy, PartialEq, Eq, Hash, Structural)]
pub struct ElixirDate {
    pub year: i32,
    pub month: u8,
    pub day: u8,
}

/// The struct term of a date.
pub open spec fn date_term(d: ElixirDate) -> TermV {
    TermV::ErlMap(seq![
        (TermV::Atom("__struct__"@), TermV::Atom("Elixir.Date"@)),
        (TermV::Atom("year"@), TermV::Integer(d.year as i64)),
        (TermV::Atom("month"@), TermV::Integer(d.month as i64)),
        (TermV::Atom("day"@), TermV::Integer(d.day as i64)),
        (TermV::Atom("calendar"@), TermV::Atom("Elixir.Calendar.ISO"@)),
    ])
}

/// The date a term holds: a `Date` struct with integer year, month and day,
/// each cut to its field's width.
pub open spec fn date_of_term(t: TermV) -> Option<ElixirDate> {
    if term::struct_module(t) != Some("Elixir.Date"@) {
        None
    } else {
        match (
            term::integer_field_of(t, "year"@),
            term::integer_field_of(t, "month"@),
            term::integer_field_of(t, "day"@),
        ) {
            (Some(y), Some(m), Some(d)) => Some(
                ElixirDate { year: y as i32, month: m as u8, day: d as u8 },
            ),
            _ => None,
        }
    }
}

/// The text of a date: `~D[YYYY-MM-DD]`.
pub open spec fn date_text(d: ElixirDate) -> Seq<char> {
    "~D["@ + date_part(d.year, d.month, d.day) + "]"@
}

impl ElixirDate {
    /// A date, not checked.
    pub fn new(year: i32, month: u8, day: u8) -> (r: Self)
        ensures
            r == (ElixirDate { year, month, day }),
    {
        ElixirDate { year, month, day }
    }

    /// A date, if the year, month and day name a calendar day.
    pub fn try_new(year: i32, month: u8, day: u8) -> (r: Option<Self>)
        ensures
            valid_date(year as int, month as int, day as int) ==> r == Some(
                ElixirDate { year, month, day },
            ),
            !valid_date(year as int, month as int, day as int) ==> r is None,
            r is Some ==> 1 <= month <= 12 && 1 <= day <= 31,
            (month == 1 || month == 3 || month == 5 || month == 7 || month == 8 || month == 10
                || month == 12) ==> (r is Some <==> 1 <= day <= 31),
            (month == 4 || month == 6 || month == 9 || month == 11) ==> (r is Some <==> 1 <= day
                <= 30),
            month == 2 ==> (r is Some <==> (1 <= day <= 28 || (day == 29 && ((year % 4 == 0 && year
                % 100 != 0) || year % 400 == 0)))),
    {
        proof {
            lemma_gregorian_month_lengths(year as int, month as int);
        }
        if month < 1 || month > 12 {
            return None;
        }
        let max_day: u8 = match month {
            1 | 3 | 5 | 7 | 8 | 10 | 12 => 31,
            4 | 6 | 9 | 11 => 30,
            _ => {
                if Self::is_leap_year(year) {
                    29
                } else {
                    28
                }
            },
        };
        if day < 1 || day > max_day {
            return None;
        }
        Some(ElixirDate { year, month, day })
    }

    /// Whether `year` is a leap year.
    pub fn is_leap_year(year: i32) -> (r: bool)
        ensures
            r == leap_year(year as int),
    {
        let a: u32 = if year < 0 {
            (-(year as i64)) as u32
        } else {
            year as u32
        };
        proof {
            lemma_divisible_abs(year as int, 4);
            lemma_divisible_abs(year as int, 100);
            lemma_divisible_abs(year as int, 400);
        }
        (a % 4 == 0 && a % 100 != 0) || (a % 400 == 0)
    }

    /// The date held by a `Date` struct term.
    pub fn from_term(term: &Term) -> (r: Option<Self>)
        ensures
            r == date_of_term(term@),
    {
        if !term.is_struct_of("Elixir.Date") {
            return None;
        }
        let year = match term.integer_field("year") {
            Some(v) => v,
            None => {
                return None;
            },
        };
        let month = match term.integer_field("month") {
            Some(v) => v,
            None => {
                return None;
            },
        };
        let day = match term.integer_field("day") {
            Some(v) => v,
            None => {
                return None;
            },
        };
        Some(ElixirDate { year: year as i32, month: month as u8, day: day as u8 })
    }

    /// The `Date` struct term: `__struct__`, year, month, day and calendar.
    pub fn to_term(&self) -> (r: Term)
        ensures
            r@ == date_term(*self),
    {
        let entries: Vec<(Term, Term)> = vec![
            term::atom_entry("__struct__", Term::atom("Elixir.Date")),
            term::atom_entry("year", Term::Integer(self.year as i64)),
            term::atom_entry("month", Term::Integer(self.month as i64)),
            term::atom_entry("day", Term::Integer(self.day as i64)),
            term::atom_entry("calendar", Term::atom("Elixir.Calendar.ISO")),
        ];
        proof {
            term::lemma_pair_values_index(entries@);
            assert(Term::pair_values(entries@) =~= date_term(*self)->ErlMap_0);
        }
        term::erl_map(entries)
    }

    /// `~D[YYYY-MM-DD]`.
    pub fn to_string(&self) -> (r: String)
        ensures
            r@ == date_text(*self),
    {
        let mut s = String::from_str("~D[");
        push_date(&mut s, self.year, self.month, self.day);
        s.append("]");
        s
    }
}

/// An Elixir `Time` (`~T[14:30:00.000000]`).
#[derive(Debug, Clone, Copy, PartialEq, Eq, Hash, Structural)]
pub struct ElixirTime {
    pub hour: u8,
    pub minute: u8,
    pub second: u8,
    /// Microseconds, 0 to 999999.
    pub microsecond_value: u32,
    /// Digits of the fraction shown, 0 to 6.
    pub microsecond_precision: u8,
}

/// The struct term of a time.
pub open spec fn time_term(t: ElixirTime) -> TermV {
    TermV::ErlMap(seq![
        (TermV::Atom("__struct__"@), TermV::Atom("Elixir.Time"@)),
        (TermV::Atom("hour"@), TermV::Integer(t.hour as i64)),
        (TermV::Atom("minute"@), TermV::Integer(t.minute as i64)),
        (TermV::Atom("second"@), TermV::Integer(t.second as i64)),
        (TermV::Atom("microsecond"@), TermV::Tuple(seq![TermV::Integer(t.microsecond_value as i64), TermV::Integer(t.microsecond_precision as i64)])),
        (TermV::Atom("calendar"@), TermV::Atom("Elixir.Calendar.ISO"@)),
    ])
}

/// The time a term holds: a `Time` struct with integer hour, minute and
/// second, and its microsecond pair.
pub open spec fn time_of_term(t: TermV) -> Option<ElixirTime> {
    if term::struct_module(t) != Some("Elixir.Time"@) {
        None
    } else {
        match (
            term::integer_field_of(t, "hour"@),
            term::integer_field_of(t, "minute"@),
            term::integer_field_of(t, "second"@),
            microsecond_of_term(t),
        ) {
            (Some(h), Some(m), Some(s), Some(us)) => Some(
                ElixirTime {
                    hour: h as u8,
                    minute: m as u8,
                    second: s as u8,
                    microsecond_value: us.0,
                    microsecond_precision: us.1,
                },
            ),
            _ => None,
        }
    }
}

/// The text of a time: `~T[hh:mm:ss]`, with the fraction when the precision
/// is above 0.
pub open spec fn time_text(t: ElixirTime) -> Seq<char> {
    "~T["@ + clock_part(t.hour, t.minute, t.second, t.microsecond_value, t.microsecond_precision)
        + "]"@
}

/// The precision a constructor keeps: at most 6.
pub open spec fn clamp_precision(p: u8) -> u8 {
    if p > 6 {
        6
    } else {
        p
    }
}

impl ElixirTime {
    /// A time, not checked; the precision is cut to 6.
    pub fn new(hour: u8, minute: u8, second: u8, microsecond: u32, precision: u8) -> (r: Self)
        ensures
            r == (ElixirTime {
                hour,
                minute,
                second,
                microsecond_value: microsecond,
                microsecond_precision: clamp_precision(precision),
            }),
    {
        ElixirTime {
            hour,
            minute,
            second,
            microsecond_value: microsecond,
            microsecond_precision: if precision > 6 {
                6
            } else {
                precision
            },
        }
    }

    /// A time, if its parts are in range.
    pub fn try_new(hour: u8, minute: u8, second: u8, microsecond: u32, precision: u8) -> (r: Option<
        Self,
    >)
        ensures
            valid_time(
                hour as int,
                minute as int,
                second as int,
                microsecond as int,
                precision as int,
            ) ==> r == Some(
                ElixirTime {
                    hour,
                    minute,
                    second,
                    microsecond_value: microsecond,
                    microsecond_precision: precision,
                },
            ),
            !valid_time(
                hour as int,
                minute as int,
                second as int,
                microsecond as int,
                precision as int,
            ) ==> r is None,
    {
        if hour > 23 || minute > 59 || second > 59 {
            return None;
        }
        if microsecond > 999_999 {
            return None;
        }
        if precision > 6 {
            return None;
        }
        Some(
            ElixirTime {
                hour,
                minute,
                second,
                microsecond_value: microsecond,
                microsecond_precision: precision,
            },
        )
    }

    /// A time without microseconds.
    pub fn hms(hour: u8, minute: u8, second: u8) -> (r: Self)
        ensures
            r == (ElixirTime {
                hour,
                minute,
                second,
                microsecond_value: 0,
                microsecond_precision: 0,
            }),
    {
        Self::new(hour, minute, second, 0, 0)
    }

    /// A time without microseconds, if its parts are in range.
    pub fn try_hms(hour: u8, minute: u8, second: u8) -> (r: Option<Self>)
        ensures
            valid_time(hour as int, minute as int, second as int, 0, 0) ==> r == Some(
                ElixirTime {
                    hour,
                    minute,
                    second,
                    microsecond_value: 0,
                    microsecond_precision: 0,
                },
            ),
            !valid_time(hour as int, minute as int, second as int, 0, 0) ==> r is None,
    {
        Self::try_new(hour, minute, second, 0, 0)
    }

    /// The time held by a `Time` struct term.
    pub fn from_term(term: &Term) -> (r: Option<Self>)
        ensures
            r == time_of_term(term@),
    {
        if !term.is_struct_of("Elixir.Time") {
            return None;
        }
        let hour = match term.integer_field("hour") {
            Some(v) => v,
            None => {
                return None;
            },
        };
        let minute = match term.integer_field("minute") {
            Some(v) => v,
            None => {
                return None;
            },
        };
        let second = match term.integer_field("second") {
            Some(v) => v,
            None => {
                return None;
            },
        };
        let us = match microsecond_field(term) {
            Some(us) => us,
            None => {
                return None;
            },
        };
        Some(
            ElixirTime {
                hour: hour as u8,
                minute: minute as u8,
                second: second as u8,
                microsecond_value: us.0,
                microsecond_precision: us.1,
            },
        )
    }

    /// The `Time` struct term: `__struct__`, hour, minute, second, the
    /// microsecond pair and calendar.
    pub fn to_term(&self) -> (r: Term)
        ensures
            r@ == time_term(*self),
    {
        let entries: Vec<(Term, Term)> = vec![
            term::atom_entry("__struct__", Term::atom("Elixir.Time")),
            term::atom_entry("hour", Term::Integer(self.hour as i64)),
            term::atom_entry("minute", Term::Integer(self.minute as i64)),
            term::atom_entry("second", Term::Integer(self.second as i64)),
            term::atom_entry("microsecond", microsecond_term(self.microsecond_value, self.microsecond_precision)),
            term::atom_entry("calendar", Term::atom("Elixir.Calendar.ISO")),
        ];
        proof {
            term::lemma_pair_values_index(entries@);
            assert(Term::pair_values(entries@) =~= time_term(*self)->ErlMap_0);
        }
        term::erl_map(entries)
    }

    /// `~T[hh:mm:ss]`, or `~T[hh:mm:ss.f]` with `precision` digits of fraction.
    pub fn to_string(&self) -> (r: String)
        requires
            self.microsecond_precision <= 6,
        ensures
            r@ == time_text(*self),
    {
        let mut s = String::from_str("~T[");
        push_clock(
            &mut s,
            self.hour,
            self.minute,
            self.second,
            self.microsecond_value,
            self.microsecond_precision,
        );
        s.append("]");
        s
    }
}

/// An Elixir `NaiveDateTime` (`~N[2025-12-25 14:30:00]`).
#[derive(Debug, Clone, Copy, PartialEq, Eq, Hash, Structural)]
pub struct ElixirNaiveDateTime {
    pub year: i32,
    pub month: u8,
    pub day: u8,
    pub hour: u8,
    pub minute: u8,
    pub second: u8,
    pub microsecond_value: u32,
    pub microsecond_precision: u8,
}

/// The struct term of a naive date-time.
pub open spec fn naive_term(n: ElixirNaiveDateTime) -> TermV {
    TermV::ErlMap(seq![
        (TermV::Atom("__struct__"@), TermV::Atom("Elixir.NaiveDateTime"@)),
        (TermV::Atom("year"@), TermV::Integer(n.year as i64)),
        (TermV::Atom("month"@), TermV::Integer(n.month as i64)),
        (TermV::Atom("day"@), TermV::Integer(n.day as i64)),
        (TermV::Atom("hour"@), TermV::Integer(n.hour as i64)),
        (TermV::Atom("minute"@), TermV::Integer(n.minute as i64)),
        (TermV::Atom("second"@), TermV::Integer(n.second as i64)),
        (TermV::Atom("microsecond"@), TermV::Tuple(seq![TermV::Integer(n.microsecond_value as i64), TermV::Integer(n.microsecond_precision as i64)])),
        (TermV::Atom("calendar"@), TermV::Atom("Elixir.Calendar.ISO"@)),
    ])
}

/// The naive date-time a term holds.
pub open spec fn naive_of_term(t: TermV) -> Option<ElixirNaiveDateTime> {
    if term::struct_module(t) != Some("Elixir.NaiveDateTime"@) {
        None
    } else {
        match (
            term::integer_field_of(t, "year"@),
            term::integer_field_of(t, "month"@),
            term::integer_field_of(t, "day"@),
            term::integer_field_of(t, "hour"@),
            term::integer_field_of(t, "minute"@),
            term::integer_field_of(t, "second"@),
            microsecond_of_term(t),
        ) {
            (Some(y), Some(mo), Some(d), Some(h), Some(mi), Some(s), Some(us)) => Some(
                ElixirNaiveDateTime {
                    year: y as i32,
                    month: mo as u8,
                    day: d as u8,
                    hour: h as u8,
                    minute: mi as u8,
                    second: s as u8,
                    microsecond_value: us.0,
                    microsecond_precision: us.1,
                },
            ),
            _ => None,
        }
    }
}

/// The text of a naive date-time: `~N[YYYY-MM-DD hh:mm:ss]` and the fraction.
pub open spec fn naive_text(n: ElixirNaiveDateTime) -> Seq<char> {
    "~N["@ + date_part(n.year, n.month, n.day) + " "@ + clock_part(
        n.hour,
        n.minute,
        n.second,
        n.microsecond_value,
        n.microsecond_precision,
    ) + "]"@
}

impl ElixirNaiveDateTime {
    /// A naive date-time, not checked; the precision is cut to 6.
    pub fn new(
        year: i32,
        month: u8,
        day: u8,
        hour: u8,
        minute: u8,
        second: u8,
        microsecond: u32,
        precision: u8,
    ) -> (r: Self)
        ensures
            r == (ElixirNaiveDateTime {
                year,
                month,
                day,
                hour,
                minute,
                second,
                microsecond_value: microsecond,
                microsecond_precision: clamp_precision(precision),
            }),
    {
        ElixirNaiveDateTime {
            year,
            month,
            day,
            hour,
            minute,
            second,
            microsecond_value: microsecond,
            microsecond_precision: if precision > 6 {
                6
            } else {
                precision
            },
        }
    }

    /// A naive date-time, if the date is a calendar day and the time is in
    /// range.
    pub fn try_new(
        year: i32,
        month: u8,
        day: u8,
        hour: u8,
        minute: u8,
        second: u8,
        microsecond: u32,
        precision: u8,
    ) -> (r: Option<Self>)
        ensures
            (valid_date(year as int, month as int, day as int) && valid_time(
                hour as int,
                minute as int,
                second as int,
                microsecond as int,
                precision as int,
            )) ==> r == Some(
                ElixirNaiveDateTime {
                    year,
                    month,
                    day,
                    hour,
                    minute,
                    second,
                    microsecond_value: microsecond,
                    microsecond_precision: precision,
                },
            ),
            !(valid_date(year as int, month as int, day as int) && valid_time(
                hour as int,
                minute as int,
                second as int,
                microsecond as int,
                precision as int,
            )) ==> r is None,
    {
        if ElixirDate::try_new(year, month, day).is_none() {
            return None;
        }
        if ElixirTime::try_new(hour, minute, second, microsecond, precision).is_none() {
            return None;
        }
        Some(
            ElixirNaiveDateTime {
                year,
                month,
                day,
                hour,
                minute,
                second,
                microsecond_value: microsecond,
                microsecond_precision: precision,
            },
        )
    }

    /// The naive date-time of a date and a time.
    pub fn from_date_time(date: ElixirDate, time: ElixirTime) -> (r: Self)
        ensures
            r == (ElixirNaiveDateTime {
                year: date.year,
                month: date.month,
                day: date.day,
                hour: time.hour,
                minute: time.minute,
                second: time.second,
                microsecond_value: time.microsecond_value,
                microsecond_precision: time.microsecond_precision,
            }),
    {
        ElixirNaiveDateTime {
            year: date.year,
            month: date.month,
            day: date.day,
            hour: time.hour,
            minute: time.minute,
            second: time.second,
            microsecond_value: time.microsecond_value,
            microsecond_precision: time.microsecond_precision,
        }
    }

    /// The date part.
    pub fn to_date(&self) -> (r: ElixirDate)
        ensures
            r == (ElixirDate { year: self.year, month: self.month, day: self.day }),
    {
        ElixirDate::new(self.year, self.month, self.day)
    }

    /// The time part (its precision cut to 6).
    pub fn to_time(&self) -> (r: ElixirTime)
        ensures
            r == (ElixirTime {
                hour: self.hour,
                minute: self.minute,
                second: self.second,
                microsecond_value: self.microsecond_value,
                microsecond_precision: clamp_precision(self.microsecond_precision),
            }),
    {
        ElixirTime::new(
            self.hour,
            self.minute,
            self.second,
            self.microsecond_value,
            self.microsecond_precision,
        )
    }

    /// The naive date-time held by a `NaiveDateTime` struct term.
    pub fn from_term(term: &Term) -> (r: Option<Self>)
        ensures
            r == naive_of_term(term@),
    {
        if !term.is_struct_of("Elixir.NaiveDateTime") {
            return None;
        }
        let year = match term.integer_field("year") {
            Some(v) => v,
            None => {
                return None;
            },
        };
        let month = match term.integer_field("month") {
            Some(v) => v,
            None => {
                return None;
            },
        };
        let day = match term.integer_field("day") {
            Some(v) => v,
            None => {
                return None;
            },
        };
        let hour = match term.integer_field("hour") {
            Some(v) => v,
            None => {
                return None;
            },
        };
        let minute = match term.integer_field("minute") {
            Some(v) => v,
            None => {
                return None;
            },
        };
        let second = match term.integer_field("second") {
            Some(v) => v,
            None => {
                return None;
            },
        };
        let us = match microsecond_field(term) {
            Some(us) => us,
            None => {
                return None;
            },
        };
        Some(
            ElixirNaiveDateTime {
                year: year as i32,
                month: month as u8,
                day: day as u8,
                hour: hour as u8,
                minute: minute as u8,
                second: second as u8,
                microsecond_value: us.0,
                microsecond_precision: us.1,
            },
        )
    }

    /// The `NaiveDateTime` struct term.
    pub fn to_term(&self) -> (r: Term)
        ensures
            r@ == naive_term(*self),
    {
        let entries: Vec<(Term, Term)> = vec![
            term::atom_entry("__struct__", Term::atom("Elixir.NaiveDateTime")),
            term::atom_entry("year", Term::Integer(self.year as i64)),
            term::atom_entry("month", Term::Integer(self.month as i64)),
            term::atom_entry("day", Term::Integer(self.day as i64)),
            term::atom_entry("hour", Term::Integer(self.hour as i64)),
            term::atom_entry("minute", Term::Integer(self.minute as i64)),
            term::atom_entry("second", Term::Integer(self.second as i64)),
            term::atom_entry("microsecond", microsecond_term(self.microsecond_value, self.microsecond_precision)),
            term::atom_entry("calendar", Term::atom("Elixir.Calendar.ISO")),
        ];
        proof {
            term::lemma_pair_values_index(entries@);
            assert(Term::pair_values(entries@) =~= naive_term(*self)->ErlMap_0);
        }
        term::erl_map(entries)
    }

    /// `~N[YYYY-MM-DD hh:mm:ss]`, with the fraction when the precision is
    /// above 0.
    pub fn to_string(&self) -> (r: String)
        requires
            self.microsecond_precision <= 6,
        ensures
            r@ == naive_text(*self),
    {
        let ghost me = *self;
        let mut s = String::from_str("~N[");
        push_date(&mut s, self.year, self.month, self.day);
        s.append(" ");
        push_clock(
            &mut s,
            self.hour,
            self.minute,
            self.second,
            self.microsecond_value,
            self.microsecond_precision,
        );
        s.append("]");
        assert(s@ =~= naive_text(me));
        s
    }
}

/// An Elixir `DateTime` with its time zone (`~U[2025-12-25 14:30:00Z]`).
#[derive(Debug, Clone, PartialEq, Eq, Hash)]
pub struct ElixirDateTime {
    pub year: i32,
    pub month: u8,
    pub day: u8,
    pub hour: u8,
    pub minute: u8,
    pub second: u8,
    pub microsecond_value: u32,
    pub microsecond_precision: u8,
    pub time_zone: String,
    pub zone_abbr: String,
    pub utc_offset: i32,
    pub std_offset: i32,
}

/// A date-time with its zone names as text.
pub struct DateTimeV {
    pub year: i32,
    pub month: u8,
    pub day: u8,
    pub hour: u8,
    pub minute: u8,
    pub second: u8,
    pub microsecond_value: u32,
    pub microsecond_precision: u8,
    pub time_zone: Seq<char>,
    pub zone_abbr: Seq<char>,
    pub utc_offset: i32,
    pub std_offset: i32,
}

impl View for ElixirDateTime {
    type V = DateTimeV;

    open spec fn view(&self) -> DateTimeV {
        DateTimeV {
            year: self.year,
            month: self.month,
            day: self.day,
            hour: self.hour,
            minute: self.minute,
            second: self.second,
            microsecond_value: self.microsecond_value,
            microsecond_precision: self.microsecond_precision,
            time_zone: self.time_zone@,
            zone_abbr: self.zone_abbr@,
            utc_offset: self.utc_offset,
            std_offset: self.std_offset,
        }
    }
}

/// The struct term of a date-time; the zone names are binaries.
pub open spec fn datetime_term(d: DateTimeV) -> TermV {
    TermV::ErlMap(seq![
        (TermV::Atom("__struct__"@), TermV::Atom("Elixir.DateTime"@)),
        (TermV::Atom("year"@), TermV::Integer(d.year as i64)),
        (TermV::Atom("month"@), TermV::Integer(d.month as i64)),
        (TermV::Atom("day"@), TermV::Integer(d.day as i64)),
        (TermV::Atom("hour"@), TermV::Integer(d.hour as i64)),
        (TermV::Atom("minute"@), TermV::Integer(d.minute as i64)),
        (TermV::Atom("second"@), TermV::Integer(d.second as i64)),
        (TermV::Atom("microsecond"@), TermV::Tuple(seq![TermV::Integer(d.microsecond_value as i64), TermV::Integer(d.microsecond_precision as i64)])),
        (TermV::Atom("time_zone"@), TermV::Binary(utf8::encode_utf8(d.time_zone))),
        (TermV::Atom("zone_abbr"@), TermV::Binary(utf8::encode_utf8(d.zone_abbr))),
        (TermV::Atom("utc_offset"@), TermV::Integer(d.utc_offset as i64)),
        (TermV::Atom("std_offset"@), TermV::Integer(d.std_offset as i64)),
        (TermV::Atom("calendar"@), TermV::Atom("Elixir.Calendar.ISO"@)),
    ])
}

/// The date-time a term holds.
pub open spec fn datetime_of_term(t: TermV) -> Option<DateTimeV> {
    if term::struct_module(t) != Some("Elixir.DateTime"@) {
        None
    } else {
        match (
            term::integer_field_of(t, "year"@),
            term::integer_field_of(t, "month"@),
            term::integer_field_of(t, "day"@),
            term::integer_field_of(t, "hour"@),
            term::integer_field_of(t, "minute"@),
            term::integer_field_of(t, "second"@),
            microsecond_of_term(t),
        ) {
            (Some(y), Some(mo), Some(d), Some(h), Some(mi), Some(s), Some(us)) => match (
                term::string_field_of(t, "time_zone"@),
                term::string_field_of(t, "zone_abbr"@),
                term::integer_field_of(t, "utc_offset"@),
                term::integer_field_of(t, "std_offset"@),
            ) {
                (Some(tz), Some(za), Some(uo), Some(so)) => Some(
                    DateTimeV {
                        year: y as i32,
                        month: mo as u8,
                        day: d as u8,
                        hour: h as u8,
                        minute: mi as u8,
                        second: s as u8,
                        microsecond_value: us.0,
                        microsecond_precision: us.1,
                        time_zone: tz,
                        zone_abbr: za,
                        utc_offset: uo as i32,
                        std_offset: so as i32,
                    },
                ),
                _ => None,
            },
            _ => None,
        }
    }
}

/// The zone as written: `Z` for UTC, else the abbreviation.
pub open spec fn zone_text(zone_abbr: Seq<char>) -> Seq<char> {
    if zone_abbr == "UTC"@ {
        "Z"@
    } else {
        zone_abbr
    }
}

/// The text of a date-time: `~U[YYYY-MM-DD hh:mm:ss` with the fraction, then
/// the zone and `]`.
pub open spec fn datetime_text(d: DateTimeV) -> Seq<char> {
    "~U["@ + date_part(d.year, d.month, d.day) + " "@ + clock_part(
        d.hour,
        d.minute,
        d.second,
        d.microsecond_value,
        d.microsecond_precision,
    ) + zone_text(d.zone_abbr) + "]"@
}

impl ElixirDateTime {
    /// A UTC date-time, not checked; the precision is cut to 6.
    pub fn utc(
        year: i32,
        month: u8,
        day: u8,
        hour: u8,
        minute: u8,
        second: u8,
        microsecond: u32,
        precision: u8,
    ) -> (r: Self)
        ensures
            r@ == (DateTimeV {
                year,
                month,
                day,
                hour,
                minute,
                second,
                microsecond_value: microsecond,
                microsecond_precision: clamp_precision(precision),
                time_zone: "Etc/UTC"@,
                zone_abbr: "UTC"@,
                utc_offset: 0,
                std_offset: 0,
            }),
    {
        ElixirDateTime {
            year,
            month,
            day,
            hour,
            minute,
            second,
            microsecond_value: microsecond,
            microsecond_precision: if precision > 6 {
                6
            } else {
                precision
            },
            time_zone: String::from_str("Etc/UTC"),
            zone_abbr: String::from_str("UTC"),
            utc_offset: 0,
            std_offset: 0,
        }
    }

    /// A UTC date-time, if the date is a calendar day and the time is in range.
    pub fn try_utc(
        year: i32,
        month: u8,
        day: u8,
        hour: u8,
        minute: u8,
        second: u8,
        microsecond: u32,
        precision: u8,
    ) -> (r: Option<Self>)
        ensures
            (valid_date(year as int, month as int, day as int) && valid_time(
                hour as int,
                minute as int,
                second as int,
                microsecond as int,
                precision as int,
            )) ==> (r matches Some(d) && d@ == (DateTimeV {
                year,
                month,
                day,
                hour,
                minute,
                second,
                microsecond_value: microsecond,
                microsecond_precision: precision,
                time_zone: "Etc/UTC"@,
                zone_abbr: "UTC"@,
                utc_offset: 0,
                std_offset: 0,
            })),
            !(valid_date(year as int, month as int, day as int) && valid_time(
                hour as int,
                minute as int,
                second as int,
                microsecond as int,
                precision as int,
            )) ==> r is None,
    {
        if ElixirDate::try_new(year, month, day).is_none() {
            return None;
        }
        if ElixirTime::try_new(hour, minute, second, microsecond, precision).is_none() {
            return None;
        }
        Some(
            ElixirDateTime {
                year,
                month,
                day,
                hour,
                minute,
                second,
                microsecond_value: microsecond,
                microsecond_precision: precision,
                time_zone: String::from_str("Etc/UTC"),
                zone_abbr: String::from_str("UTC"),
                utc_offset: 0,
                std_offset: 0,
            },
        )
    }

    /// A date-time in a named zone, not checked; the precision is cut to 6.
    pub fn with_timezone(
        year: i32,
        month: u8,
        day: u8,
        hour: u8,
        minute: u8,
        second: u8,
        microsecond: u32,
        precision: u8,
        time_zone: &str,
        zone_abbr: &str,
        utc_offset: i32,
        std_offset: i32,
    ) -> (r: Self)
        ensures
            r@ == (DateTimeV {
                year,
                month,
                day,
                hour,
                minute,
                second,
                microsecond_value: microsecond,
                microsecond_precision: clamp_precision(precision),
                time_zone: time_zone@,
                zone_abbr: zone_abbr@,
                utc_offset,
                std_offset,
            }),
    {
        ElixirDateTime {
            year,
            month,
            day,
            hour,
            minute,
            second,
            microsecond_value: microsecond,
            microsecond_precision: if precision > 6 {
                6
            } else {
                precision
            },
            time_zone: String::from_str(time_zone),
            zone_abbr: String::from_str(zone_abbr),
            utc_offset,
            std_offset,
        }
    }

    /// The date part.
    pub fn to_date(&self) -> (r: ElixirDate)
        ensures
            r == (ElixirDate { year: self.year, month: self.month, day: self.day }),
    {
        ElixirDate::new(self.year, self.month, self.day)
    }

    /// The time part (its precision cut to 6).
    pub fn to_time(&self) -> (r: ElixirTime)
        ensures
            r == (ElixirTime {
                hour: self.hour,
                minute: self.minute,
                second: self.second,
                microsecond_value: self.microsecond_value,
                microsecond_precision: clamp_precision(self.microsecond_precision),
            }),
    {
        ElixirTime::new(
            self.hour,
            self.minute,
            self.second,
            self.microsecond_value,
            self.microsecond_precision,
        )
    }

    /// The date-time without its zone (precision cut to 6).
    pub fn to_naive(&self) -> (r: ElixirNaiveDateTime)
        ensures
            r == (ElixirNaiveDateTime {
                year: self.year,
                month: self.month,
                day: self.day,
                hour: self.hour,
                minute: self.minute,
                second: self.second,
                microsecond_value: self.microsecond_value,
                microsecond_precision: clamp_precision(self.microsecond_precision),
            }),
    {
        ElixirNaiveDateTime::new(
            self.year,
            self.month,
            self.day,
            self.hour,
            self.minute,
            self.second,
            self.microsecond_value,
            self.microsecond_precision,
        )
    }

    /// The date-time held by a `DateTime` struct term; the zone names are read
    /// as text.
    pub fn from_term(term: &Term) -> (r: Option<Self>)
        ensures
            match datetime_of_term(term@) {
                Some(v) => r matches Some(d) && d@ == v,
                None => r is None,
            },
    {
        if !term.is_struct_of("Elixir.DateTime") {
            return None;
        }
        let year = match term.integer_field("year") {
            Some(v) => v,
            None => {
                return None;
            },
        };
        let month = match term.integer_field("month") {
            Some(v) => v,
            None => {
                return None;
            },
        };
        let day = match term.integer_field("day") {
            Some(v) => v,
            None => {
                return None;
            },
        };
        let hour = match term.integer_field("hour") {
            Some(v) => v,
            None => {
                return None;
            },
        };
        let minute = match term.integer_field("minute") {
            Some(v) => v,
            None => {
                return None;
            },
        };
        let second = match term.integer_field("second") {
            Some(v) => v,
            None => {
                return None;
            },
        };
        let us = match microsecond_field(term) {
            Some(us) => us,
            None => {
                return None;
            },
        };
        let time_zone = match term.map_get("time_zone") {
            Some(t) => match t.as_erlang_string() {
                Some(s) => s,
                None => {
                    return None;
                },
            },
            None => {
                return None;
            },
        };
        let zone_abbr = match term.map_get("zone_abbr") {
            Some(t) => match t.as_erlang_string() {
                Some(s) => s,
                None => {
                    return None;
                },
            },
            None => {
                return None;
            },
        };
        let utc_offset = match term.integer_field("utc_offset") {
            Some(v) => v,
            None => {
                return None;
            },
        };
        let std_offset = match term.integer_field("std_offset") {
            Some(v) => v,
            None => {
                return None;
            },
        };
        Some(
            ElixirDateTime {
                year: year as i32,
                month: month as u8,
                day: day as u8,
                hour: hour as u8,
                minute: minute as u8,
                second: second as u8,
                microsecond_value: us.0,
                microsecond_precision: us.1,
                time_zone,
                zone_abbr,
                utc_offset: utc_offset as i32,
                std_offset: std_offset as i32,
            },
        )
    }

    /// The `DateTime` struct term; the zone names are UTF-8 binaries.
    pub fn to_term(&self) -> (r: Term)
        ensures
            r@ == datetime_term(self@),
    {
        let entries: Vec<(Term, Term)> = vec![
            term::atom_entry("__struct__", Term::atom("Elixir.DateTime")),
            term::atom_entry("year", Term::Integer(self.year as i64)),
            term::atom_entry("month", Term::Integer(self.month as i64)),
            term::atom_entry("day", Term::Integer(self.day as i64)),
            term::atom_entry("hour", Term::Integer(self.hour as i64)),
            term::atom_entry("minute", Term::Integer(self.minute as i64)),
            term::atom_entry("second", Term::Integer(self.second as i64)),
            term::atom_entry("microsecond", microsecond_term(self.microsecond_value, self.microsecond_precision)),
            term::atom_entry("time_zone", Term::Binary(self.time_zone.as_str().as_bytes_vec())),
            term::atom_entry("zone_abbr", Term::Binary(self.zone_abbr.as_str().as_bytes_vec())),
            term::atom_entry("utc_offset", Term::Integer(self.utc_offset as i64)),
            term::atom_entry("std_offset", Term::Integer(self.std_offset as i64)),
            term::atom_entry("calendar", Term::atom("Elixir.Calendar.ISO")),
        ];
        proof {
            term::lemma_pair_values_index(entries@);
            assert(Term::pair_values(entries@) =~= datetime_term(self@)->ErlMap_0);
        }
        term::erl_map(entries)
    }

    /// `~U[YYYY-MM-DD hh:mm:ss` with the fraction when the precision is above
    /// 0, then `Z` for UTC or the zone abbreviation, and `]`.
    pub fn to_string(&self) -> (r: String)
        requires
            self.microsecond_precision <= 6,
        ensures
            r@ == datetime_text(self@),
    {
        let ghost me = self@;
        let mut s = String::from_str("~U[");
        push_date(&mut s, self.year, self.month, self.day);
        s.append(" ");
        push_clock(
            &mut s,
            self.hour,
            self.minute,
            self.second,
            self.microsecond_value,
            self.microsecond_precision,
        );
        if text::str_equal(self.zone_abbr.as_str(), "UTC") {
            s.append("Z");
        } else {
            s.append(self.zone_abbr.as_str());
        }
        s.append("]");
        assert(s@ =~= datetime_text(me));
        s
    }
}

/// Reading back the struct term of a date gives the date.
pub proof fn lemma_date_term_roundtrip(d: ElixirDate)
    ensures
        date_of_term(date_term(d)) == Some(d),
{
    reveal_strlit("__struct__");
    reveal_strlit("year");
    reveal_strlit("month");
    reveal_strlit("day");
    reveal_strlit("calendar");
    assert("__struct__"@.len() == 10);
    assert("year"@.len() == 4);
    assert("month"@.len() == 5);
    assert("day"@.len() == 3);
    assert("calendar"@.len() == 8);
    reveal_with_fuel(term::lookup_atom_key, 6);
}

/// Reading back the struct term of a time gives the time.
pub proof fn lemma_time_term_roundtrip(t: ElixirTime)
    ensures
        time_of_term(time_term(t)) == Some(t),
{
    reveal_strlit("__struct__");
    reveal_strlit("hour");
    reveal_strlit("minute");
    reveal_strlit("second");
    reveal_strlit("microsecond");
    reveal_strlit("calendar");
    assert("__struct__"@.len() == 10);
    assert("hour"@.len() == 4);
    assert("minute"@.len() == 6);
    assert("second"@.len() == 6);
    assert("microsecond"@.len() == 11);
    assert("calendar"@.len() == 8);
    reveal_with_fuel(term::lookup_atom_key, 7);
    assert("minute"@[0] == 'm' && "second"@[0] == 's');
}

/// Reading back the struct term of a naive date-time gives it back.
pub proof fn lemma_naive_term_roundtrip(n: ElixirNaiveDateTime)
    ensures
        naive_of_term(naive_term(n)) == Some(n),
{
    reveal_strlit("__struct__");
    reveal_strlit("year");
    reveal_strlit("month");
    reveal_strlit("day");
    reveal_strlit("hour");
    reveal_strlit("minute");
    reveal_strlit("second");
    reveal_strlit("microsecond");
    reveal_strlit("calendar");
    assert("__struct__"@.len() == 10);
    assert("year"@.len() == 4);
    assert("month"@.len() == 5);
    assert("day"@.len() == 3);
    assert("hour"@.len() == 4);
    assert("minute"@.len() == 6);
    assert("second"@.len() == 6);
    assert("microsecond"@.len() == 11);
    assert("calendar"@.len() == 8);
    reveal_with_fuel(term::lookup_atom_key, 10);
    assert("minute"@[0] == 'm' && "second"@[0] == 's');
    assert("year"@[0] == 'y' && "hour"@[0] == 'h');
}

/// Reading back the struct term of a date-time gives it back: the zone names
/// are written as UTF-8 and read back as the same text.
pub proof fn lemma_datetime_term_roundtrip(d: DateTimeV)
    ensures
        datetime_of_term(datetime_term(d)) == Some(d),
{
    reveal_strlit("__struct__");
    reveal_strlit("year");
    reveal_strlit("month");
    reveal_strlit("day");
    reveal_strlit("hour");
    reveal_strlit("minute");
    reveal_strlit("second");
    reveal_strlit("microsecond");
    reveal_strlit("time_zone");
    reveal_strlit("zone_abbr");
    reveal_strlit("utc_offset");
    reveal_strlit("std_offset");
    reveal_strlit("calendar");
    assert("__struct__"@.len() == 10);
    assert("year"@.len() == 4);
    assert("month"@.len() == 5);
    assert("day"@.len() == 3);
    assert("hour"@.len() == 4);
    assert("minute"@.len() == 6);
    assert("second"@.len() == 6);
    assert("microsecond"@.len() == 11);
    assert("time_zone"@.len() == 9);
    assert("zone_abbr"@.len() == 9);
    assert("utc_offset"@.len() == 10);
    assert("std_offset"@.len() == 10);
    assert("calendar"@.len() == 8);
    reveal_with_fuel(term::lookup_atom_key, 14);
    assert("minute"@[0] == 'm' && "second"@[0] == 's');
    assert("year"@[0] == 'y' && "hour"@[0] == 'h');
    assert("time_zone"@[0] == 't' && "zone_abbr"@[0] == 'z');
    assert("utc_offset"@[0] == 'u' && "std_offset"@[0] == 's' && "__struct__"@[0] == '_');
    utf8::encode_utf8_valid_utf8(d.time_zone);
    utf8::encode_utf8_decode_utf8(d.time_zone);
    utf8::encode_utf8_valid_utf8(d.zone_abbr);
    utf8::encode_utf8_decode_utf8(d.zone_abbr);
}

} // verus!
