//! Calendar dates as plain values, with the parsing and formatting that the
//! `chrono` crate performs on them.
use chrono::Datelike;
use crate::text::digit_char;
use vstd::prelude::*;

verus! {

/// A proleptic Gregorian calendar date.
#[derive(Clone, Copy, Debug, PartialEq, Eq, Structural)]
pub struct Date {
    pub year: i32,
    pub month: u32,
    pub day: u32,
}

/// The date layouts that the library reads and writes.
#[derive(Clone, Copy, Debug, PartialEq, Eq, Structural)]
pub enum DateStyle {
    /// `%Y-%m-%d`, e.g. `2026-05-08`.
    Iso,
    /// `%m/%d/%Y`, e.g. `05/08/2026`.
    MonthDayYearSlash,
    /// `%m-%d-%Y`, e.g. `05-08-2026`.
    MonthDayYearDash,
    /// `%d-%m-%y`, e.g. `08-05-26`.
    DayMonthShortYear,
    /// `%d-%m-%Y`, e.g. `08-05-2026`.
    DayMonthYear,
}

pub open spec fn is_leap_year(y: int) -> bool {
    (y % 4 == 0 && y % 100 != 0) || y % 400 == 0
}

pub open spec fn days_in_month(y: int, m: int) -> int {
    if m == 2 {
        if is_leap_year(y) { 29 } else { 28 }
    } else if m == 4 || m == 6 || m == 9 || m == 11 {
        30
    } else {
        31
    }
}

impl Date {
    /// A date that `chrono::NaiveDate` can hold: a real calendar day within
    /// the years chrono supports.
    pub open spec fn is_valid(self) -> bool {
        &&& -262143 <= self.year <= 262142
        &&& 1 <= self.month <= 12
        &&& 1 <= self.day <= days_in_month(self.year as int, self.month as int)
    }

    /// The date `year-month-day`, when that is a real calendar day within the
    /// years chrono supports, -262143 to 262142 (`NaiveDate::from_ymd_opt`).
    pub fn from_ymd(year: i32, month: u32, day: u32) -> (r: Option<Date>)
        ensures
            r matches Some(d) ==> d.year == year && d.month == month && d.day == day,
            r is Some <==> (Date { year, month, day }).is_valid(),
    {
        if year < -262143 || year > 262142 || month < 1 || month > 12 || day < 1 {
            return None;
        }
        let shifted: i64 = year as i64 + 400000;
        proof {
            vstd::arithmetic::div_mod::lemma_mod_add_multiples_vanish(year as int, 4);
            assert((year as int + 400000) % 4 == (year as int) % 4) by {
                vstd::arithmetic::div_mod::lemma_mod_multiples_vanish(100000, year as int, 4);
            }
            assert((year as int + 400000) % 100 == (year as int) % 100) by {
                vstd::arithmetic::div_mod::lemma_mod_multiples_vanish(4000, year as int, 100);
            }
            assert((year as int + 400000) % 400 == (year as int) % 400) by {
                vstd::arithmetic::div_mod::lemma_mod_multiples_vanish(1000, year as int, 400);
            }
        }
        let leap = (shifted % 4 == 0 && shifted % 100 != 0) || shifted % 400 == 0;
        let dim: u32 = if month == 2 {
            if leap { 29 } else { 28 }
        } else if month == 4 || month == 6 || month == 9 || month == 11 {
            30
        } else {
            31
        };
        if day > dim {
            return None;
        }
        Some(Date { year, month, day })
    }
}

/// The `chrono` format string of a style.
pub open spec fn style_pattern(style: DateStyle) -> Seq<char> {
    match style {
        DateStyle::Iso => "%Y-%m-%d"@,
        DateStyle::MonthDayYearSlash => "%m/%d/%Y"@,
        DateStyle::MonthDayYearDash => "%m-%d-%Y"@,
        DateStyle::DayMonthShortYear => "%d-%m-%y"@,
        DateStyle::DayMonthYear => "%d-%m-%Y"@,
    }
}

/// What `NaiveDate::parse_from_str(s, pattern)` yields for the pattern of `style`.
pub uninterp spec fn parsed_date(s: Seq<char>, style: DateStyle) -> Option<Date>;

/// What `NaiveDate::format(pattern).to_string()` yields for the pattern of `style`.
pub uninterp spec fn formatted_date(d: Date, style: DateStyle) -> Seq<char>;

/// `n` (below 100) as two digits, zero-padded.
pub open spec fn two_digits(n: nat) -> Seq<char> {
    seq![digit_char(n / 10), digit_char(n % 10)]
}

/// `n` (below 10000) as four digits, zero-padded.
pub open spec fn four_digits(n: nat) -> Seq<char> {
    seq![digit_char(n / 1000), digit_char(n / 100 % 10), digit_char(n / 10 % 10), digit_char(n % 10)]
}

/// A date of the years 0 to 9999 in the layout of `style`: day and month as
/// two digits, the year as four (as two, its last two, for `%y`).
pub open spec fn date_text(d: Date, style: DateStyle) -> Seq<char> {
    let y = four_digits(d.year as nat);
    let m = two_digits(d.month as nat);
    let dd = two_digits(d.day as nat);
    match style {
        DateStyle::Iso => y + "-"@ + m + "-"@ + dd,
        DateStyle::MonthDayYearSlash => m + "/"@ + dd + "/"@ + y,
        DateStyle::MonthDayYearDash => m + "-"@ + dd + "-"@ + y,
        DateStyle::DayMonthShortYear => dd + "-"@ + m + "-"@ + two_digits((d.year % 100) as nat),
        DateStyle::DayMonthYear => dd + "-"@ + m + "-"@ + y,
    }
}

fn pattern_of(style: DateStyle) -> (p: &'static str)
    ensures
        p@ == style_pattern(style),
{
    match style {
        DateStyle::Iso => "%Y-%m-%d",
        DateStyle::MonthDayYearSlash => "%m/%d/%Y",
        DateStyle::MonthDayYearDash => "%m-%d-%Y",
        DateStyle::DayMonthShortYear => "%d-%m-%y",
        DateStyle::DayMonthYear => "%d-%m-%Y",
    }
}

/// Calls `chrono::NaiveDate::parse_from_str` with the pattern of `style`.
/// What it accepts is named `parsed_date`; what the contract claims besides is
/// that an accepted date is a valid one, since a `NaiveDate` always is.
#[verifier::external_body]
fn chrono_parse(s: &str, pattern: &str, style: DateStyle) -> (r: Option<Date>)
    requires
        pattern@ == style_pattern(style),
    ensures
        r == parsed_date(s@, style),
        r matches Some(d) ==> d.is_valid(),
{
    chrono::NaiveDate::parse_from_str(s, pattern).ok().map(
        |d| Date { year: d.year(), month: d.month(), day: d.day() },
    )
}

/// Calls `chrono::NaiveDate::format` with the pattern of `style` and renders it.
/// The text is named `formatted_date`. The contract claims besides what
/// chrono's formatting code writes for the years 0 to 9999: `%d` and `%m` as
/// two digits, `%Y` as four, `%y` as the last two; and that a date
/// `NaiveDate::from_ymd_opt` rejects renders as the empty text. Other years
/// (which `%Y` writes with a sign) are left to the name.
#[verifier::external_body]
fn chrono_format(d: Date, pattern: &str, style: DateStyle) -> (r: String)
    requires
        pattern@ == style_pattern(style),
    ensures
        r@ == formatted_date(d, style),
        d.is_valid() && 0 <= d.year <= 9999 ==> r@ == date_text(d, style),
        !d.is_valid() ==> r@ == Seq::<char>::empty(),
{
    match chrono::NaiveDate::from_ymd_opt(d.year, d.month, d.day) {
        Some(n) => n.format(pattern).to_string(),
        None => String::new(),
    }
}

/// Parses `s` in the layout of `style`.
pub fn parse_date_as(s: &str, style: DateStyle) -> (r: Option<Date>)
    ensures
        r == parsed_date(s@, style),
        r matches Some(d) ==> d.is_valid(),
{
    chrono_parse(s, pattern_of(style), style)
}

/// Renders `d` in the layout of `style`.
pub fn format_date_as(d: Date, style: DateStyle) -> (r: String)
    ensures
        r@ == formatted_date(d, style),
        d.is_valid() && 0 <= d.year <= 9999 ==> r@ == date_text(d, style),
        !d.is_valid() ==> r@ == Seq::<char>::empty(),
{
    chrono_format(d, pattern_of(style), style)
}

} // verus!
