//! Calendar days as plain integers, with `chrono` doing the conversions
//! between day numbers, dates and their text.
//!
//! A [`CalDate`] is chrono's `num_days_from_ce`: 0001-01-01 is day 1, and
//! consecutive days are consecutive integers, so ordering and "the next day"
//! are integer comparison and `+ 1`.

use vstd::prelude::*;
use chrono::Datelike;

verus! {

/// A calendar day, counted as chrono's `num_days_from_ce` (0001-01-01 is 1).
#[derive(Clone, Copy, Debug, PartialEq, Eq, Structural, Hash, PartialOrd, Ord)]
pub struct CalDate {
    pub days: i32,
}

/// The first and last years chrono represents (`NaiveDate::MIN` and `MAX`).
pub const MIN_YEAR: i32 = -262143;
pub const MAX_YEAR: i32 = 262142;

/// A leap year of the proleptic Gregorian calendar.
pub open spec fn is_leap(y: int) -> bool {
    y % 4 == 0 && (y % 100 != 0 || y % 400 == 0)
}

/// The number of days in month `m` of year `y`.
pub open spec fn days_in_month(y: int, m: int) -> int {
    if m == 2 {
        if is_leap(y) { 29 } else { 28 }
    } else if m == 4 || m == 6 || m == 9 || m == 11 {
        30
    } else {
        31
    }
}

/// The days of year `y` before the first of month `m`.
pub open spec fn days_before_month(y: int, m: int) -> int {
    let common: int = if m <= 1 { 0 } else if m == 2 { 31 } else if m == 3 { 59 } else if m == 4 { 90 }
        else if m == 5 { 120 } else if m == 6 { 151 } else if m == 7 { 181 } else if m == 8 { 212 }
        else if m == 9 { 243 } else if m == 10 { 273 } else if m == 11 { 304 } else { 334 };
    common + if m > 2 && is_leap(y) { 1int } else { 0int }
}

/// A date chrono accepts: a real day of a real month, in its year range.
pub open spec fn is_valid_date(y: int, m: int, d: int) -> bool {
    &&& MIN_YEAR <= y <= MAX_YEAR
    &&& 1 <= m <= 12
    &&& 1 <= d <= days_in_month(y, m)
}

/// The day number of a date in the proleptic Gregorian calendar, counting
/// January 1 of year 1 as day 1 (so December 31 of year 0 is day 0).
pub open spec fn day_number(y: int, m: int, d: int) -> int {
    let p = y - 1;
    365 * p + p / 4 - p / 100 + p / 400 + days_before_month(y, m) + d
}

/// `NaiveDate::from_ymd_opt` followed by `num_days_from_ce`.
pub open spec fn spec_days_from_ymd(year: i32, month: u32, day: u32) -> Option<i32> {
    if is_valid_date(year as int, month as int, day as int) {
        Some(day_number(year as int, month as int, day as int) as i32)
    } else {
        None
    }
}

/// `NaiveDate::from_num_days_from_ce_opt` read back as `(year, month,
/// day)`: the date with that day number, for day numbers between
/// chrono's first and last date.
pub open spec fn spec_ymd_from_days(days: i32) -> Option<(i32, u32, u32)> {
    if day_number(MIN_YEAR as int, 1, 1) <= days <= day_number(MAX_YEAR as int, 12, 31) {
        Some(choose|t: (i32, u32, u32)| is_valid_date(t.0 as int, t.1 as int, t.2 as int)
            && day_number(t.0 as int, t.1 as int, t.2 as int) == days)
    } else {
        None
    }
}

/// The next month starts the day after this one ends.
pub proof fn lemma_month_step(y: int, m: int)
    requires
        1 <= m < 12,
    ensures
        days_before_month(y, m + 1) == days_before_month(y, m) + days_in_month(y, m),
{
}

/// Months start in order within a year.
pub proof fn lemma_month_order(y: int, a: int, b: int)
    requires
        1 <= a <= b <= 12,
    ensures
        days_before_month(y, a) + days_in_month(y, a) <= days_before_month(y, b) || a == b,
        days_before_month(y, a) <= days_before_month(y, b),
{
}

/// The next year starts the day after December 31.
pub proof fn lemma_year_step(y: int)
    ensures
        day_number(y + 1, 1, 1) == day_number(y, 12, 31) + 1,
{
    let p = y - 1;
    assert(y / 4 - p / 4 == (if y % 4 == 0 { 1int } else { 0int }));
    assert(y / 100 - p / 100 == (if y % 100 == 0 { 1int } else { 0int }));
    assert(y / 400 - p / 400 == (if y % 400 == 0 { 1int } else { 0int }));
}

/// A month and day that exist in year `y`, whatever the year.
pub open spec fn is_day_of_year(y: int, m: int, d: int) -> bool {
    1 <= m <= 12 && 1 <= d <= days_in_month(y, m)
}

/// Later years start later.
pub proof fn lemma_year_order(a: int, b: int)
    requires
        a < b,
    ensures
        day_number(a, 12, 31) < day_number(b, 1, 1),
    decreases b - a,
{
    lemma_year_step(a);
    if a + 1 < b {
        lemma_year_order(a + 1, b);
        lemma_year_step(a + 1);
        lemma_day_within_year(a + 1, 12, 31);
    }
}

/// A day lies between its year's first and last day.
pub proof fn lemma_day_within_year(y: int, m: int, d: int)
    requires
        is_day_of_year(y, m, d),
    ensures
        day_number(y, 1, 1) <= day_number(y, m, d) <= day_number(y, 12, 31),
{
    lemma_month_order(y, m, 12);
    lemma_month_order(y, 1, m);
}

/// Day numbers follow the calendar: a date earlier in (year, month, day)
/// order has a smaller number.
pub proof fn lemma_day_order(y1: int, m1: int, d1: int, y2: int, m2: int, d2: int)
    requires
        is_day_of_year(y1, m1, d1),
        is_day_of_year(y2, m2, d2),
        y1 < y2 || (y1 == y2 && m1 < m2) || (y1 == y2 && m1 == m2 && d1 < d2),
    ensures
        day_number(y1, m1, d1) < day_number(y2, m2, d2),
{
    if y1 < y2 {
        lemma_day_within_year(y1, m1, d1);
        lemma_day_within_year(y2, m2, d2);
        lemma_year_order(y1, y2);
    } else if m1 < m2 {
        lemma_month_order(y1, m1, m2);
    }
}

/// Distinct dates have distinct day numbers.
pub proof fn lemma_day_number_injective(y1: int, m1: int, d1: int, y2: int, m2: int, d2: int)
    requires
        is_day_of_year(y1, m1, d1),
        is_day_of_year(y2, m2, d2),
        day_number(y1, m1, d1) == day_number(y2, m2, d2),
    ensures
        y1 == y2 && m1 == m2 && d1 == d2,
{
    if y1 < y2 || (y1 == y2 && m1 < m2) || (y1 == y2 && m1 == m2 && d1 < d2) {
        lemma_day_order(y1, m1, d1, y2, m2, d2);
    } else if y2 < y1 || (y1 == y2 && m2 < m1) || (y1 == y2 && m1 == m2 && d2 < d1) {
        lemma_day_order(y2, m2, d2, y1, m1, d1);
    }
}

/// A date chrono accepts reads back as itself from its day number, which
/// fits an `i32`.
pub proof fn lemma_ymd_of_date(y: int, m: int, d: int)
    requires
        is_valid_date(y, m, d),
    ensures
        i32::MIN <= day_number(y, m, d) <= i32::MAX,
        spec_ymd_from_days(day_number(y, m, d) as i32) == Some((y as i32, m as u32, d as u32)),
{
    let n = day_number(y, m, d);
    assert(day_number(MIN_YEAR as int, 1, 1) == -95_746_129);
    assert(day_number(MAX_YEAR as int, 12, 31) == 95_745_399);
    if y > MIN_YEAR || m > 1 || d > 1 {
        lemma_day_order(MIN_YEAR as int, 1, 1, y, m, d);
    }
    if y < MAX_YEAR || m < 12 || d < 31 {
        lemma_day_order(y, m, d, MAX_YEAR as int, 12, 31);
    }
    let w: (i32, u32, u32) = (y as i32, m as u32, d as u32);
    assert(is_valid_date(w.0 as int, w.1 as int, w.2 as int) && day_number(w.0 as int, w.1 as int, w.2 as int) == n as i32);
    let t = choose|t: (i32, u32, u32)| is_valid_date(t.0 as int, t.1 as int, t.2 as int)
        && day_number(t.0 as int, t.1 as int, t.2 as int) == n as i32;
    lemma_day_number_injective(t.0 as int, t.1 as int, t.2 as int, y, m, d);
}

/// Every day number in chrono's range is the number of some date.
pub proof fn lemma_every_day_has_a_date(n: int)
    requires
        day_number(MIN_YEAR as int, 1, 1) <= n <= day_number(MAX_YEAR as int, 12, 31),
    ensures
        exists|t: (int, int, int)| is_valid_date(t.0, t.1, t.2) && day_number(t.0, t.1, t.2) == n,
    decreases n - day_number(MIN_YEAR as int, 1, 1),
{
    if n == day_number(MIN_YEAR as int, 1, 1) {
        let w = (MIN_YEAR as int, 1int, 1int);
        assert(is_valid_date(w.0, w.1, w.2) && day_number(w.0, w.1, w.2) == n);
    } else {
        lemma_every_day_has_a_date(n - 1);
        let t = choose|t: (int, int, int)| is_valid_date(t.0, t.1, t.2) && day_number(t.0, t.1, t.2) == n - 1;
        let (y, m, d) = t;
        if d < days_in_month(y, m) {
            let w = (y, m, d + 1);
            assert(is_valid_date(w.0, w.1, w.2) && day_number(w.0, w.1, w.2) == n);
        } else if m < 12 {
            lemma_month_step(y, m);
            let w = (y, m + 1, 1int);
            assert(is_valid_date(w.0, w.1, w.2) && day_number(w.0, w.1, w.2) == n);
        } else {
            lemma_year_step(y);
            if y == MAX_YEAR {
                assert(day_number(y, m, d) == day_number(MAX_YEAR as int, 12, 31));
            }
            let w = (y + 1, 1int, 1int);
            assert(is_valid_date(w.0, w.1, w.2) && day_number(w.0, w.1, w.2) == n);
        }
    }
}

/// A day number chrono reads back as a date is that date's number.
pub proof fn lemma_ymd_is_date(days: i32)
    ensures
        spec_ymd_from_days(days) matches Some(t) ==> is_valid_date(t.0 as int, t.1 as int, t.2 as int)
            && day_number(t.0 as int, t.1 as int, t.2 as int) == days,
{
    if day_number(MIN_YEAR as int, 1, 1) <= days <= day_number(MAX_YEAR as int, 12, 31) {
        lemma_every_day_has_a_date(days as int);
        let t = choose|t: (int, int, int)| is_valid_date(t.0, t.1, t.2) && day_number(t.0, t.1, t.2) == days;
        let w: (i32, u32, u32) = (t.0 as i32, t.1 as u32, t.2 as u32);
        assert(is_valid_date(w.0 as int, w.1 as int, w.2 as int) && day_number(w.0 as int, w.1 as int, w.2 as int) == days);
    }
}

/// `n` in decimal, padded with zeros to at least `width` digits.
pub open spec fn zero_padded(n: nat, width: nat) -> Seq<char> {
    let digits = crate::text::decimal(n);
    if digits.len() >= width {
        digits
    } else {
        Seq::new((width - digits.len()) as nat, |i: int| '0') + digits
    }
}

/// The year as chrono's `%Y` writes it: four digits within 0..=9999, else
/// a sign and at least four digits.
pub open spec fn year_text(y: int) -> Seq<char> {
    if 0 <= y <= 9999 {
        zero_padded(y as nat, 4)
    } else if y < 0 {
        seq!['-'] + zero_padded((-y) as nat, 4)
    } else {
        seq!['+'] + zero_padded(y as nat, 4)
    }
}

/// chrono's `Display` of the date with this day number: `%Y-%m-%d`.
pub open spec fn spec_date_text(days: i32) -> Option<Seq<char>> {
    match spec_ymd_from_days(days) {
        Some((y, m, d)) => Some(year_text(y as int) + seq!['-'] + zero_padded(m as nat, 2) + seq!['-'] + zero_padded(d as nat, 2)),
        None => None,
    }
}

/// `NaiveDate::from_ymd_opt(year, month, day)` followed by
/// `num_days_from_ce`: the day number of a valid date in chrono's range,
/// `None` for an invalid month or day, a day the month does not have, or a
/// year out of range.
#[verifier::external_body]
pub(crate) fn days_from_ymd(year: i32, month: u32, day: u32) -> (r: Option<i32>)
    ensures
        r == spec_days_from_ymd(year, month, day),
{
    match chrono::NaiveDate::from_ymd_opt(year, month, day) {
        Some(date) => Some(date.num_days_from_ce()),
        None => None,
    }
}

/// `NaiveDate::from_num_days_from_ce_opt(days)` read back as `(year, month,
/// day)`: the valid date with that day number, for any day number in
/// chrono's range, `None` outside it.
#[verifier::external_body]
pub(crate) fn ymd_from_days(days: i32) -> (r: Option<(i32, u32, u32)>)
    ensures
        r == spec_ymd_from_days(days),
        r matches Some(t) ==> is_valid_date(t.0 as int, t.1 as int, t.2 as int)
            && day_number(t.0 as int, t.1 as int, t.2 as int) == days,
{
    match chrono::NaiveDate::from_num_days_from_ce_opt(days) {
        Some(date) => Some((date.year(), date.month(), date.day())),
        None => None,
    }
}

/// chrono's `Display` of the date with this day number (`to_string`):
/// `YYYY-MM-DD`, the year signed outside 0..=9999.
#[verifier::external_body]
pub(crate) fn date_text(days: i32) -> (r: Option<String>)
    ensures
        match r {
            Some(s) => spec_date_text(days) == Some(s@),
            None => spec_date_text(days) is None,
        },
{
    match chrono::NaiveDate::from_num_days_from_ce_opt(days) {
        Some(date) => Some(date.to_string()),
        None => None,
    }
}

/// Today in the local time zone (`Local::now().naive_local().date()`), as
/// a day number. Which day that is depends on the clock and the zone; it is
/// always a date chrono represents.
#[verifier::external_body]
pub(crate) fn today() -> (d: CalDate)
    ensures
        day_number(MIN_YEAR as int, 1, 1) <= d.days <= day_number(MAX_YEAR as int, 12, 31),
{
    CalDate { days: chrono::Local::now().naive_local().date().num_days_from_ce() }
}

/// The ISO 8601 week number of a day: a week runs Monday to Sunday and
/// belongs to the year of its Thursday, and a year's weeks count from the
/// one holding its first Thursday. `None` when that Thursday is past the
/// dates chrono represents.
pub open spec fn iso_week_of(days: int) -> Option<int> {
    let thursday = days - weekday_of(days) + 3;
    if i32::MIN <= thursday <= i32::MAX {
        match spec_ymd_from_days(thursday as i32) {
            Some((y, _, _)) => Some((thursday - day_number(y as int, 1, 1)) / 7 + 1),
            None => None,
        }
    } else {
        None
    }
}

/// `NaiveDate::from_num_days_from_ce_opt(days)`, then `Datelike::iso_week`
/// and `IsoWeek::week`: the ISO 8601 week number (1 to 53) of a day in
/// chrono's range, `None` outside it.
#[verifier::external_body]
pub(crate) fn iso_week_number(days: i32) -> (r: Option<u32>)
    ensures
        r is Some <==> spec_ymd_from_days(days) is Some,
        r matches Some(w) ==> 1 <= w <= 53 && (iso_week_of(days as int) matches Some(n) ==> w == n),
{
    match chrono::NaiveDate::from_num_days_from_ce_opt(days) {
        Some(date) => Some(date.iso_week().week()),
        None => None,
    }
}

/// Monday-based weekday (0 = Monday … 6 = Sunday) of a day count: day 1,
/// 0001-01-01 of the proleptic Gregorian calendar, was a Monday.
pub open spec fn weekday_of(days: int) -> int {
    (days - 1) % 7
}

impl CalDate {
    /// Monday-based weekday, `num_days_from_monday`.
    pub fn weekday_from_monday(&self) -> (w: u32)
        ensures
            w == weekday_of(self.days as int),
            w < 7,
    {
        // Shift by a multiple of seven so the remainder is taken of a
        // non-negative number.
        let shifted: i64 = self.days as i64 - 1 + 2147483653;
        let w: i64 = shifted % 7;
        proof {
            let d: int = self.days as int - 1;
            assert(2147483653 == 7 * 306783379);
            assert((d + 7 * 306783379) % 7 == d % 7) by (nonlinear_arith);
        }
        w as u32
    }

    /// The day `year-month-day`, when chrono accepts that date
    /// (`NaiveDate::from_ymd_opt`).
    pub fn from_ymd(year: i32, month: u32, day: u32) -> (r: Option<CalDate>)
        ensures
            r == (match spec_days_from_ymd(year, month, day) {
                Some(d) => Some(CalDate { days: d }),
                None => None,
            }),
    {
        match days_from_ymd(year, month, day) {
            Some(d) => Some(CalDate { days: d }),
            None => None,
        }
    }

    /// The date as text, `YYYY-MM-DD` (the year signed outside 0..=9999),
    /// when chrono can represent the day.
    pub fn text(&self) -> (r: Option<String>)
        ensures
            match r {
                Some(s) => spec_date_text(self.days) == Some(s@),
                None => spec_date_text(self.days) is None,
            },
    {
        date_text(self.days)
    }

    /// The first day of a month, when chrono accepts it.
    pub fn month_start(year: i32, month: u32) -> (r: Option<CalDate>)
        ensures
            r == (match spec_days_from_ymd(year, month, 1) {
                Some(d) => Some(CalDate { days: d }),
                None => None,
            }),
    {
        CalDate::from_ymd(year, month, 1)
    }

    /// `(year, month, day)`, when chrono can represent the day.
    pub fn ymd(&self) -> (r: Option<(i32, u32, u32)>)
        ensures
            r == spec_ymd_from_days(self.days),
            r matches Some(t) ==> is_valid_date(t.0 as int, t.1 as int, t.2 as int)
                && day_number(t.0 as int, t.1 as int, t.2 as int) == self.days,
    {
        ymd_from_days(self.days)
    }
}

} // verus!
