//! The date / time picker: what its dialog starts from, what *OK* commits,
//! and the wrapping hour and minute steppers.

use std::fmt::Write;
use vstd::prelude::*;
use crate::dates::CalDate;
use crate::calendar::CalendarSelection;

verus! {

/// What the picker asks for.
#[derive(Clone, Copy, Debug, PartialEq, Eq, Structural)]
pub enum DateTimeMode {
    /// A calendar only; the time part of the value is left at midnight.
    Date,
    /// Hours and minutes only; the date part is kept (or today's).
    Time,
    /// Both, in one dialog.
    DateTime,
}

/// A picked value: a day and a time of day, to the minute.
#[derive(Clone, Copy, Debug, PartialEq, Eq, Structural)]
pub struct PickerValue {
    pub date: CalDate,
    pub hour: u32,
    pub minute: u32,
}

impl DateTimeMode {
    pub open spec fn has_date_spec(self) -> bool {
        self == DateTimeMode::Date || self == DateTimeMode::DateTime
    }

    pub open spec fn has_time_spec(self) -> bool {
        self == DateTimeMode::Time || self == DateTimeMode::DateTime
    }

    /// Whether the dialog shows a calendar.
    pub fn has_date(self) -> (b: bool)
        ensures
            b == self.has_date_spec(),
    {
        matches!(self, DateTimeMode::Date | DateTimeMode::DateTime)
    }

    /// Whether the dialog shows the time steppers.
    pub fn has_time(self) -> (b: bool)
        ensures
            b == self.has_time_spec(),
    {
        matches!(self, DateTimeMode::Time | DateTimeMode::DateTime)
    }

    /// The `strftime` pattern the trigger falls back to.
    pub fn default_format(self) -> (s: &'static str)
        ensures
            s@ == (match self {
                DateTimeMode::Date => "%Y-%m-%d"@,
                DateTimeMode::Time => "%H:%M"@,
                DateTimeMode::DateTime => "%Y-%m-%d %H:%M"@,
            }),
    {
        match self {
            DateTimeMode::Date => "%Y-%m-%d",
            DateTimeMode::Time => "%H:%M",
            DateTimeMode::DateTime => "%Y-%m-%d %H:%M",
        }
    }

    /// The dialog title it falls back to.
    pub fn default_title(self) -> (s: &'static str)
        ensures
            s@ == (match self {
                DateTimeMode::Date => "Select a date"@,
                DateTimeMode::Time => "Select a time"@,
                DateTimeMode::DateTime => "Select a date and time"@,
            }),
    {
        match self {
            DateTimeMode::Date => "Select a date",
            DateTimeMode::Time => "Select a time",
            DateTimeMode::DateTime => "Select a date and time",
        }
    }

    /// The trigger placeholder it falls back to.
    pub fn default_placeholder(self) -> (s: &'static str)
        ensures
            s@ == (match self {
                DateTimeMode::Date => "Pick a date"@,
                DateTimeMode::Time => "Pick a time"@,
                DateTimeMode::DateTime => "Pick a date and time"@,
            }),
    {
        match self {
            DateTimeMode::Date => "Pick a date",
            DateTimeMode::Time => "Pick a time",
            DateTimeMode::DateTime => "Pick a date and time",
        }
    }
}

/// A caller's wording, or the fallback when it left it empty.
pub fn text_or(given: &str, fallback: &str) -> (s: String)
    ensures
        s@ == (if given@.len() == 0 { fallback@ } else { given@ }),
{
    if given.is_empty() {
        String::from_str(fallback)
    } else {
        String::from_str(given)
    }
}

/// How far one press of the minute stepper moves: `1` by default, kept
/// within `1..=30`.
pub fn minute_step(step: Option<u32>) -> (s: u32)
    ensures
        s == (match step {
            None => 1,
            Some(v) => if v < 1 { 1 } else if v > 30 { 30 } else { v },
        }),
        1 <= s <= 30,
{
    let v = match step {
        None => 1,
        Some(v) => v,
    };
    if v < 1 { 1 } else if v > 30 { 30 } else { v }
}

/// `((current + by) mod bound)`, always in `0..bound`: the stepper wraps in
/// both directions.
pub open spec fn wrap_spec(current: int, by: int, bound: int) -> int {
    (current + by) % bound
}

/// Moves a stepper value by `by`, wrapping around the exclusive `bound`.
pub fn wrap_shift(current: u32, by: i64, bound: u32) -> (r: u32)
    requires
        bound > 0,
        -0x1_0000_0000 <= by <= 0x1_0000_0000,
    ensures
        r == wrap_spec(current as int, by as int, bound as int),
        r < bound,
{
    let b: i64 = bound as i64;
    let t: i64 = current as i64 + by;
    // Lift by a multiple of `bound` so the remainder is taken of a
    // non-negative number.
    let c: i64 = 0x1_0000_0000 / b + 1;
    assert(b as int * c as int > 0x1_0000_0000int) by (nonlinear_arith)
        requires
            b > 0,
            c as int == 0x1_0000_0000int / (b as int) + 1,
    ;
    assert(b as int * c as int <= 0x2_0000_0000int) by (nonlinear_arith)
        requires
            b > 0,
            c as int == 0x1_0000_0000int / (b as int) + 1,
            b as int <= 0x1_0000_0000int,
    ;
    let n: i64 = t + b * c;
    let r: i64 = n % b;
    proof {
        vstd::arithmetic::div_mod::lemma_mod_multiples_vanish(c as int, t as int, b as int);
        assert(b * c == c * b) by (nonlinear_arith);
    }
    r as u32
}


/// `NaiveTime::from_hms_opt(hour, minute, 0)`, or midnight when it is no
/// time of day.
pub fn time_or_midnight(hour: u32, minute: u32) -> (r: (u32, u32))
    ensures
        r == (if hour < 24 && minute < 60 { (hour, minute) } else { (0u32, 0u32) }),
{
    if hour < 24 && minute < 60 { (hour, minute) } else { (0, 0) }
}

/// The dialog's draft state: its own copy of the value, so *Cancel* cancels.
#[derive(Clone, Debug)]
pub struct PickerDraft {
    pub selection: CalendarSelection,
    /// The month the calendar opens on.
    pub month: CalDate,
    pub hour: u32,
    pub minute: u32,
}

/// The draft the dialog opens with: the current value's day selected and its
/// month shown (today's month when empty), and its hour and minute (midnight
/// when empty).
pub fn open_draft(current: Option<PickerValue>, today: CalDate) -> (d: PickerDraft)
    ensures
        crate::calendar::names_each_day_once(d.selection),
        match current {
            Some(v) => d.selection == CalendarSelection::Single(v.date) && d.month == v.date
                && d.hour == v.hour && d.minute == v.minute,
            None => d.selection == CalendarSelection::Empty && d.month == today && d.hour == 0 && d.minute == 0,
        },
{
    match current {
        Some(v) => PickerDraft { selection: CalendarSelection::Single(v.date), month: v.date, hour: v.hour, minute: v.minute },
        None => PickerDraft { selection: CalendarSelection::Empty, month: today, hour: 0, minute: 0 },
    }
}

/// What *OK* commits.
///
/// With a calendar, no day picked means no value; the time is the steppers'
/// (midnight in date-only mode). Time-only keeps the date the value had, or
/// lands on today.
pub open spec fn confirm_spec(
    mode: DateTimeMode,
    selection: CalendarSelection,
    hour: u32,
    minute: u32,
    current: Option<PickerValue>,
    today: CalDate,
) -> Option<PickerValue> {
    let time: (u32, u32) = if hour < 24 && minute < 60 { (hour, minute) } else { (0u32, 0u32) };
    if mode.has_date_spec() {
        match selection {
            CalendarSelection::Single(date) => {
                let t: (u32, u32) = if mode.has_time_spec() { time } else { (0u32, 0u32) };
                Some(PickerValue { date, hour: t.0, minute: t.1 })
            },
            _ => None,
        }
    } else {
        let date = match current {
            Some(v) => v.date,
            None => today,
        };
        Some(PickerValue { date, hour: time.0, minute: time.1 })
    }
}

/// What *OK* commits.
pub fn confirm(
    mode: DateTimeMode,
    selection: &CalendarSelection,
    hour: u32,
    minute: u32,
    current: Option<PickerValue>,
    today: CalDate,
) -> (r: Option<PickerValue>)
    ensures
        r == confirm_spec(mode, *selection, hour, minute, current, today),
{
    let time = time_or_midnight(hour, minute);
    if mode.has_date() {
        match selection {
            CalendarSelection::Single(date) => {
                let t = if mode.has_time() { time } else { (0, 0) };
                Some(PickerValue { date: *date, hour: t.0, minute: t.1 })
            },
            _ => None,
        }
    } else {
        let date = match current {
            Some(v) => v.date,
            None => today,
        };
        Some(PickerValue { date, hour: time.0, minute: time.1 })
    }
}

/// A day chrono represents.
pub open spec fn in_chrono_range(d: CalDate) -> bool {
    crate::dates::day_number(crate::dates::MIN_YEAR as int, 1, 1) <= d.days
        <= crate::dates::day_number(crate::dates::MAX_YEAR as int, 12, 31)
}

/// A value a `NaiveDateTime` can hold: a day chrono
/// represents and a time of day.
pub open spec fn valid_value(v: PickerValue) -> bool {
    in_chrono_range(v.date) && v.hour < 24 && v.minute < 60
}

/// chrono's `strftime` rendering of the day `days` at `hour:minute:00` with
/// `pattern`; `None` where chrono reports the pattern as one it cannot
/// render.
pub uninterp spec fn spec_strftime(days: i32, hour: u32, minute: u32, pattern: Seq<char>) -> Option<Seq<char>>;

/// `NaiveDate::from_num_days_from_ce_opt(days)`, `and_hms_opt(hour, minute,
/// 0)`, then `format(pattern)` written into a `String`. Its result is the
/// name [`spec_strftime`] of the arguments: chrono's rendering, or `None`
/// when the pattern holds an item chrono cannot render.
#[verifier::external_body]
fn strftime(days: i32, hour: u32, minute: u32, pattern: &str) -> (r: Option<String>)
    requires
        crate::dates::spec_ymd_from_days(days) is Some,
        hour < 24,
        minute < 60,
    ensures
        match r {
            Some(s) => spec_strftime(days, hour, minute, pattern@) == Some(s@),
            None => spec_strftime(days, hour, minute, pattern@) is None,
        },
{
    let mut out = String::new();
    match chrono::NaiveDate::from_num_days_from_ce_opt(days) {
        Some(date) => match date.and_hms_opt(hour, minute, 0) {
            Some(at) => match write!(out, "{}", at.format(pattern)) {
                Ok(()) => Some(out),
                Err(_) => None,
            },
            None => None,
        },
        None => None,
    }
}

/// What the trigger shows: the placeholder when there is no value, else the
/// value rendered with `pattern`. `None` for a value no date-time can hold,
/// or a pattern chrono cannot render.
pub open spec fn trigger_label_spec(value: Option<PickerValue>, pattern: Seq<char>, placeholder: Seq<char>) -> Option<Seq<char>> {
    match value {
        None => Some(placeholder),
        Some(v) => if valid_value(v) {
            spec_strftime(v.date.days, v.hour, v.minute, pattern)
        } else {
            None
        },
    }
}

/// The trigger's text.
pub fn trigger_label(value: Option<PickerValue>, pattern: &str, placeholder: &str) -> (r: Option<String>)
    ensures
        match r {
            Some(s) => trigger_label_spec(value, pattern@, placeholder@) == Some(s@),
            None => trigger_label_spec(value, pattern@, placeholder@) is None,
        },
{
    match value {
        None => Some(String::from_str(placeholder)),
        Some(v) => {
            if v.date.ymd().is_some() && v.hour < 24 && v.minute < 60 {
                strftime(v.date.days, v.hour, v.minute, pattern)
            } else {
                None
            }
        },
    }
}

/// The draft the dialog opens with, on today's month when the value is empty.
pub fn open_draft_now(current: Option<PickerValue>) -> (d: PickerDraft)
    ensures
        crate::calendar::names_each_day_once(d.selection),
        match current {
            Some(v) => d.selection == CalendarSelection::Single(v.date) && d.month == v.date
                && d.hour == v.hour && d.minute == v.minute,
            None => d.selection == CalendarSelection::Empty && in_chrono_range(d.month) && d.hour == 0 && d.minute == 0,
        },
{
    let today = crate::dates::today();
    open_draft(current, today)
}

/// What *OK* commits, a time-only value landing on today when it had no date.
pub fn confirm_now(mode: DateTimeMode, selection: &CalendarSelection, hour: u32, minute: u32, current: Option<PickerValue>) -> (r: Option<PickerValue>)
    ensures
        exists|today: CalDate| in_chrono_range(today) && r == confirm_spec(mode, *selection, hour, minute, current, today),
{
    let today = crate::dates::today();
    let r = confirm(mode, selection, hour, minute, current, today);
    proof {
        assert(in_chrono_range(today) && r == confirm_spec(mode, *selection, hour, minute, current, today));
    }
    r
}

/// What a key on a time stepper does: ArrowUp moves the value up by the
/// step, ArrowDown down by it.
pub fn time_field_key(key: &str, step: u32) -> (by: Option<i64>)
    ensures
        by == (if key@ == "ArrowUp"@ { Some(step as i64) } else if key@ == "ArrowDown"@ { Some((-(step as int)) as i64) } else { None::<i64> }),
{
    if crate::command::str_eq(key, "ArrowUp") {
        Some(step as i64)
    } else if crate::command::str_eq(key, "ArrowDown") {
        Some(-(step as i64))
    } else {
        None
    }
}

/// A stepper's value as shown: at least two digits (`{:02}`).
pub fn two_digits(v: u32) -> (s: String)
    ensures
        s@ == crate::dates::zero_padded(v as nat, 2),
{
    let mut s = String::new();
    if v < 10 {
        crate::text::push_char(&mut s, '0');
    }
    crate::text::push_decimal(&mut s, v as u64);
    proof {
        if v >= 10 {
            crate::text::lemma_decimal_len_at_least_two(v as nat);
        } else {
            assert(crate::text::decimal(v as nat).len() == 1);
            assert(s@ =~= crate::dates::zero_padded(v as nat, 2));
        }
    }
    s
}

/// The accessible name of a stepper button: `{label}: increase` or `{label}: decrease`.
pub fn step_button_label(label: &str, up: bool) -> (s: String)
    ensures
        s@ == label@ + if up { ": increase"@ } else { ": decrease"@ },
{
    let mut s = String::from_str(label);
    if up {
        s.append(": increase");
    } else {
        s.append(": decrease");
    }
    s
}

/// Whether the trigger offers its one-tap *Clear*.
pub fn shows_clear(clearable: bool, disabled: bool, empty: bool) -> (b: bool)
    ensures
        b == (clearable && !disabled && !empty),
{
    clearable && !disabled && !empty
}

/// A stepper press and the opposite press cancel out: holding ▲ past the top
/// and then ▼ lands back where it started.
pub proof fn law_wrap_shift_round_trip(current: int, by: int, bound: int)
    requires
        bound > 0,
        0 <= current < bound,
    ensures
        0 <= wrap_spec(current, by, bound) < bound,
        wrap_spec(wrap_spec(current, by, bound), -by, bound) == current,
{
    let once = wrap_spec(current, by, bound);
    vstd::arithmetic::div_mod::lemma_fundamental_div_mod(current + by, bound);
    let q = (current + by) / bound;
    assert(once == current + by - bound * q);
    assert(once - by == current + bound * (-q)) by (nonlinear_arith)
        requires
            once == current + by - bound * q,
    ;
    vstd::arithmetic::div_mod::lemma_mod_multiples_vanish(-q, current, bound);
    assert(bound * (-q) + current == current + bound * (-q)) by (nonlinear_arith);
    vstd::arithmetic::div_mod::lemma_small_mod(current as nat, bound as nat);
}

/// Without a calendar nothing is ever lost to an empty selection: a
/// time-only picker always commits a value.
pub proof fn law_time_only_always_commits(selection: CalendarSelection, hour: u32, minute: u32, current: Option<PickerValue>, today: CalDate)
    ensures
        confirm_spec(DateTimeMode::Time, selection, hour, minute, current, today) is Some,
        confirm_spec(DateTimeMode::Date, selection, hour, minute, current, today) matches Some(v) ==> v.hour == 0 && v.minute == 0,
{
}


/// The classes of the picker's trigger button.
pub const TRIGGER_BASE: &'static str = "border-input dark:bg-input/30 focus-visible:border-ring focus-visible:ring-ring/50 data-[empty]:text-muted-foreground flex h-8 w-full min-w-0 items-center justify-start gap-2 rounded-md border bg-transparent px-3 text-left text-sm font-normal shadow-xs transition-[color,box-shadow] outline-none focus-visible:ring-[3px] disabled:cursor-not-allowed disabled:opacity-50";


/// The classes of the dialog's *Clear* button.
pub const GHOST_BUTTON: &'static str = "inline-flex items-center justify-center gap-2 rounded-md px-3 h-8 text-sm font-medium hover:bg-accent hover:text-accent-foreground";

/// The classes of the dialog's *Cancel* button.
pub const OUTLINE_BUTTON: &'static str = "inline-flex items-center justify-center gap-2 rounded-md border px-3 h-8 text-sm font-medium shadow-xs hover:bg-accent hover:text-accent-foreground";

/// The classes of the dialog's *OK* button.
pub const PRIMARY_BUTTON: &'static str = "inline-flex items-center justify-center gap-2 rounded-md px-3 h-8 text-sm font-medium bg-primary text-primary-foreground hover:bg-primary/90";


/// *OK* commits the day picked and the time on the steppers: with a date
/// and a time, a picked day and a real time of day are committed exactly;
/// date-only commits the day at midnight; time-only keeps the value's day
/// (today's without one) at the steppers' time. A stepper reading that is
/// no time of day commits midnight.
pub proof fn law_confirm_commits_what_was_picked(
    date: CalDate,
    hour: u32,
    minute: u32,
    current: Option<PickerValue>,
    today: CalDate,
    selection: CalendarSelection,
)
    ensures
        (hour < 24 && minute < 60) ==> confirm_spec(DateTimeMode::DateTime, CalendarSelection::Single(date), hour, minute, current, today)
            == Some(PickerValue { date, hour, minute }),
        confirm_spec(DateTimeMode::Date, CalendarSelection::Single(date), hour, minute, current, today)
            == Some(PickerValue { date, hour: 0, minute: 0 }),
        (hour < 24 && minute < 60) ==> confirm_spec(DateTimeMode::Time, selection, hour, minute, current, today)
            == Some(PickerValue { date: if current is Some { current->0.date } else { today }, hour, minute }),
        !(hour < 24 && minute < 60) ==> confirm_spec(DateTimeMode::DateTime, CalendarSelection::Single(date), hour, minute, current, today)
            == Some(PickerValue { date, hour: 0, minute: 0 }),
        !(selection is Single) ==> confirm_spec(DateTimeMode::DateTime, selection, hour, minute, current, today) is None,
{
}

} // verus!
