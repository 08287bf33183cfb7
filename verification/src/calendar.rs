//! Calendar logic: the six-week month grid, month navigation, which days are
//! disabled, how a day reads against the selection, and what a click on a
//! day does to the selection.

use vstd::prelude::*;
use crate::dates::{
    CalDate, spec_days_from_ymd, spec_ymd_from_days, spec_date_text, weekday_of, date_text, iso_week_of,
    iso_week_number, today, day_number, is_valid_date, lemma_ymd_of_date, lemma_ymd_is_date,
};
use crate::text::{cn, cn_spec, views, push_decimal_i64, decimal_int};

verus! {

/// How a calendar selects.
#[derive(Clone, Copy, Debug, PartialEq, Eq, Structural)]
pub enum CalendarMode {
    Single,
    Multiple,
    Range,
}

/// What is selected. The functions that produce a selection keep
/// [`names_each_day_once`]; a `Multiple` built by hand may repeat a day, and
/// [`day_clicked`] then counts it once.
#[derive(Clone, Debug)]
pub enum CalendarSelection {
    Empty,
    Single(CalDate),
    Multiple(Vec<CalDate>),
    Range { start: Option<CalDate>, end: Option<CalDate> },
}

/// How one day of the grid reads against the selection.
#[derive(Clone, Copy, Debug, PartialEq, Eq, Structural)]
pub enum DaySelectionState {
    Unselected,
    SelectedSingle,
    RangeStart,
    RangeEnd,
    RangeMiddle,
}

/// Whether the caption is a label or month/year dropdowns.
#[derive(Clone, Copy, Debug, PartialEq, Eq, Structural)]
pub enum CaptionLayout {
    Label,
    Dropdown,
}

/// First day of the grid: the Monday on or before `first`.
pub open spec fn grid_start(first: int) -> int {
    first - weekday_of(first)
}

/// Number of weeks the grid shows: enough rows for the month, and never
/// fewer than six, so the calendar keeps its height from month to month.
pub open spec fn grid_weeks(first: int, last: int) -> int {
    let len = if last >= first { last - first + 1 } else { 0 };
    let w = (weekday_of(first) + len + 6) / 7;
    if w < 6 { 6 } else { w }
}

/// `weeks` is the grid of the month `first..=last`: `grid_weeks` rows of
/// seven consecutive days starting on the Monday on or before `first`.
pub open spec fn is_month_grid(weeks: Seq<Seq<CalDate>>, first: int, last: int) -> bool {
    &&& weeks.len() == grid_weeks(first, last)
    &&& forall|k: int| #![trigger weeks[k]] 0 <= k < weeks.len() ==> weeks[k].len() == 7
    &&& forall|k: int, j: int| 0 <= k < weeks.len() && 0 <= j < 7 ==>
            (#[trigger] weeks[k][j]).days == grid_start(first) + 7 * k + j
}

/// The views of a grid.
pub open spec fn grid_view(weeks: Seq<Vec<CalDate>>) -> Seq<Seq<CalDate>> {
    weeks.map_values(|w: Vec<CalDate>| w@)
}

/// Grid values stay within `i32`.
pub open spec fn grid_fits(first: int, last: int) -> bool {
    i32::MIN + 6 <= first <= i32::MAX - 48 && last <= i32::MAX - 48
}

/// The weeks of the month running from `first` to `last`, Monday first.
/// Rows spill into the neighbouring months, and there are always at least six.
pub fn month_weeks(first: CalDate, last: CalDate) -> (weeks: Vec<Vec<CalDate>>)
    requires
        grid_fits(first.days as int, last.days as int),
    ensures
        is_month_grid(grid_view(weeks@), first.days as int, last.days as int),
{
    let wd: i64 = first.weekday_from_monday() as i64;
    let start: i64 = first.days as i64 - wd;
    let len: i64 = if last.days >= first.days { last.days as i64 - first.days as i64 + 1 } else { 0 };
    let mut count: i64 = (wd + len + 6) / 7;
    if count < 6 {
        count = 6;
    }
    let ghost f = first.days as int;
    let ghost l = last.days as int;
    assert(count == grid_weeks(f, l));
    assert(count <= 7 || count * 7 <= wd + len + 6);
    let mut weeks: Vec<Vec<CalDate>> = Vec::new();
    let mut k: i64 = 0;
    while k < count
        invariant
            0 <= k <= count,
            count == grid_weeks(f, l),
            start == grid_start(f),
            count >= 6,
            start + 7 * count - 1 <= i32::MAX,
            start >= i32::MIN,
            weeks@.len() == k,
            forall|a: int| #![trigger weeks@[a]] 0 <= a < k ==> weeks@[a]@.len() == 7,
            forall|a: int, j: int| 0 <= a < k && 0 <= j < 7 ==>
                (#[trigger] weeks@[a]@[j]).days == start + 7 * a + j,
        decreases count - k,
    {
        let mut week: Vec<CalDate> = Vec::new();
        let mut j: i64 = 0;
        while j < 7
            invariant
                0 <= j <= 7,
                0 <= k < count,
                start + 7 * count - 1 <= i32::MAX,
                start >= i32::MIN,
                week@.len() == j,
                forall|b: int| 0 <= b < j ==> (#[trigger] week@[b]).days == start + 7 * k + b,
            decreases 7 - j,
        {
            assert(start + 7 * k + j <= start + 7 * count - 1) by (nonlinear_arith)
                requires
                    0 <= j < 7,
                    0 <= k < count,
            ;
            week.push(CalDate { days: (start + 7 * k + j) as i32 });
            j = j + 1;
        }
        weeks.push(week);
        k = k + 1;
    }
    proof {
        let g = grid_view(weeks@);
        assert(g.len() == weeks@.len());
        assert forall|a: int| #![trigger g[a]] 0 <= a < g.len() implies g[a].len() == 7 by {
            assert(g[a] == weeks@[a]@);
        }
        assert forall|a: int, j: int| 0 <= a < g.len() && 0 <= j < 7 implies
            (#[trigger] g[a][j]).days == grid_start(f) + 7 * a + j by {
            assert(g[a] == weeks@[a]@);
        }
    }
    weeks
}

/// The month before `(year, month)`.
pub open spec fn prev_ym(year: int, month: int) -> (int, int) {
    if month == 1 { (year - 1, 12) } else { (year, month - 1) }
}

/// The month after `(year, month)`.
pub open spec fn next_ym(year: int, month: int) -> (int, int) {
    if month == 12 { (year + 1, 1) } else { (year, month + 1) }
}

/// The first day of the month `(year, month)`, as chrono knows it.
pub open spec fn month_first(ym: (int, int)) -> Option<int> {
    if i32::MIN <= ym.0 <= i32::MAX && 0 <= ym.1 <= u32::MAX {
        match spec_days_from_ymd(ym.0 as i32, ym.1 as u32, 1) {
            Some(d) => Some(d as int),
            None => None,
        }
    } else {
        None
    }
}

/// First and last day of the month containing the day `current`.
pub open spec fn month_bounds(current: i32) -> Option<(int, int)> {
    match spec_ymd_from_days(current) {
        Some((y, m, _)) => match (month_first((y as int, m as int)), month_first(next_ym(y as int, m as int))) {
            (Some(first), Some(next)) => Some((first, next - 1)),
            _ => None,
        },
        None => None,
    }
}

/// The month before `(year, month)`.
pub fn prev_month(year: i32, month: u32) -> (r: (i32, u32))
    requires
        1 <= month <= 12,
        year > i32::MIN,
    ensures
        (r.0 as int, r.1 as int) == prev_ym(year as int, month as int),
{
    if month == 1 { (year - 1, 12) } else { (year, month - 1) }
}

/// The month after `(year, month)`.
pub fn next_month(year: i32, month: u32) -> (r: (i32, u32))
    requires
        1 <= month <= 12,
        year < i32::MAX,
    ensures
        (r.0 as int, r.1 as int) == next_ym(year as int, month as int),
{
    if month == 12 { (year + 1, 1) } else { (year, month + 1) }
}

/// The grid of the month containing `current`; `None` when chrono cannot
/// represent the month or the month after it.
pub fn calendar_weeks(current: CalDate) -> (r: Option<Vec<Vec<CalDate>>>)
    ensures
        match month_bounds(current.days) {
            Some((first, last)) => match r {
                Some(weeks) => is_month_grid(grid_view(weeks@), first, last),
                None => !grid_fits(first, last) || last < i32::MIN,
            },
            None => r is None,
        },
{
    let (y, m, _d) = match current.ymd() {
        Some(t) => t,
        None => return None,
    };
    let first = match CalDate::month_start(y, m) {
        Some(f) => f,
        None => return None,
    };
    let (ny, nm) = next_month(y, m);
    let next = match CalDate::month_start(ny, nm) {
        Some(n) => n,
        None => return None,
    };
    if next.days == i32::MIN {
        return None;
    }
    let last = CalDate { days: next.days - 1 };
    if first.days < i32::MIN + 6 || first.days > i32::MAX - 48 || last.days > i32::MAX - 48 {
        return None;
    }
    Some(month_weeks(first, last))
}

/// The first day of the month before the one containing `current`.
pub open spec fn prev_month_first(current: i32) -> Option<int> {
    match spec_ymd_from_days(current) {
        Some((y, m, _)) => month_first(prev_ym(y as int, m as int)),
        None => None,
    }
}

/// The first day of the month after the one containing `current`.
pub open spec fn next_month_first(current: i32) -> Option<int> {
    match spec_ymd_from_days(current) {
        Some((y, m, _)) => month_first(next_ym(y as int, m as int)),
        None => None,
    }
}

/// The previous-month arrow: the first day of the month before.
pub fn prev_month_start(current: CalDate) -> (r: Option<CalDate>)
    ensures
        match r {
            Some(d) => prev_month_first(current.days) == Some(d.days as int),
            None => prev_month_first(current.days) is None,
        },
{
    match current.ymd() {
        Some((y, m, _)) => {
            let (py, pm) = prev_month(y, m);
            CalDate::month_start(py, pm)
        },
        None => None,
    }
}

/// The next-month arrow: the first day of the month after.
pub fn next_month_start(current: CalDate) -> (r: Option<CalDate>)
    ensures
        match r {
            Some(d) => next_month_first(current.days) == Some(d.days as int),
            None => next_month_first(current.days) is None,
        },
{
    match current.ymd() {
        Some((y, m, _)) => {
            let (ny, nm) = next_month(y, m);
            CalDate::month_start(ny, nm)
        },
        None => None,
    }
}

/// Whether the previous-month arrow is enabled: the month before starts on
/// or after `min` (always, without a minimum). `None` when chrono cannot
/// represent the month before.
pub fn can_go_prev(current: CalDate, min: Option<CalDate>) -> (r: Option<bool>)
    ensures
        match min {
            None => r == Some(true),
            Some(lo) => match prev_month_first(current.days) {
                Some(p) => r == Some(p >= lo.days),
                None => r is None,
            },
        },
{
    match min {
        None => Some(true),
        Some(lo) => match prev_month_start(current) {
            Some(p) => Some(p.days >= lo.days),
            None => None,
        },
    }
}

/// Whether the next-month arrow is enabled: the month after starts on or
/// before `max` (always, without a maximum).
pub fn can_go_next(current: CalDate, max: Option<CalDate>) -> (r: Option<bool>)
    ensures
        match max {
            None => r == Some(true),
            Some(hi) => match next_month_first(current.days) {
                Some(n) => r == Some(n <= hi.days),
                None => r is None,
            },
        },
{
    match max {
        None => Some(true),
        Some(hi) => match next_month_start(current) {
            Some(n) => Some(n.days <= hi.days),
            None => None,
        },
    }
}

/// The month dropdown: the first day of `month` in the year of `current`.
pub fn with_month(current: CalDate, month: u32) -> (r: Option<CalDate>)
    ensures
        match spec_ymd_from_days(current.days) {
            Some((y, _, _)) => r == (match spec_days_from_ymd(y, month, 1) {
                Some(d) => Some(CalDate { days: d }),
                None => None,
            }),
            None => r is None,
        },
{
    match current.ymd() {
        Some((y, _, _)) => CalDate::month_start(y, month),
        None => None,
    }
}

/// The year dropdown: the first day of the month of `current` in `year`.
pub fn with_year(current: CalDate, year: i32) -> (r: Option<CalDate>)
    ensures
        match spec_ymd_from_days(current.days) {
            Some((_, m, _)) => r == (match spec_days_from_ymd(year, m, 1) {
                Some(d) => Some(CalDate { days: d }),
                None => None,
            }),
            None => r is None,
        },
{
    match current.ymd() {
        Some((_, m, _)) => CalDate::month_start(year, m),
        None => None,
    }
}

/// The years the dropdown offers: ten either side of `year`.
pub fn dropdown_years(year: i32) -> (years: Vec<i32>)
    requires
        i32::MIN + 10 <= year <= i32::MAX - 10,
    ensures
        years@.len() == 21,
        forall|i: int| 0 <= i < 21 ==> years@[i] == year - 10 + i,
{
    let mut years: Vec<i32> = Vec::new();
    let mut i: i32 = 0;
    while i < 21
        invariant
            0 <= i <= 21,
            i32::MIN + 10 <= year <= i32::MAX - 10,
            years@.len() == i,
            forall|k: int| 0 <= k < i ==> years@[k] == year - 10 + k,
        decreases 21 - i,
    {
        years.push(year - 10 + i);
        i = i + 1;
    }
    years
}

/// Whether `day` lies outside the month of `current` (differs in month or year).
pub fn is_outside(day: CalDate, current: CalDate) -> (r: Option<bool>)
    ensures
        match (spec_ymd_from_days(day.days), spec_ymd_from_days(current.days)) {
            (Some((dy, dm, _)), Some((cy, cm, _))) => r == Some(dm != cm || dy != cy),
            _ => r is None,
        },
{
    match (day.ymd(), current.ymd()) {
        (Some((dy, dm, _)), Some((cy, cm, _))) => Some(dm != cm || dy != cy),
        _ => None,
    }
}

/// A day is disabled when listed, before `min` or after `max`.
pub open spec fn disabled_spec(day: CalDate, disabled: Seq<CalDate>, min: Option<CalDate>, max: Option<CalDate>) -> bool {
    ||| disabled.contains(day)
    ||| (min matches Some(lo) && day.days < lo.days)
    ||| (max matches Some(hi) && day.days > hi.days)
}

/// Whether a day can be picked.
pub fn is_disabled(day: CalDate, disabled: &[CalDate], min: Option<CalDate>, max: Option<CalDate>) -> (r: bool)
    ensures
        r == disabled_spec(day, disabled@, min, max),
{
    let mut i: usize = 0;
    while i < disabled.len()
        invariant
            i <= disabled@.len(),
            forall|k: int| 0 <= k < i ==> disabled@[k] != day,
        decreases disabled.len() - i,
    {
        if disabled[i].days == day.days {
            proof {
                assert(disabled@[i as int] == day);
            }
            return true;
        }
        i = i + 1;
    }
    if let Some(lo) = min {
        if day.days < lo.days {
            return true;
        }
    }
    if let Some(hi) = max {
        if day.days > hi.days {
            return true;
        }
    }
    false
}

/// How `day` reads against a selection.
pub open spec fn day_state_spec(selection: CalendarSelection, day: CalDate) -> DaySelectionState {
    match selection {
        CalendarSelection::Empty => DaySelectionState::Unselected,
        CalendarSelection::Single(s) => if s == day { DaySelectionState::SelectedSingle } else { DaySelectionState::Unselected },
        CalendarSelection::Multiple(v) => if v@.contains(day) { DaySelectionState::SelectedSingle } else { DaySelectionState::Unselected },
        CalendarSelection::Range { start, end } => match (start, end) {
            (Some(s), Some(e)) => {
                if day == s && day == e {
                    DaySelectionState::SelectedSingle
                } else if day == s {
                    DaySelectionState::RangeStart
                } else if day == e {
                    DaySelectionState::RangeEnd
                } else if day.days > s.days && day.days < e.days {
                    DaySelectionState::RangeMiddle
                } else {
                    DaySelectionState::Unselected
                }
            },
            (Some(s), None) => if day == s { DaySelectionState::RangeStart } else { DaySelectionState::Unselected },
            _ => DaySelectionState::Unselected,
        },
    }
}

fn contains_day(days: &Vec<CalDate>, day: CalDate) -> (r: bool)
    ensures
        r == days@.contains(day),
{
    let mut i: usize = 0;
    while i < days.len()
        invariant
            i <= days@.len(),
            forall|k: int| 0 <= k < i ==> days@[k] != day,
        decreases days.len() - i,
    {
        if days[i].days == day.days {
            proof {
                assert(days@[i as int] == day);
            }
            return true;
        }
        i = i + 1;
    }
    false
}

/// How `day` reads against `selection`.
pub fn day_state(selection: &CalendarSelection, day: CalDate) -> (r: DaySelectionState)
    ensures
        r == day_state_spec(*selection, day),
{
    match selection {
        CalendarSelection::Empty => DaySelectionState::Unselected,
        CalendarSelection::Single(s) => if s.days == day.days { DaySelectionState::SelectedSingle } else { DaySelectionState::Unselected },
        CalendarSelection::Multiple(v) => if contains_day(v, day) { DaySelectionState::SelectedSingle } else { DaySelectionState::Unselected },
        CalendarSelection::Range { start, end } => match (start, end) {
            (Some(s), Some(e)) => {
                if day.days == s.days && day.days == e.days {
                    DaySelectionState::SelectedSingle
                } else if day.days == s.days {
                    DaySelectionState::RangeStart
                } else if day.days == e.days {
                    DaySelectionState::RangeEnd
                } else if day.days > s.days && day.days < e.days {
                    DaySelectionState::RangeMiddle
                } else {
                    DaySelectionState::Unselected
                }
            },
            (Some(s), None) => if day.days == s.days { DaySelectionState::RangeStart } else { DaySelectionState::Unselected },
            _ => DaySelectionState::Unselected,
        },
    }
}

impl DaySelectionState {
    /// Any state but `Unselected` marks the cell as selected.
    pub fn is_selected(&self) -> (b: bool)
        ensures
            b == (*self != DaySelectionState::Unselected),
    {
        !matches!(self, DaySelectionState::Unselected)
    }
}

/// The selection after a click on an enabled `day`.
///
/// * `Single` selects the day.
/// * `Multiple` toggles it in the set (a non-multiple selection starts empty).
/// * `Range` starts a range on the first click and closes it on the second,
///   ordering the two ends; a third click starts over.
pub open spec fn click_spec_range(selection: CalendarSelection, day: CalDate) -> CalendarSelection {
    match selection {
        CalendarSelection::Range { start: None, end: _ } => CalendarSelection::Range { start: Some(day), end: None },
        CalendarSelection::Range { start: Some(s), end: None } =>
            if day.days < s.days {
                CalendarSelection::Range { start: Some(day), end: Some(s) }
            } else {
                CalendarSelection::Range { start: Some(s), end: Some(day) }
            },
        _ => CalendarSelection::Range { start: Some(day), end: None },
    }
}

/// A selection names no day twice (only `Multiple` could).
pub open spec fn names_each_day_once(selection: CalendarSelection) -> bool {
    multiple_days(selection).no_duplicates()
}

/// The days of a multiple selection (empty for any other kind).
pub open spec fn multiple_days(selection: CalendarSelection) -> Seq<CalDate> {
    match selection {
        CalendarSelection::Multiple(v) => v@,
        _ => Seq::empty(),
    }
}

fn remove_day(days: Vec<CalDate>, day: CalDate) -> (out: Vec<CalDate>)
    requires
        days@.no_duplicates(),
    ensures
        out@.no_duplicates(),
        out@.to_set() == days@.to_set().remove(day),
{
    let mut out: Vec<CalDate> = Vec::new();
    let mut i: usize = 0;
    while i < days.len()
        invariant
            i <= days@.len(),
            days@.no_duplicates(),
            out@.no_duplicates(),
            forall|x: CalDate| #[trigger] out@.contains(x) <==> (days@.take(i as int).contains(x) && x != day),
        decreases days.len() - i,
    {
        let d = days[i];
        proof {
            assert forall|x: CalDate| #[trigger] days@.take(i + 1).contains(x) <==> (days@.take(i as int).contains(x) || x == d) by {
                if days@.take(i + 1).contains(x) {
                    let k = choose|k: int| #![trigger days@.take(i + 1)[k]] 0 <= k < i + 1 && days@.take(i + 1)[k] == x;
                    if k < i {
                        assert(days@.take(i as int)[k] == x);
                    }
                }
                if days@.take(i as int).contains(x) {
                    let k = choose|k: int| #![trigger days@.take(i as int)[k]] 0 <= k < i && days@.take(i as int)[k] == x;
                    assert(days@.take(i + 1)[k] == x);
                }
                if x == d {
                    assert(days@.take(i + 1)[i as int] == x);
                }
            }
        }
        let ghost prev = out@;
        if d.days != day.days {
            proof {
                if out@.contains(d) {
                    let k = choose|k: int| #![trigger days@.take(i as int)[k]] 0 <= k < i && days@.take(i as int)[k] == d;
                    assert(days@[k] == days@[i as int]);
                }
            }
            out.push(d);
            proof {
                assert forall|x: CalDate| #[trigger] out@.contains(x) <==> (prev.contains(x) || x == d) by {
                    if out@.contains(x) {
                        let k = choose|k: int| #![trigger out@[k]] 0 <= k < out@.len() && out@[k] == x;
                        if k < prev.len() {
                            assert(prev[k] == x);
                        }
                    }
                    if prev.contains(x) {
                        let k = choose|k: int| #![trigger prev[k]] 0 <= k < prev.len() && prev[k] == x;
                        assert(out@[k] == x);
                    }
                    if x == d {
                        assert(out@[prev.len() as int] == x);
                    }
                }
            }
        }
        i = i + 1;
    }
    proof {
        assert(days@.take(days@.len() as int) =~= days@);
        assert(out@.to_set() =~= days@.to_set().remove(day));
    }
    out
}

/// A click on an enabled day in `mode`. In `Multiple` mode a selection that
/// holds each day once keeps doing so, and the day is toggled in its set.
pub fn click_day(mode: CalendarMode, selection: CalendarSelection, day: CalDate) -> (r: CalendarSelection)
    requires
        names_each_day_once(selection),
    ensures
        names_each_day_once(r),
        mode == CalendarMode::Single ==> r == CalendarSelection::Single(day),
        mode == CalendarMode::Range ==> r == click_spec_range(selection, day),
        mode == CalendarMode::Multiple ==> r is Multiple
            && multiple_days(r).no_duplicates()
            && multiple_days(r).to_set() == (if multiple_days(selection).contains(day) {
                multiple_days(selection).to_set().remove(day)
            } else {
                multiple_days(selection).to_set().insert(day)
            }),
{
    match mode {
        CalendarMode::Single => CalendarSelection::Single(day),
        CalendarMode::Multiple => {
            let days: Vec<CalDate> = match selection {
                CalendarSelection::Multiple(v) => v,
                _ => Vec::new(),
            };
            proof {
                assert(days@ == multiple_days(selection));
            }
            if contains_day(&days, day) {
                CalendarSelection::Multiple(remove_day(days, day))
            } else {
                let mut days = days;
                let ghost before = days@;
                days.push(day);
                proof {
                    assert forall|x: CalDate| #[trigger] days@.contains(x) <==> (before.contains(x) || x == day) by {
                        if days@.contains(x) {
                            let k = choose|k: int| #![trigger days@[k]] 0 <= k < days@.len() && days@[k] == x;
                            if k < before.len() {
                                assert(before[k] == x);
                            }
                        }
                        if before.contains(x) {
                            let k = choose|k: int| #![trigger before[k]] 0 <= k < before.len() && before[k] == x;
                            assert(days@[k] == x);
                        }
                        if x == day {
                            assert(days@[before.len() as int] == x);
                        }
                    }
                    assert(days@.to_set() =~= before.to_set().insert(day));
                    assert forall|a: int, b: int| 0 <= a < b < days@.len() implies days@[a] != days@[b] by {
                        if b == before.len() {
                            assert(days@[a] == before[a]);
                            assert(before.contains(days@[a]));
                        } else {
                            assert(days@[a] == before[a]);
                            assert(days@[b] == before[b]);
                        }
                    }
                }
                CalendarSelection::Multiple(days)
            }
        },
        CalendarMode::Range => match selection {
            CalendarSelection::Range { start: None, end: _ } => CalendarSelection::Range { start: Some(day), end: None },
            CalendarSelection::Range { start: Some(s), end: None } => {
                if day.days < s.days {
                    CalendarSelection::Range { start: Some(day), end: Some(s) }
                } else {
                    CalendarSelection::Range { start: Some(s), end: Some(day) }
                }
            },
            _ => CalendarSelection::Range { start: Some(day), end: None },
        },
    }
}


/// The days of `days`, each once: the first time each appears, in order.
/// Days that already appear once each come back unchanged.
pub fn distinct_days(days: &Vec<CalDate>) -> (out: Vec<CalDate>)
    ensures
        out@.no_duplicates(),
        out@.to_set() == days@.to_set(),
        days@.no_duplicates() ==> out@ == days@,
{
    let mut out: Vec<CalDate> = Vec::new();
    let mut i: usize = 0;
    while i < days.len()
        invariant
            i <= days@.len(),
            out@.no_duplicates(),
            forall|x: CalDate| #[trigger] out@.contains(x) <==> days@.take(i as int).contains(x),
            days@.take(i as int).no_duplicates() ==> out@ == days@.take(i as int),
        decreases days.len() - i,
    {
        let d = days[i];
        let ghost prev = out@;
        let ghost before = days@.take(i as int);
        let ghost after = days@.take(i + 1);
        proof {
            assert(after =~= before.push(d));
            assert forall|x: CalDate| #[trigger] after.contains(x) <==> (before.contains(x) || x == d) by {
                if after.contains(x) {
                    let k = choose|k: int| 0 <= k < after.len() && after[k] == x;
                    if k < before.len() {
                        assert(before[k] == x);
                    }
                }
                if before.contains(x) {
                    let k = choose|k: int| 0 <= k < before.len() && before[k] == x;
                    assert(after[k] == x);
                }
                if x == d {
                    assert(after[before.len() as int] == x);
                }
            }
            if after.no_duplicates() {
                assert forall|a: int, b: int| 0 <= a < b < before.len() implies before[a] != before[b] by {
                    assert(after[a] == before[a] && after[b] == before[b]);
                }
                if before.contains(d) {
                    let k = choose|k: int| 0 <= k < before.len() && before[k] == d;
                    assert(after[k] == after[before.len() as int]);
                }
            }
        }
        if !contains_day(&out, d) {
            out.push(d);
            proof {
                assert forall|x: CalDate| #[trigger] out@.contains(x) <==> (prev.contains(x) || x == d) by {
                    if out@.contains(x) {
                        let k = choose|k: int| 0 <= k < out@.len() && out@[k] == x;
                        if k < prev.len() {
                            assert(prev[k] == x);
                        }
                    }
                    if prev.contains(x) {
                        let k = choose|k: int| 0 <= k < prev.len() && prev[k] == x;
                        assert(out@[k] == x);
                    }
                    if x == d {
                        assert(out@[prev.len() as int] == x);
                    }
                }
                assert forall|a: int, b: int| 0 <= a < b < out@.len() implies out@[a] != out@[b] by {
                    if b == prev.len() {
                        assert(out@[a] == prev[a]);
                        assert(prev.contains(prev[a]));
                    } else {
                        assert(out@[a] == prev[a] && out@[b] == prev[b]);
                    }
                }
            }
        }
        i = i + 1;
    }
    proof {
        assert(days@.take(days@.len() as int) =~= days@);
        assert(out@.to_set() =~= days@.to_set());
    }
    out
}

/// A click on a day of the grid. A disabled day (listed, before `min` or
/// after `max`) ignores the click: `None`, the selection stays and no
/// callback runs. Otherwise the new selection, which the caller stores and
/// hands to its callback: the day alone in single mode, the range step in
/// range mode, and in multiple mode the day toggled in the set of days
/// selected (a list naming a day twice counts it once).
pub fn day_clicked(
    mode: CalendarMode,
    selection: &CalendarSelection,
    day: CalDate,
    disabled: &[CalDate],
    min: Option<CalDate>,
    max: Option<CalDate>,
) -> (r: Option<CalendarSelection>)
    ensures
        disabled_spec(day, disabled@, min, max) ==> r is None,
        !disabled_spec(day, disabled@, min, max) ==> (r matches Some(next) && {
            &&& names_each_day_once(next)
            &&& mode == CalendarMode::Single ==> next == CalendarSelection::Single(day)
            &&& mode == CalendarMode::Range ==> next == click_spec_range(*selection, day)
            &&& mode == CalendarMode::Multiple ==> next is Multiple
                && multiple_days(next).no_duplicates()
                && multiple_days(next).to_set() == (if multiple_days(*selection).contains(day) {
                    multiple_days(*selection).to_set().remove(day)
                } else {
                    multiple_days(*selection).to_set().insert(day)
                })
        }),
{
    if is_disabled(day, disabled, min, max) {
        return None;
    }
    let current = match selection {
        CalendarSelection::Empty => CalendarSelection::Empty,
        CalendarSelection::Single(d) => CalendarSelection::Single(*d),
        CalendarSelection::Multiple(v) => CalendarSelection::Multiple(distinct_days(v)),
        CalendarSelection::Range { start, end } => CalendarSelection::Range { start: *start, end: *end },
    };
    proof {
        assert(multiple_days(current).to_set() == multiple_days(*selection).to_set());
        assert(multiple_days(current).contains(day) == multiple_days(*selection).contains(day)) by {
            assert(multiple_days(current).to_set().contains(day) == multiple_days(current).contains(day));
            assert(multiple_days(*selection).to_set().contains(day) == multiple_days(*selection).contains(day));
        }
    }
    Some(click_day(mode, current, day))
}

/// A range never runs backwards: whatever the selection before, a click in
/// range mode leaves either an open range or one whose start is not after
/// its end.
pub proof fn law_range_is_ordered(selection: CalendarSelection, day: CalDate)
    ensures
        match click_spec_range(selection, day) {
            CalendarSelection::Range { start: Some(s), end: Some(e) } => s.days <= e.days,
            CalendarSelection::Range { start: Some(_), end: None } => true,
            _ => false,
        },
{
}

/// Clicking a day twice in multiple mode gives back the set it started from.
pub proof fn law_multiple_toggle_is_involutive(days: Set<CalDate>, day: CalDate)
    ensures
        ({
            let once = if days.contains(day) { days.remove(day) } else { days.insert(day) };
            let twice = if once.contains(day) { once.remove(day) } else { once.insert(day) };
            twice == days
        }),
{
    let once = if days.contains(day) { days.remove(day) } else { days.insert(day) };
    let twice = if once.contains(day) { once.remove(day) } else { once.insert(day) };
    assert(twice =~= days);
}

/// The day just clicked reads as selected: alone in single mode, as the
/// start of a new range, or as the end it closes.
pub proof fn law_clicked_day_reads_selected(selection: CalendarSelection, day: CalDate)
    ensures
        day_state_spec(CalendarSelection::Single(day), day) == DaySelectionState::SelectedSingle,
        day_state_spec(click_spec_range(selection, day), day) != DaySelectionState::Unselected,
{
}

/// The grid starts on a Monday, and every day of the month lies within it.
pub proof fn law_grid_covers_month(first: int, last: int, day: int)
    requires
        first <= day <= last,
    ensures
        weekday_of(grid_start(first)) == 0,
        0 <= day - grid_start(first) < 7 * grid_weeks(first, last),
        grid_weeks(first, last) >= 6,
{
    let wd = weekday_of(first);
    assert(0 <= wd < 7);
    assert((first - wd - 1) % 7 == 0) by (nonlinear_arith)
        requires
            wd == (first - 1) % 7,
    ;
    let len = last - first + 1;
    let w = (wd + len + 6) / 7;
    assert(7 * w >= wd + len) by (nonlinear_arith)
        requires
            w == (wd + len + 6) / 7,
            wd + len >= 0,
    ;
}


/// The month arrows undo each other: from any day, stepping to the next
/// month and back, or to the previous month and forward, lands on the first
/// day of the month it started in. (A step chrono cannot take yields no
/// month, and there is nothing to undo.)
pub proof fn law_month_steps_undo(current: i32)
    ensures
        (next_month_first(current) matches Some(n) ==> (spec_ymd_from_days(current) matches Some(t)
            && prev_month_first(n as i32) == Some(day_number(t.0 as int, t.1 as int, 1)))),
        (prev_month_first(current) matches Some(p) ==> (spec_ymd_from_days(current) matches Some(t)
            && next_month_first(p as i32) == Some(day_number(t.0 as int, t.1 as int, 1)))),
{
    lemma_ymd_is_date(current);
    if let Some(t) = spec_ymd_from_days(current) {
        lemma_month_steps_undo_from(t.0 as int, t.1 as int, t.2 as int);
    }
}

/// The same, from a date.
proof fn lemma_month_steps_undo_from(y: int, m: int, d: int)
    requires
        is_valid_date(y, m, d),
    ensures
        month_first((y, m)) == Some(day_number(y, m, 1)),
        (next_month_first(day_number(y, m, d) as i32) matches Some(n) ==> prev_month_first(n as i32) == month_first((y, m))),
        (prev_month_first(day_number(y, m, d) as i32) matches Some(p) ==> next_month_first(p as i32) == month_first((y, m))),
{
    lemma_ymd_of_date(y, m, d);
    lemma_ymd_of_date(y, m, 1);
    let (ny, nm) = next_ym(y, m);
    if is_valid_date(ny, nm, 1) {
        lemma_ymd_of_date(ny, nm, 1);
    }
    let (py, pm) = prev_ym(y, m);
    if is_valid_date(py, pm, 1) {
        lemma_ymd_of_date(py, pm, 1);
    }
}

/// The week-number column of a grid row: the ISO week of the row's first
/// day; `None` for an empty row or a day chrono cannot represent.
pub fn week_number(week: &[CalDate]) -> (r: Option<u32>)
    ensures
        r is Some <==> (week@.len() > 0 && spec_ymd_from_days(week@[0].days) is Some),
        r matches Some(w) ==> 1 <= w <= 53 && (iso_week_of(week@[0].days as int) matches Some(n) ==> w == n),
{
    if week.len() == 0 {
        None
    } else {
        iso_week_number(week[0].days)
    }
}

/// Whether `day` is the day `today`: the cell the calendar highlights.
pub fn is_same_day(day: CalDate, today: CalDate) -> (b: bool)
    ensures
        b == (day.days == today.days),
{
    day.days == today.days
}

/// Whether `day` is today in the local time zone: [`is_same_day`] against
/// the clock's reading. Which day the clock gives is chance; it is always a
/// day chrono represents.
pub fn is_today(day: CalDate) -> (b: bool)
    ensures
        exists|t: CalDate| #![trigger spec_ymd_from_days(t.days)]
            spec_ymd_from_days(t.days) is Some && b == (day.days == t.days),
{
    let t = today();
    proof {
        assert(spec_ymd_from_days(t.days) is Some);
    }
    is_same_day(day, t)
}

/// The names a calendar spells out, January- and Monday-first.
#[derive(Clone, Copy, Debug, PartialEq, Eq)]
pub struct CalendarLabels {
    pub months: [&'static str; 12],
    /// Short weekday headers, Monday-first.
    pub weekdays: [&'static str; 7],
    /// Month names for the dropdown caption.
    pub months_short: [&'static str; 12],
}

impl CalendarLabels {
    /// The English names the calendar renders by default.
    pub fn english() -> (l: Self)
        ensures
            l.months@.map_values(|s: &str| s@) == seq![
                "January"@, "February"@, "March"@, "April"@, "May"@, "June"@,
                "July"@, "August"@, "September"@, "October"@, "November"@, "December"@,
            ],
            l.weekdays@.map_values(|s: &str| s@) == seq!["Mo"@, "Tu"@, "We"@, "Th"@, "Fr"@, "Sa"@, "Su"@],
            l.months_short@.map_values(|s: &str| s@) == seq![
                "Jan"@, "Feb"@, "Mar"@, "Apr"@, "May"@, "Jun"@, "Jul"@, "Aug"@, "Sep"@, "Oct"@, "Nov"@, "Dec"@,
            ],
    {
        let l = CalendarLabels {
            months: [
                "January", "February", "March", "April", "May", "June", "July", "August",
                "September", "October", "November", "December",
            ],
            weekdays: ["Mo", "Tu", "We", "Th", "Fr", "Sa", "Su"],
            months_short: ["Jan", "Feb", "Mar", "Apr", "May", "Jun", "Jul", "Aug", "Sep", "Oct", "Nov", "Dec"],
        };
        assert(l.months@.map_values(|s: &str| s@) =~= seq![
            "January"@, "February"@, "March"@, "April"@, "May"@, "June"@,
            "July"@, "August"@, "September"@, "October"@, "November"@, "December"@,
        ]);
        assert(l.weekdays@.map_values(|s: &str| s@) =~= seq!["Mo"@, "Tu"@, "We"@, "Th"@, "Fr"@, "Sa"@, "Su"@]);
        assert(l.months_short@.map_values(|s: &str| s@) =~= seq![
            "Jan"@, "Feb"@, "Mar"@, "Apr"@, "May"@, "Jun"@, "Jul"@, "Aug"@, "Sep"@, "Oct"@, "Nov"@, "Dec"@,
        ]);
        l
    }
}

impl Default for CalendarLabels {
    /// The English names.
    fn default() -> (l: Self)
        ensures
            l.months@.map_values(|s: &str| s@) == seq![
                "January"@, "February"@, "March"@, "April"@, "May"@, "June"@,
                "July"@, "August"@, "September"@, "October"@, "November"@, "December"@,
            ],
            l.weekdays@.map_values(|s: &str| s@) == seq!["Mo"@, "Tu"@, "We"@, "Th"@, "Fr"@, "Sa"@, "Su"@],
            l.months_short@.map_values(|s: &str| s@) == seq![
                "Jan"@, "Feb"@, "Mar"@, "Apr"@, "May"@, "Jun"@, "Jul"@, "Aug"@, "Sep"@, "Oct"@, "Nov"@, "Dec"@,
            ],
    {
        CalendarLabels::english()
    }
}

/// The caption label of the month containing `current`: its name from
/// `labels` and the year.
pub fn month_label(labels: &CalendarLabels, current: CalDate) -> (r: Option<String>)
    ensures
        match spec_ymd_from_days(current.days) {
            Some((y, m, _)) => r matches Some(s) && s@ == labels.months@[m - 1]@ + seq![' '] + decimal_int(y as int),
            None => r is None,
        },
{
    match current.ymd() {
        Some((y, m, _)) => {
            let mut s = String::from_str(labels.months[(m - 1) as usize]);
            s.append(" ");
            proof {
                reveal_strlit(" ");
            }
            push_decimal_i64(&mut s, y as i64);
            Some(s)
        },
        None => None,
    }
}

/// The classes of a day's button.
pub open spec fn day_button_class_spec(state: DaySelectionState, is_today: bool, is_outside: bool) -> Seq<char> {
    cn_spec(seq![
        "flex h-full w-full min-w-[var(--cell-size)] items-center justify-center rounded-md p-1 font-normal"@,
        match state {
            DaySelectionState::SelectedSingle => "bg-primary text-primary-foreground hover:bg-primary hover:text-primary-foreground"@,
            DaySelectionState::RangeStart => "bg-primary text-primary-foreground rounded-r-none hover:bg-primary"@,
            DaySelectionState::RangeEnd => "bg-primary text-primary-foreground rounded-l-none hover:bg-primary"@,
            DaySelectionState::RangeMiddle => "bg-accent text-accent-foreground rounded-none hover:bg-accent"@,
            DaySelectionState::Unselected => ""@,
        },
        if is_today && state == DaySelectionState::Unselected { "bg-accent text-accent-foreground"@ } else { ""@ },
        if is_outside { "text-muted-foreground opacity-50"@ } else { ""@ },
    ])
}

/// The classes of a day's button: the selection look, today's highlight when
/// unselected, and the dimming of days outside the month.
pub fn day_button_class(state: DaySelectionState, is_today: bool, is_outside: bool) -> (r: String)
    ensures
        r@ == day_button_class_spec(state, is_today, is_outside),
{
    let look: &str = match state {
        DaySelectionState::SelectedSingle => "bg-primary text-primary-foreground hover:bg-primary hover:text-primary-foreground",
        DaySelectionState::RangeStart => "bg-primary text-primary-foreground rounded-r-none hover:bg-primary",
        DaySelectionState::RangeEnd => "bg-primary text-primary-foreground rounded-l-none hover:bg-primary",
        DaySelectionState::RangeMiddle => "bg-accent text-accent-foreground rounded-none hover:bg-accent",
        DaySelectionState::Unselected => "",
    };
    let today: &str = if is_today && state == DaySelectionState::Unselected { "bg-accent text-accent-foreground" } else { "" };
    let outside: &str = if is_outside { "text-muted-foreground opacity-50" } else { "" };
    let parts = [
        "flex h-full w-full min-w-[var(--cell-size)] items-center justify-center rounded-md p-1 font-normal",
        look,
        today,
        outside,
    ];
    let r = cn(&parts);
    proof {
        assert(views(parts@) =~= seq![
            "flex h-full w-full min-w-[var(--cell-size)] items-center justify-center rounded-md p-1 font-normal"@,
            look@, today@, outside@,
        ]);
    }
    r
}

/// The classes of a day's cell, rounding the selection at the row's first
/// and last column (the first is the week-number column's neighbour when
/// week numbers show).
pub fn day_cell_class(show_week_numbers: bool) -> (r: String)
    ensures
        r@ == cn_spec(seq![
            "relative flex w-full p-0 text-center group/day aspect-square select-none [&:last-child[data-selected=true]_button]:rounded-r-md"@,
            if show_week_numbers {
                "[&:nth-child(2)[data-selected=true]_button]:rounded-l-md"@
            } else {
                "[&:first-child[data-selected=true]_button]:rounded-l-md"@
            },
        ]),
{
    let first_col: &str = if show_week_numbers {
        "[&:nth-child(2)[data-selected=true]_button]:rounded-l-md"
    } else {
        "[&:first-child[data-selected=true]_button]:rounded-l-md"
    };
    let parts = [
        "relative flex w-full p-0 text-center group/day aspect-square select-none [&:last-child[data-selected=true]_button]:rounded-r-md",
        first_col,
    ];
    let r = cn(&parts);
    proof {
        assert(views(parts@) =~= seq![
            "relative flex w-full p-0 text-center group/day aspect-square select-none [&:last-child[data-selected=true]_button]:rounded-r-md"@,
            first_col@,
        ]);
    }
    r
}

/// The calendar root's classes: full width or fitted to its cells.
pub fn calendar_class(full_width: bool, class: &str) -> (r: String)
    ensures
        r@ == cn_spec(seq![
            "bg-background border rounded-md group/calendar p-3 [[data-slot=card-content]_&]:bg-transparent [[data-slot=popover-content]_&]:bg-transparent"@,
            if full_width { "w-full"@ } else { "w-fit"@ },
            class@,
        ]),
{
    let width: &str = if full_width { "w-full" } else { "w-fit" };
    let parts = [
        "bg-background border rounded-md group/calendar p-3 [[data-slot=card-content]_&]:bg-transparent [[data-slot=popover-content]_&]:bg-transparent",
        width,
        class,
    ];
    let r = cn(&parts);
    proof {
        assert(views(parts@) =~= seq![
            "bg-background border rounded-md group/calendar p-3 [[data-slot=card-content]_&]:bg-transparent [[data-slot=popover-content]_&]:bg-transparent"@,
            width@,
            class@,
        ]);
    }
    r
}

/// The calendar root's inline style: the cell size, `2rem` unless given.
pub fn cell_size_style(cell_size: Option<&str>) -> (r: String)
    ensures
        r@ == "--cell-size: "@ + match cell_size {
            Some(c) => c@,
            None => "2rem"@,
        },
{
    let mut s = String::from_str("--cell-size: ");
    match cell_size {
        Some(c) => s.append(c),
        None => s.append("2rem"),
    }
    s
}

/// The text of a selection (`Display`): `none`, a date, dates joined by
/// `", "`, or `from … until …`. `None` when chrono cannot render a date.
pub open spec fn describe_spec(selection: CalendarSelection) -> Option<Seq<char>> {
    match selection {
        CalendarSelection::Empty => Some("none"@),
        CalendarSelection::Single(d) => spec_date_text(d.days),
        CalendarSelection::Multiple(v) => join_dates(v@),
        CalendarSelection::Range { start, end } => match (start, end) {
            (Some(s), Some(e)) => match (spec_date_text(s.days), spec_date_text(e.days)) {
                (Some(a), Some(b)) => Some("from "@ + a + " until "@ + b),
                _ => None,
            },
            (Some(s), None) => match spec_date_text(s.days) {
                Some(a) => Some("from "@ + a),
                None => None,
            },
            (None, Some(e)) => match spec_date_text(e.days) {
                Some(b) => Some("until "@ + b),
                None => None,
            },
            (None, None) => Some("none"@),
        },
    }
}

/// Dates rendered by chrono and joined by `", "`.
pub open spec fn join_dates(days: Seq<CalDate>) -> Option<Seq<char>>
    decreases days.len(),
{
    if days.len() == 0 {
        Some(Seq::empty())
    } else {
        match (join_dates(days.drop_last()), spec_date_text(days.last().days)) {
            (Some(prev), Some(t)) => Some(if days.len() == 1 { t } else { prev + ", "@ + t }),
            _ => None,
        }
    }
}

proof fn lemma_join_none_extends(days: Seq<CalDate>, i: int)
    requires
        0 <= i <= days.len(),
        join_dates(days.take(i)) is None,
    ensures
        join_dates(days) is None,
    decreases days.len() - i,
{
    if i < days.len() {
        assert(days.take(i + 1).drop_last() =~= days.take(i));
        lemma_join_none_extends(days, i + 1);
    } else {
        assert(days.take(i) =~= days);
    }
}

/// The text of a selection (`Display`).
pub fn describe(selection: &CalendarSelection) -> (r: Option<String>)
    ensures
        match r {
            Some(s) => describe_spec(*selection) == Some(s@),
            None => describe_spec(*selection) is None,
        },
{
    match selection {
        CalendarSelection::Empty => Some(String::from_str("none")),
        CalendarSelection::Single(d) => date_text(d.days),
        CalendarSelection::Multiple(v) => {
            let mut out = String::new();
            let mut i: usize = 0;
            proof {
                assert(v@.take(0) =~= Seq::<CalDate>::empty());
            }
            while i < v.len()
                invariant
                    i <= v@.len(),
                    join_dates(v@.take(i as int)) == Some(out@),
                    describe_spec(*selection) == join_dates(v@),
                decreases v.len() - i,
            {
                proof {
                    assert(v@.take(i + 1).drop_last() =~= v@.take(i as int));
                }
                match date_text(v[i].days) {
                    Some(t) => {
                        if i > 0 {
                            out.append(", ");
                        }
                        out.append(t.as_str());
                    },
                    None => {
                        proof {
                            assert(v@.take(i + 1).last() == v@[i as int]);
                            assert(join_dates(v@.take(i + 1)) is None);
                            lemma_join_none_extends(v@, i + 1);
                            assert(describe_spec(*selection) == join_dates(v@));
                        }
                        return None;
                    },
                }
                i = i + 1;
            }
            proof {
                assert(v@.take(v@.len() as int) =~= v@);
            }
            Some(out)
        },
        CalendarSelection::Range { start, end } => match (start, end) {
            (Some(s), Some(e)) => match (date_text(s.days), date_text(e.days)) {
                (Some(a), Some(b)) => {
                    let mut out = String::from_str("from ");
                    out.append(a.as_str());
                    out.append(" until ");
                    out.append(b.as_str());
                    Some(out)
                },
                _ => None,
            },
            (Some(s), None) => match date_text(s.days) {
                Some(a) => {
                    let mut out = String::from_str("from ");
                    out.append(a.as_str());
                    Some(out)
                },
                None => None,
            },
            (None, Some(e)) => match date_text(e.days) {
                Some(b) => {
                    let mut out = String::from_str("until ");
                    out.append(b.as_str());
                    Some(out)
                },
                None => None,
            },
            (None, None) => Some(String::from_str("none")),
        },
    }
}


/// The classes of the month arrows.
pub const NAV_BUTTON: &'static str = "inline-flex size-[var(--cell-size)] items-center justify-center rounded-md p-0 select-none hover:bg-accent hover:text-accent-foreground disabled:pointer-events-none disabled:opacity-50";

/// The classes of the box around a caption dropdown.
pub const DROPDOWN_BOX: &'static str = "relative has-[:focus]:border-ring border border-input shadow-xs has-[:focus]:ring-ring/50 has-[:focus]:ring-[3px] rounded-md";


/// How a day reads against a closed, ordered range follows from where it
/// lies: strictly between the ends it reads as the middle, and nowhere
/// else; before the start or after the end it reads as unselected; the ends
/// read as start and end, or as a single day when they coincide.
pub proof fn law_closed_range_reads_by_position(s: CalDate, e: CalDate, day: CalDate)
    requires
        s.days <= e.days,
    ensures
        ({
            let st = day_state_spec(CalendarSelection::Range { start: Some(s), end: Some(e) }, day);
            &&& (st == DaySelectionState::RangeMiddle) == (s.days < day.days && day.days < e.days)
            &&& (day.days < s.days || day.days > e.days) ==> st == DaySelectionState::Unselected
            &&& (day.days == s.days && s.days < e.days) ==> st == DaySelectionState::RangeStart
            &&& (day.days == e.days && s.days < e.days) ==> st == DaySelectionState::RangeEnd
            &&& (day.days == s.days && s.days == e.days) ==> st == DaySelectionState::SelectedSingle
        }),
{
}


/// Outside a closed range a day reads as selected exactly when the
/// selection names it: the single day, any day of a multiple selection, or
/// the start of a range still open; nothing is selected in an empty
/// selection or a range without a start.
pub proof fn law_selected_days_are_named(selection: CalendarSelection, day: CalDate)
    ensures
        selection is Empty ==> day_state_spec(selection, day) == DaySelectionState::Unselected,
        selection matches CalendarSelection::Single(s) ==> (day_state_spec(selection, day)
            == if s.days == day.days { DaySelectionState::SelectedSingle } else { DaySelectionState::Unselected }),
        selection matches CalendarSelection::Multiple(v) ==> (day_state_spec(selection, day)
            == if v@.contains(day) { DaySelectionState::SelectedSingle } else { DaySelectionState::Unselected }),
        selection matches CalendarSelection::Range { start: Some(s), end: None } ==> (day_state_spec(selection, day)
            == if s.days == day.days { DaySelectionState::RangeStart } else { DaySelectionState::Unselected }),
        selection matches CalendarSelection::Range { start: None, end: _ } ==> day_state_spec(selection, day)
            == DaySelectionState::Unselected,
{
}
} // verus!
