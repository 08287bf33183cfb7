use impulse_client_kit::calendar::{
    calendar_weeks, week_number, is_today, is_same_day, next_month_start, prev_month_start, can_go_next, can_go_prev, cell_size_style, click_day, day_button_class, day_clicked, distinct_days, day_state, describe,
    dropdown_years, is_disabled, is_outside, month_label, next_month, prev_month, with_month, with_year, CalendarLabels,
    CalendarMode, CalendarSelection, DaySelectionState,
};
use impulse_client_kit::command::{
    filtered_count, fresh_id, group_id, item_value, key_action, list_label, next_index, rank, rank_all, rank_lowered, CommandEntry, CommandKey, MatchRank,
};
use impulse_client_kit::date_picker::{
    confirm, confirm_now, minute_step, open_draft, open_draft_now, shows_clear, text_or, time_or_midnight, trigger_label, wrap_shift, DateTimeMode, PickerValue,
};
use impulse_client_kit::dates::CalDate;
use impulse_client_kit::otp::{active_index, caret_needs_pin, on_input, sanitize, slot_class, slot_groups};
use impulse_client_kit::stepper::{nudge, step_label, StepperSize};

const JAN_1_2024: i32 = 738_886;

fn d(days: i32) -> CalDate {
    CalDate { days }
}

fn ymd_days(year: i32, month: u32, day: u32) -> Option<i32> {
    CalDate::from_ymd(year, month, day).map(|c| c.days)
}

#[test]
fn chrono_day_counts() {
    assert_eq!(ymd_days(2024, 1, 1), Some(JAN_1_2024));
    assert_eq!(ymd_days(1, 1, 1), Some(1));
    assert_eq!(ymd_days(2023, 2, 29), None);
    assert_eq!(ymd_days(2024, 13, 1), None);
    assert_eq!(d(JAN_1_2024 + 59).ymd(), Some((2024, 2, 29)));
    assert_eq!(d(JAN_1_2024).text(), Some("2024-01-01".to_string()));
    assert_eq!(d(JAN_1_2024).weekday_from_monday(), 0);
    assert_eq!(d(JAN_1_2024 + 31).weekday_from_monday(), 3);
    assert_eq!(CalDate::month_start(2024, 3), Some(d(JAN_1_2024 + 60)));
}

#[test]
fn chrono_range_and_text() {
    assert_eq!(ymd_days(-262143, 1, 1), Some(-95_746_129));
    assert_eq!(ymd_days(-262144, 12, 31), None);
    assert_eq!(ymd_days(262142, 12, 31), Some(95_745_399));
    assert_eq!(ymd_days(262143, 1, 1), None);
    assert_eq!(d(-95_746_130).ymd(), None);
    assert_eq!(d(-95_746_129).ymd(), Some((-262143, 1, 1)));
    assert_eq!(d(95_745_400).ymd(), None);
    assert_eq!(d(0).ymd(), Some((0, 12, 31)));
    assert_eq!(d(-730).ymd(), Some((-1, 1, 1)));
    assert_eq!(ymd_days(1900, 2, 29), None);
    assert_eq!(ymd_days(2000, 2, 29), Some(730_179));
    assert_eq!(ymd_days(1900, 3, 1), Some(693_655));
    assert_eq!(ymd_days(-5, 3, 1), Some(-2132));
    assert_eq!(d(0).text(), Some("0000-12-31".to_string()));
    assert_eq!(d(-730).text(), Some("-0001-01-01".to_string()));
    assert_eq!(d(4_508_711).text(), Some("+12345-06-07".to_string()));
    assert_eq!(d(95_745_400).text(), None);
}

#[test]
fn month_grid_of_february_2024() {
    let weeks = calendar_weeks(d(JAN_1_2024 + 40)).unwrap();
    assert_eq!(weeks.len(), 6);
    assert!(weeks.iter().all(|w| w.len() == 7));
    assert_eq!(weeks[0][0], d(JAN_1_2024 + 28));
    assert_eq!(weeks[0][3], d(JAN_1_2024 + 31));
    assert_eq!(weeks[5][6], d(JAN_1_2024 + 28 + 41));
}

#[test]
fn month_navigation() {
    assert_eq!(prev_month(2024, 1), (2023, 12));
    assert_eq!(next_month(2024, 12), (2025, 1));
    assert_eq!(next_month(2024, 5), (2024, 6));
    let feb = d(JAN_1_2024 + 40);
    assert_eq!(can_go_prev(feb, None), Some(true));
    assert_eq!(can_go_prev(feb, Some(d(JAN_1_2024))), Some(true));
    assert_eq!(can_go_prev(feb, Some(d(JAN_1_2024 + 1))), Some(false));
    assert_eq!(can_go_next(feb, Some(d(JAN_1_2024 + 60))), Some(true));
    assert_eq!(can_go_next(feb, Some(d(JAN_1_2024 + 59))), Some(false));
    assert_eq!(with_month(feb, 12), Some(d(JAN_1_2024 + 335)));
    assert_eq!(with_year(feb, 2023), ymd_days(2023, 2, 1).map(d));
    let years = dropdown_years(2024);
    assert_eq!(years.len(), 21);
    assert_eq!(years[0], 2014);
    assert_eq!(years[20], 2034);
    assert_eq!(is_outside(d(JAN_1_2024 + 30), feb), Some(true));
    assert_eq!(is_outside(d(JAN_1_2024 + 31), feb), Some(false));
}

#[test]
fn disabled_days() {
    let feb = d(JAN_1_2024 + 40);
    assert!(is_disabled(feb, &[feb], None, None));
    assert!(is_disabled(feb, &[], Some(d(JAN_1_2024 + 41)), None));
    assert!(is_disabled(feb, &[], None, Some(d(JAN_1_2024 + 39))));
    assert!(!is_disabled(feb, &[d(1)], Some(feb), Some(feb)));
}

#[test]
fn range_clicks_order_their_ends() {
    let a = d(100);
    let b = d(90);
    let s = click_day(CalendarMode::Range, CalendarSelection::Empty, a);
    let s = click_day(CalendarMode::Range, s, b);
    match &s {
        CalendarSelection::Range { start, end } => {
            assert_eq!(*start, Some(b));
            assert_eq!(*end, Some(a));
        },
        _ => panic!("range expected"),
    }
    assert_eq!(day_state(&s, d(95)), DaySelectionState::RangeMiddle);
    assert_eq!(day_state(&s, b), DaySelectionState::RangeStart);
    assert_eq!(day_state(&s, a), DaySelectionState::RangeEnd);
    assert_eq!(day_state(&s, d(101)), DaySelectionState::Unselected);
    let s = click_day(CalendarMode::Range, s, d(5));
    match s {
        CalendarSelection::Range { start, end } => {
            assert_eq!(start, Some(d(5)));
            assert_eq!(end, None);
        },
        _ => panic!("range expected"),
    }
}

#[test]
fn multiple_clicks_toggle() {
    let s = click_day(CalendarMode::Multiple, CalendarSelection::Empty, d(3));
    let s = click_day(CalendarMode::Multiple, s, d(4));
    assert_eq!(day_state(&s, d(3)), DaySelectionState::SelectedSingle);
    let s = click_day(CalendarMode::Multiple, s, d(3));
    assert_eq!(day_state(&s, d(3)), DaySelectionState::Unselected);
    assert_eq!(day_state(&s, d(4)), DaySelectionState::SelectedSingle);
    assert!(DaySelectionState::RangeEnd.is_selected());
    assert!(!DaySelectionState::Unselected.is_selected());
    let s = click_day(CalendarMode::Single, s, d(9));
    assert_eq!(day_state(&s, d(9)), DaySelectionState::SelectedSingle);
}

#[test]
fn calendar_text() {
    let labels = CalendarLabels::english();
    assert_eq!(month_label(&labels, d(JAN_1_2024 + 40)), Some("February 2024".to_string()));
    assert_eq!(describe(&CalendarSelection::Empty), Some("none".to_string()));
    assert_eq!(
        describe(&CalendarSelection::Multiple(vec![d(JAN_1_2024), d(JAN_1_2024 + 1)])),
        Some("2024-01-01, 2024-01-02".to_string())
    );
    assert_eq!(
        describe(&CalendarSelection::Range { start: Some(d(JAN_1_2024)), end: None }),
        Some("from 2024-01-01".to_string())
    );
    assert_eq!(cell_size_style(None), "--cell-size: 2rem");
    assert!(day_button_class(DaySelectionState::Unselected, true, false).ends_with("bg-accent text-accent-foreground"));
    assert!(day_button_class(DaySelectionState::RangeMiddle, true, true).ends_with("rounded-none hover:bg-accent text-muted-foreground opacity-50"));
}

#[test]
fn picker_steps_and_commit() {
    assert_eq!(wrap_shift(23, 1, 24), 0);
    assert_eq!(wrap_shift(0, -1, 24), 23);
    assert_eq!(wrap_shift(58, 5, 60), 3);
    assert_eq!(minute_step(None), 1);
    assert_eq!(minute_step(Some(45)), 30);
    assert_eq!(minute_step(Some(0)), 1);
    assert_eq!(time_or_midnight(24, 0), (0, 0));
    assert_eq!(time_or_midnight(13, 37), (13, 37));
    let today = d(500);
    let draft = open_draft(None, today);
    assert_eq!(draft.month, today);
    assert_eq!(confirm(DateTimeMode::Date, &draft.selection, 10, 10, None, today), None);
    let picked = confirm(DateTimeMode::DateTime, &CalendarSelection::Single(d(7)), 9, 30, None, today);
    assert_eq!(picked, Some(PickerValue { date: d(7), hour: 9, minute: 30 }));
    let date_only = confirm(DateTimeMode::Date, &CalendarSelection::Single(d(7)), 9, 30, None, today);
    assert_eq!(date_only, Some(PickerValue { date: d(7), hour: 0, minute: 0 }));
    let time_only = confirm(DateTimeMode::Time, &CalendarSelection::Empty, 9, 30, None, today);
    assert_eq!(time_only, Some(PickerValue { date: today, hour: 9, minute: 30 }));
    assert!(shows_clear(true, false, false));
    assert!(!shows_clear(true, false, true));
    assert_eq!(text_or("", "Pick"), "Pick");
    assert_eq!(DateTimeMode::DateTime.default_format(), "%Y-%m-%d %H:%M");
    assert_eq!(DateTimeMode::Time.default_placeholder(), "Pick a time");
}

#[test]
fn picker_today() {
    let draft = open_draft_now(None);
    assert_eq!((draft.hour, draft.minute), (0, 0));
    assert!(draft.month.days > JAN_1_2024);
    let keep = PickerValue { date: d(42), hour: 1, minute: 2 };
    assert_eq!(open_draft_now(Some(keep)).month, d(42));
    assert_eq!(confirm_now(DateTimeMode::Time, &CalendarSelection::Empty, 8, 5, Some(keep)), Some(PickerValue { date: d(42), hour: 8, minute: 5 }));
    let fresh = confirm_now(DateTimeMode::Time, &CalendarSelection::Empty, 8, 5, None).unwrap();
    assert!(fresh.date.days > JAN_1_2024);
}

#[test]
fn command_ranking() {
    let kw = vec!["Settings".to_string()];
    assert_eq!(rank("Profile", "", &kw), MatchRank::Full);
    assert_eq!(rank("Profile", "PROFILE", &kw), MatchRank::Full);
    assert_eq!(rank("Profile", "pro", &kw), MatchRank::Prefix);
    assert_eq!(rank("My settings page", "set", &kw), MatchRank::Keyword);
    assert_eq!(rank("Upset", "set", &[]), MatchRank::Substring);
    assert_eq!(rank("Profile", "zzz", &kw), MatchRank::Miss);
    assert_eq!(rank("Profile", "sett", &kw), MatchRank::Miss);
    let entries = vec![
        CommandEntry { value: "Open".into(), keywords: vec![] },
        CommandEntry { value: "Close".into(), keywords: vec![] },
    ];
    let ranks = rank_all("op", &entries);
    assert_eq!(ranks, vec![MatchRank::Prefix, MatchRank::Miss]);
    assert_eq!(filtered_count(true, false, &ranks), 1);
    assert_eq!(filtered_count(true, true, &ranks), 2);
}

#[test]
fn command_ranking_of_lowered_text() {
    let kw = vec!["settings".to_string()];
    assert_eq!(rank_lowered("profile", "profile", &kw), MatchRank::Full);
    assert_eq!(rank_lowered("profile", "pro", &kw), MatchRank::Prefix);
    assert_eq!(rank_lowered("my settings", "set", &kw), MatchRank::Keyword);
    assert_eq!(rank_lowered("upset", "set", &[]), MatchRank::Substring);
    assert_eq!(rank_lowered("profile", "PRO", &kw), MatchRank::Miss);
}

#[test]
fn command_navigation() {
    assert_eq!(next_index(None, 3, 1, true), 0);
    assert_eq!(next_index(Some(2), 3, 1, true), 0);
    assert_eq!(next_index(Some(0), 3, -1, true), 2);
    assert_eq!(next_index(Some(2), 3, 1, false), 2);
    assert_eq!(next_index(Some(0), 3, -1, false), 0);
    assert_eq!(key_action("ArrowDown", false, true, false, false), Some(CommandKey::Last));
    assert_eq!(key_action("j", true, false, false, true), Some(CommandKey::Next));
    assert_eq!(key_action("j", true, false, false, false), None);
    assert_eq!(key_action("ArrowUp", false, false, true, false), Some(CommandKey::PreviousGroup));
    assert_eq!(group_id("", "Heading"), "Heading");
    assert_eq!(group_id("files", "Heading"), "files");
    let fresh = group_id("", "");
    assert_eq!(fresh.len(), 36);
    assert_eq!(fresh.as_bytes()[14], b'4');
    assert_ne!(group_id("", ""), fresh);
    assert_eq!(list_label(""), "Suggestions");
}

#[test]
fn otp_field() {
    assert_eq!(sanitize("1a2٣3 4", 6), "1234");
    assert_eq!(sanitize("123456789", 6), "123456");
    assert_eq!(active_index(2, 6), 2);
    assert_eq!(active_index(6, 6), 5);
    assert_eq!(active_index(0, 0), 0);
    assert!(!caret_needs_pin(0, 4, 4));
    assert!(!caret_needs_pin(4, 4, 4));
    assert!(caret_needs_pin(1, 1, 4));
    let r = on_input("12x", "1", 3);
    assert_eq!(r.value, "12");
    assert!(r.rewrite_field);
    assert!(r.changed);
    assert!(!r.complete);
    let r = on_input("123", "12", 3);
    assert!(r.complete);
    assert!(!r.rewrite_field);
    assert_eq!(slot_groups(6, Some(3)), vec![(0, 3), (3, 6)]);
    assert_eq!(slot_groups(6, Some(6)), vec![(0, 6)]);
    assert!(slot_class(0, 0, 2, true, "").contains("rounded-l-md border-l z-10"));
}

#[test]
fn number_stepper() {
    assert_eq!(nudge(" 41 ", 1, None, None), "42");
    assert_eq!(nudge("abc", -1, None, None), "-1");
    assert_eq!(nudge("5", 10, Some(0), Some(9)), "9");
    assert_eq!(nudge("5", -10, Some(0), Some(9)), "0");
    assert_eq!(nudge("9223372036854775807", 1, None, None), "9223372036854775807");
    assert_eq!(step_label("", 10, true), "+10");
    assert_eq!(step_label("", 1, false), "-1");
    assert_eq!(step_label("less", 1, false), "less");
    assert_eq!(StepperSize::Middle.as_str(), "middle");
}

#[test]
fn iso_week_numbers() {
    assert_eq!(week_number(&[d(JAN_1_2024)]), Some(1));
    let jan_1_2021 = ymd_days(2021, 1, 1).unwrap();
    assert_eq!(week_number(&[d(jan_1_2021)]), Some(53));
    let dec_30_2024 = ymd_days(2024, 12, 30).unwrap();
    assert_eq!(week_number(&[d(dec_30_2024)]), Some(1));
    let jun_10_2024 = ymd_days(2024, 6, 10).unwrap();
    assert_eq!(week_number(&[d(jun_10_2024), d(jun_10_2024 + 1)]), Some(24));
    assert_eq!(week_number(&[]), None);
    assert_eq!(week_number(&[d(95_745_400)]), None);
    assert!(!is_today(d(JAN_1_2024)));
    assert!(!is_today(d(95_745_400)));
}

#[test]
fn picker_trigger_label() {
    let at = PickerValue { date: d(JAN_1_2024), hour: 8, minute: 5 };
    assert_eq!(trigger_label(None, "%Y-%m-%d", "Pick a date"), Some("Pick a date".to_string()));
    assert_eq!(trigger_label(Some(at), "%Y-%m-%d %H:%M", "Pick"), Some("2024-01-01 08:05".to_string()));
    assert_eq!(trigger_label(Some(at), "%H:%M", "Pick"), Some("08:05".to_string()));
    assert_eq!(trigger_label(Some(at), "%d/%m/%Y", "Pick"), Some("01/01/2024".to_string()));
    assert_eq!(trigger_label(Some(at), "%Q", "Pick"), None);
    assert_eq!(trigger_label(Some(PickerValue { date: d(JAN_1_2024), hour: 24, minute: 0 }), "%H", "Pick"), None);
    assert_eq!(trigger_label(Some(PickerValue { date: d(95_745_400), hour: 0, minute: 0 }), "%H", "Pick"), None);
}

#[test]
fn command_item_value() {
    assert_eq!(item_value("open", "  Something else "), Some("open".to_string()));
    assert_eq!(item_value("", "  Open file \n"), Some("Open file".to_string()));
    assert_eq!(item_value("", " \t "), None);
    assert_eq!(item_value("", ""), None);
}

#[test]
fn month_arrows_undo_each_other() {
    let mid_march = d(ymd_days(2024, 3, 15).unwrap());
    let april = next_month_start(mid_march).unwrap();
    assert_eq!(april.ymd(), Some((2024, 4, 1)));
    assert_eq!(prev_month_start(april).unwrap().ymd(), Some((2024, 3, 1)));
    let late_december = d(ymd_days(2023, 12, 31).unwrap());
    let january = next_month_start(late_december).unwrap();
    assert_eq!(january.ymd(), Some((2024, 1, 1)));
    assert_eq!(prev_month_start(january).unwrap().ymd(), Some((2023, 12, 1)));
    let back = prev_month_start(d(JAN_1_2024)).unwrap();
    assert_eq!(next_month_start(back), Some(d(JAN_1_2024)));
}

#[test]
fn disabled_days_ignore_clicks() {
    let day = d(JAN_1_2024);
    let none = CalendarSelection::Empty;
    assert!(day_clicked(CalendarMode::Single, &none, day, &[day], None, None).is_none());
    assert!(day_clicked(CalendarMode::Single, &none, day, &[], Some(d(JAN_1_2024 + 1)), None).is_none());
    assert!(day_clicked(CalendarMode::Single, &none, day, &[], None, Some(d(JAN_1_2024 - 1))).is_none());
    match day_clicked(CalendarMode::Single, &none, day, &[], None, None) {
        Some(CalendarSelection::Single(picked)) => assert_eq!(picked, day),
        other => panic!("unexpected {:?}", other),
    }
}

#[test]
fn repeated_days_count_once() {
    let a = d(JAN_1_2024);
    let b = d(JAN_1_2024 + 3);
    assert_eq!(distinct_days(&vec![a, b, a, a, b]), vec![a, b]);
    assert_eq!(distinct_days(&vec![b, a]), vec![b, a]);
    let repeated = CalendarSelection::Multiple(vec![a, b, a]);
    match day_clicked(CalendarMode::Multiple, &repeated, a, &[], None, None) {
        Some(CalendarSelection::Multiple(days)) => assert_eq!(days, vec![b]),
        other => panic!("unexpected {:?}", other),
    }
}

#[test]
fn today_highlight_compares_days() {
    assert!(is_same_day(d(JAN_1_2024), d(JAN_1_2024)));
    assert!(!is_same_day(d(JAN_1_2024), d(JAN_1_2024 + 1)));
}

fn looks_like_v4(s: &str) -> bool {
    let c: Vec<char> = s.chars().collect();
    c.len() == 36
        && [8, 13, 18, 23].iter().all(|&i| c[i] == '-')
        && c.iter().enumerate().all(|(i, ch)| [8, 13, 18, 23].contains(&i) || ch.is_ascii_digit() || ('a'..='f').contains(ch))
        && c[14] == '4'
        && "89ab".contains(c[19])
}

#[test]
fn element_ids_are_v4_uuids() {
    let a = fresh_id();
    let b = fresh_id();
    assert!(looks_like_v4(&a) && looks_like_v4(&b));
    assert_ne!(a, b);
    assert!(looks_like_v4(&group_id("", "")));
}
