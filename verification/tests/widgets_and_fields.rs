use impulse_client_kit::textarea::{
    border, ceiling_rows, fit_growing, fit_measured, fit_style, keyboard_step, rows_or_default, shows_grabber,
    textarea_class, Fit, TextareaSizing,
};
use impulse_client_kit::widgets::{
    activation_key, alert_class, badge_class, breadcrumb_menu_label, check_state, copy_label, empty_media_class, press,
    radio_disabled, radio_press, rich, separator_aria, sheet_after, sheet_key_closes, should_shake, AlertVariant,
    BadgeVariant, EmptyMediaVariant, SeparatorOrientation, SheetEvent, SheetSide,
};

#[test]
fn rich_splits_on_backticks() {
    assert_eq!(
        rich("Use `cargo build` now"),
        vec![("Use ".to_string(), false), ("cargo build".to_string(), true), (" now".to_string(), false)]
    );
    assert_eq!(rich("``"), vec![]);
    assert_eq!(rich("`code`"), vec![("code".to_string(), true)]);
    assert_eq!(rich("a``b"), vec![("a".to_string(), false), ("b".to_string(), false)]);
    let joined: String = rich("x `y` z").into_iter().map(|(t, _)| t).collect();
    assert_eq!(joined, "x y z");
}

#[test]
fn toggles_and_checkboxes() {
    let mut v = false;
    assert_eq!(press(&mut v, false), Some(true));
    assert!(v);
    assert_eq!(press(&mut v, true), None);
    assert!(v);
    assert_eq!(press(&mut v, false), Some(false));
    assert!(!v);
    assert!(activation_key("Enter"));
    assert!(!activation_key("Tab"));
    assert_eq!(check_state(true), "checked");
}

#[test]
fn radio_groups() {
    assert!(radio_disabled(false, true));
    let mut g = String::from("a");
    assert!(!radio_press(&mut g, "b", true));
    assert_eq!(g, "a");
    assert!(radio_press(&mut g, "b", false));
    assert_eq!(g, "b");
}

#[test]
fn sheets() {
    assert!(sheet_after(SheetEvent::Trigger));
    assert!(!sheet_after(SheetEvent::Overlay));
    assert!(!sheet_after(SheetEvent::Escape));
    assert!(sheet_key_closes(true, "Escape"));
    assert!(!sheet_key_closes(false, "Escape"));
    assert_eq!(SheetSide::Left.as_str(), "left");
    assert!(SheetSide::Right.class().starts_with("inset-y-0 right-0"));
}

#[test]
fn variant_classes() {
    assert!(badge_class(BadgeVariant::Outline, "x").ends_with("text-foreground [a&]:hover:bg-accent [a&]:hover:text-accent-foreground x"));
    assert!(alert_class(AlertVariant::Default, "").ends_with("bg-card text-card-foreground"));
    assert_eq!(empty_media_class(EmptyMediaVariant::Avatar, ""), "flex size-16 items-center justify-center");
    assert_eq!(
        empty_media_class(EmptyMediaVariant::Icon, ""),
        "flex size-16 items-center justify-center rounded-full border text-muted-foreground"
    );
    assert_eq!(separator_aria(SeparatorOrientation::Vertical, true), (None, None));
    assert_eq!(separator_aria(SeparatorOrientation::Vertical, false), (Some("separator"), Some("vertical")));
}

#[test]
fn small_labels() {
    assert_eq!(breadcrumb_menu_label(""), "…");
    assert_eq!(breadcrumb_menu_label("More"), "More");
    assert_eq!(copy_label(false), "Копировать");
    assert!(should_shake(true, &Some(3)));
    assert!(!should_shake(true, &String::new()));
    assert!(!should_shake(false, &true));
    assert!(should_shake(true, &5u64));
}

#[test]
fn textarea_sizing() {
    assert_eq!(TextareaSizing::from_grabber(true), TextareaSizing::Grabber);
    assert_eq!(TextareaSizing::from_grabber(false), TextareaSizing::Fixed);
    assert!(shows_grabber(TextareaSizing::Grabber, false));
    assert!(!shows_grabber(TextareaSizing::Grabber, true));
    assert!(textarea_class(TextareaSizing::Auto, "").ends_with(" overflow-hidden"));
    assert_eq!(rows_or_default(None), 4);
    assert_eq!(ceiling_rows(0), 1);
    assert_eq!(ceiling_rows(6), 6);
    assert_eq!(keyboard_step("ArrowUp"), Some(-16));
    assert_eq!(keyboard_step("ArrowDown"), Some(16));
    assert_eq!(keyboard_step("a"), None);
}

#[test]
fn textarea_fitting() {
    assert_eq!(fit_growing(false, 300, 100, 102, None), Some(Fit { height: 302, scroll_inside: false }));
    assert_eq!(fit_growing(false, 300, 100, 102, Some(250)), Some(Fit { height: 250, scroll_inside: true }));
    assert_eq!(fit_growing(true, 300, 100, 102, None), None);
    assert_eq!(fit_growing(false, 100, 100, 102, None), None);
    assert_eq!(fit_measured(80, 40, 2, None, None), Fit { height: 80, scroll_inside: false });
    assert_eq!(fit_measured(80, 400, 2, Some(200), Some(150)), Fit { height: 150, scroll_inside: true });
    assert_eq!(fit_measured(80, 400, 2, None, Some(300)), Fit { height: 300, scroll_inside: true });
    assert_eq!(border(102, 100), 2);
    assert_eq!(border(90, 100), 0);
    assert_eq!(fit_style(Fit { height: 150, scroll_inside: true }), ("150px".to_string(), "auto"));
    assert_eq!(fit_style(Fit { height: 80, scroll_inside: false }), ("80px".to_string(), "hidden"));
}
