use impulse_client_kit::dnd::{
    draggable_class, press_starts_drag, zone_from_attributes, DndState, DragId, MoveAction, Pending,
};
use impulse_client_kit::overlay::{
    checkbox_item_clicked, item_clicked, item_key_selects, open_state, outside_click_closes, scroll_state,
    select_content_class, side_name, slide_class, slide_in_class, trigger_key, ItemEffect, OverlaySide,
    SelectContentPosition, SelectState, Submenu, TriggerKey,
};
use impulse_client_kit::status::{ping_class, sync_state, sync_title, StatusIndicatorSize, StatusState, SyncLabels};
use impulse_client_kit::tabs::{current_position, panel_id, roving_target, select_tab, tab_key, trigger_id, trigger_tabindex, TabKey};

fn pending(touch: bool) -> Pending {
    Pending { item: DragId::new("row", 7), pointer_id: 1, origin_x: 100, origin_y: 100, touch }
}

#[test]
fn drag_ids() {
    let d = DragId::new("task", 3);
    assert!(d.is("task", 3));
    assert!(!d.is("task", 4));
    assert!(!d.is("column", 3));
}

#[test]
fn mouse_press_becomes_a_drag_past_the_slop() {
    let mut s = DndState::new();
    s.start(pending(false));
    assert_eq!(s.pointer_move(1, 103, 104, false), MoveAction::Ignore);
    assert!(!s.is_active());
    assert_eq!(s.pointer_move(2, 200, 200, false), MoveAction::Ignore);
    assert!(!s.is_active());
    assert_eq!(s.pointer_move(1, 100, 95, false), MoveAction::Track);
    assert!(s.is_dragging("row", 7));
    assert_eq!(s.pointer_move(9, 0, 0, false), MoveAction::Track);
}

#[test]
fn touch_press_needs_the_hold() {
    let mut s = DndState::new();
    s.start(pending(true));
    assert_eq!(s.pointer_move(1, 105, 100, false), MoveAction::Ignore);
    assert!(s.pending.is_some());
    assert_eq!(s.pointer_move(1, 100, 111, false), MoveAction::Ignore);
    assert!(s.pending.is_none());
    let mut s = DndState::new();
    s.start(pending(true));
    assert_eq!(s.pointer_move(1, 100, 100, true), MoveAction::Track);
    assert!(s.is_active());
}

#[test]
fn drop_goes_to_zones_innermost_first() {
    let mut s = DndState::new();
    s.register(DragId::new("column", 1));
    s.register(DragId::new("row", 5));
    s.register(DragId::new("column", 2));
    s.start(pending(false));
    s.pointer_move(1, 150, 150, false);
    assert!(s.track(vec![DragId::new("row", 5), DragId::new("ghost", 0), DragId::new("column", 1)]));
    assert!(!s.track(vec![DragId::new("row", 5), DragId::new("ghost", 0), DragId::new("column", 1)]));
    assert!(s.is_over("column", 1));
    assert!(!s.is_over("column", 2));
    assert_eq!(s.over().unwrap().id, 5);
    assert_eq!(s.over_kind("column", 1), Some("row".to_string()));
    let (item, order) = s.pointer_up().unwrap();
    assert!(item.is("row", 7));
    assert_eq!(order, vec![1, 0]);
    assert!(!s.is_active());
    assert!(s.over().is_none());
    assert!(s.pointer_up().is_none());
}

#[test]
fn unregistering_a_zone() {
    let mut s = DndState::new();
    s.register(DragId::new("a", 1));
    s.register(DragId::new("b", 2));
    s.register(DragId::new("a", 1));
    s.unregister(&DragId::new("a", 1));
    assert_eq!(s.zones.len(), 1);
    assert!(s.zones[0].is("b", 2));
}

#[test]
fn reset_calls_the_gesture_off() {
    let mut s = DndState::new();
    s.start(pending(false));
    s.pointer_move(1, 120, 100, false);
    s.reset();
    assert!(!s.is_active());
    assert!(s.pending.is_none());
}

#[test]
fn zones_from_attributes() {
    assert!(zone_from_attributes(Some("row"), Some("42")).unwrap().is("row", 42));
    assert!(zone_from_attributes(Some("row"), Some("-3")).unwrap().is("row", -3));
    assert!(zone_from_attributes(Some("row"), Some("x")).is_none());
    assert!(zone_from_attributes(None, Some("1")).is_none());
}

#[test]
fn presses_that_start_drags() {
    assert!(press_starts_drag(false, 0, false, false, false));
    assert!(!press_starts_drag(false, 0, false, false, true));
    assert!(!press_starts_drag(false, 2, false, false, false));
    assert!(!press_starts_drag(true, 0, false, false, false));
    assert!(press_starts_drag(false, 0, true, true, true));
    assert!(!press_starts_drag(false, 0, true, false, false));
    assert_eq!(draggable_class(false, "x"), "touch-pan-y select-none x");
    assert_eq!(draggable_class(true, ""), "");
}

#[test]
fn sync_indicator() {
    assert_eq!(sync_state(false, 3), StatusState::Down);
    assert_eq!(sync_state(true, 3), StatusState::Fixing);
    assert_eq!(sync_state(true, 0), StatusState::Active);
    let labels = SyncLabels::default();
    assert_eq!(sync_title(&labels, true, 3), "Syncing… remaining: 3");
    assert_eq!(sync_title(&labels, true, 0), "Everything is synced");
    assert_eq!(sync_title(&labels, false, 0), "No connection");
    assert_eq!(ping_class(StatusIndicatorSize::Md, StatusState::Idle), None);
    assert_eq!(
        ping_class(StatusIndicatorSize::Sm, StatusState::Down).unwrap(),
        "absolute inline-flex rounded-full opacity-75 animate-ping h-2 w-2 bg-red-300"
    );
    assert_eq!(StatusState::default().dot(), "bg-slate-700");
}

#[test]
fn tab_keys_and_roving_focus() {
    assert_eq!(tab_key(" ", false), Some(TabKey::Activate));
    assert_eq!(tab_key("Enter", true), None);
    assert_eq!(tab_key("ArrowLeft", true), Some(TabKey::Previous));
    assert_eq!(tab_key("x", false), None);
    assert_eq!(roving_target(TabKey::Next, 2, 3), 0);
    assert_eq!(roving_target(TabKey::Previous, 0, 3), 2);
    assert_eq!(roving_target(TabKey::Last, 0, 3), 2);
    assert_eq!(roving_target(TabKey::First, 2, 3), 0);
    assert_eq!(roving_target(TabKey::Previous, roving_target(TabKey::Next, 1, 4), 4), 1);
    assert_eq!(current_position(&[false, true, true]), 1);
    assert_eq!(current_position(&[false, false]), 0);
}

#[test]
fn tab_selection() {
    let mut selected = String::from("a");
    assert!(!select_tab(&mut selected, "b", true));
    assert_eq!(selected, "a");
    assert!(select_tab(&mut selected, "b", false));
    assert_eq!(selected, "b");
    assert_eq!(trigger_id("b"), "tabs-trigger-b");
    assert_eq!(panel_id("b"), "tabs-content-b");
    assert_eq!(trigger_tabindex(true, false), "0");
    assert_eq!(trigger_tabindex(true, true), "-1");
}

#[test]
fn overlay_sides_and_animations() {
    assert_eq!(side_name(OverlaySide::Left), "left");
    assert_eq!(slide_in_class(OverlaySide::Top), "data-[state=open]:slide-in-from-bottom-2");
    assert_eq!(
        slide_class(OverlaySide::Bottom),
        "data-[state=open]:slide-in-from-top-2 data-[state=closed]:slide-out-to-top-2"
    );
    assert_eq!(open_state(true), "open");
    assert!(select_content_class(OverlaySide::Right, SelectContentPosition::Popper, "").contains("translate-y-1"));
    assert!(!select_content_class(OverlaySide::Right, SelectContentPosition::ItemAligned, "").contains("translate-y-1"));
}

#[test]
fn outside_clicks() {
    assert!(outside_click_closes(true, Some(false), Some(false)));
    assert!(!outside_click_closes(true, Some(true), Some(false)));
    assert!(!outside_click_closes(true, Some(false), Some(true)));
    assert!(!outside_click_closes(false, Some(false), Some(false)));
    assert!(!outside_click_closes(true, None, Some(false)));
}

#[test]
fn select_box_flow() {
    let mut s = SelectState::new("");
    assert_eq!(s.shown("Pick one"), "Pick one");
    s.trigger_clicked(true);
    assert!(!s.open);
    assert!(s.trigger_key_pressed("ArrowDown", false));
    assert!(s.open);
    assert!(!s.trigger_key_pressed("a", false));
    assert!(!s.pick("x", true));
    assert!(s.open);
    assert!(s.pick("apple", false));
    assert!(!s.open);
    assert!(s.is_selected("apple"));
    s.item_rendered("pear", "Pear");
    assert_eq!(s.shown("Pick one"), "Pick one");
    s.item_rendered("apple", "Apple");
    assert_eq!(s.shown("Pick one"), "Apple");
    s.trigger_clicked(false);
    assert!(s.trigger_key_pressed("Escape", false));
    assert!(!s.open);
    assert_eq!(trigger_key("Enter"), Some(TriggerKey::Open));
    assert!(item_key_selects(" "));
    assert_eq!(scroll_state(0, 500, 200), (false, true));
    assert_eq!(scroll_state(299, 500, 200), (true, false));
    assert_eq!(scroll_state(298, 500, 200), (true, true));
}

#[test]
fn menu_items_and_submenus() {
    assert_eq!(item_clicked(false), ItemEffect { select: true, close: true });
    assert_eq!(item_clicked(true), ItemEffect { select: false, close: false });
    assert_eq!(checkbox_item_clicked(true, false), Some(false));
    assert_eq!(checkbox_item_clicked(true, true), None);
    let mut m = Submenu::new();
    m.enter_trigger();
    assert!(m.open);
    m.leave_trigger();
    m.enter_content();
    m.close_check();
    assert!(m.open);
    m.leave_content();
    assert!(!m.open);
    m.enter_trigger();
    m.leave_trigger();
    m.close_check();
    assert!(!m.open);
}
