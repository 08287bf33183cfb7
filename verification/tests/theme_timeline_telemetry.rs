use impulse_client_kit::router::{endpoint, endpoint_or_default, scheme_protocol};
use impulse_client_kit::telemetry::{
    session_id_from_chunks, ImpressionGate, TelemetryConfig, TelemetryContext, TelemetryEventKind, TelemetryLevel,
    TelemetryMode,
};
use impulse_client_kit::theme::{
    reported_scheme, resolve_dark, sync, theme_cookie, toggle_label, FacesGiven, ThemeMode, ToggleLabel,
};
use impulse_client_kit::timeline::{
    branch_position, card_class, card_style, container_class, dot_class, grid_and_line_styles, horizontal_grid_style,
    item_side, line_class, tracks, Side, TimelineAlignment, TimelineVariant,
};

#[test]
fn theme_storage_round_trip() {
    for m in [ThemeMode::System, ThemeMode::Light, ThemeMode::Dark] {
        assert_eq!(ThemeMode::from_storage(m.as_storage()), m);
    }
    assert_eq!(ThemeMode::System.as_storage(), "");
    assert_eq!(ThemeMode::from_storage("sepia"), ThemeMode::System);
    assert_eq!(ThemeMode::from_storage("Dark"), ThemeMode::System);
    assert_eq!(ThemeMode::default(), ThemeMode::System);
}

#[test]
fn theme_toggle_cycles_through_three_modes() {
    assert_eq!(ThemeMode::System.next(), ThemeMode::Light);
    assert_eq!(ThemeMode::Light.next(), ThemeMode::Dark);
    assert_eq!(ThemeMode::Dark.next(), ThemeMode::System);
    assert_eq!(ThemeMode::Light.next().next().next(), ThemeMode::Light);
    assert_eq!(ThemeMode::System.explicit(), None);
    assert_eq!(ThemeMode::Dark.explicit(), Some("dark"));
}

#[test]
fn theme_resolution_and_cookie() {
    assert!(resolve_dark(ThemeMode::Dark, Some(false), false));
    assert!(!resolve_dark(ThemeMode::Light, Some(true), true));
    assert!(resolve_dark(ThemeMode::System, Some(true), false));
    assert!(!resolve_dark(ThemeMode::System, Some(false), true));
    assert!(resolve_dark(ThemeMode::System, None, true));
    assert_eq!(reported_scheme("dark"), Some(true));
    assert_eq!(reported_scheme("light"), Some(false));
    assert_eq!(reported_scheme(""), None);
    assert_eq!(theme_cookie(Some("dark")), "impulse_theme=dark; path=/; max-age=31536000; SameSite=Lax");
    assert_eq!(theme_cookie(None), "impulse_theme=; path=/; max-age=0; SameSite=Lax");
    let s = sync(ThemeMode::System, None, true);
    assert!(s.dark);
    assert_eq!(s.cookie, "impulse_theme=; path=/; max-age=0; SameSite=Lax");
    let s = sync(ThemeMode::Light, Some(true), true);
    assert!(!s.dark);
    assert_eq!(s.cookie, "impulse_theme=light; path=/; max-age=31536000; SameSite=Lax");
}

#[test]
fn theme_toggle_faces() {
    let none = FacesGiven { light_icon: false, dark_icon: false, system_icon: false, light_text: false, dark_text: false, system_text: false };
    assert_eq!(toggle_label(none, ThemeMode::Dark, true), ToggleLabel::Children);
    assert_eq!(toggle_label(none, ThemeMode::Dark, false), ToggleLabel::Face { custom_icon: false, text: false });
    let some = FacesGiven { light_text: true, ..none };
    assert_eq!(toggle_label(some, ThemeMode::Light, true), ToggleLabel::Face { custom_icon: false, text: true });
    assert_eq!(toggle_label(some, ThemeMode::System, true), ToggleLabel::Face { custom_icon: false, text: false });
}

#[test]
fn timeline_placement() {
    assert_eq!(
        grid_and_line_styles(Side::Before, 0, true, true),
        ("grid-column: 1; grid-row: 1;".to_string(), "grid-column: 2; grid-row: 1; height: 100%;".to_string())
    );
    assert_eq!(
        grid_and_line_styles(Side::After, 4, true, false),
        ("grid-column: 2; grid-row: 5;".to_string(), "grid-column: 1; grid-row: 5; height: 100%;".to_string())
    );
    assert_eq!(
        grid_and_line_styles(Side::After, 9, false, true),
        ("grid-column: 10; grid-row: 3;".to_string(), "grid-column: 10; grid-row: 2; width: 100%;".to_string())
    );
    assert_eq!(item_side(0, true, TimelineAlignment::BottomRight), Side::Before);
    assert_eq!(item_side(1, true, TimelineAlignment::TopLeft), Side::After);
    assert_eq!(item_side(2, true, TimelineAlignment::TopLeft), Side::Before);
    assert_eq!(item_side(3, false, TimelineAlignment::TopLeft), Side::Before);
    assert_eq!(item_side(3, false, TimelineAlignment::BottomRight), Side::After);
}

#[test]
fn timeline_styles_and_classes() {
    assert_eq!(card_style(false, 220, 350), "width: 220px; min-width: 220px; max-width: 220px;");
    assert_eq!(card_style(true, 220, 350), "max-width: 350px;");
    assert_eq!(
        horizontal_grid_style(220, 130, true, TimelineAlignment::TopLeft),
        "grid-auto-columns: 130px; grid-template-rows: min-content 2rem min-content; padding-left: 45px; padding-right: 45px;"
    );
    assert_eq!(
        horizontal_grid_style(221, 130, false, TimelineAlignment::BottomRight),
        "grid-auto-columns: 130px; grid-template-rows: 2rem min-content; padding-left: 45.5px; padding-right: 45.5px;"
    );
    assert_eq!(
        horizontal_grid_style(100, 130, false, TimelineAlignment::TopLeft),
        "grid-auto-columns: 130px; grid-template-rows: min-content 2rem; padding-left: 0px; padding-right: 0px;"
    );
    assert_eq!(tracks(true, false, TimelineAlignment::TopLeft), "1fr 2rem");
    assert_eq!(line_class(0, 3, true), "absolute bg-muted rounded-t-full h-full w-1");
    assert_eq!(line_class(2, 3, false), "absolute bg-muted rounded-r-full w-full h-1");
    assert_eq!(line_class(0, 1, false), "absolute bg-muted rounded-l-full rounded-r-full w-full h-1");
    assert_eq!(line_class(1, 3, false), "absolute bg-muted w-full h-1");
    assert_eq!(branch_position(true, true, true, TimelineAlignment::BottomRight), "h-px w-4 left-0");
    assert_eq!(branch_position(false, true, false, TimelineAlignment::BottomRight), "w-px h-4 bottom-0");
    assert_eq!(container_class(false, Side::Before), "flex relative snap-center w-full justify-center items-end");
    assert_eq!(
        dot_class(false, TimelineVariant::Outline),
        "relative h-4 w-4 rounded-full z-10 flex items-center justify-center border-2 bg-background"
    );
    assert_eq!(
        card_class(true, TimelineVariant::Destructive, "x"),
        "flex flex-col rounded-md transition-all p-4 shrink-0 border-none shadow-none bg-transparent x"
    );
}

#[test]
fn backend_endpoint_from_location() {
    assert_eq!(endpoint("http:", "127.0.0.1:8080", "/some/api/route"), "http://127.0.0.1:8080/some/api/route");
    assert_eq!(scheme_protocol("https"), "https:");
    assert_eq!(endpoint_or_default(None, None, "/api"), "http:///api");
    assert_eq!(endpoint_or_default(Some("https:"), Some("example.org"), "/a"), "https://example.org/a");
}

#[test]
fn telemetry_config_builders() {
    let c = TelemetryConfig::default();
    assert_eq!(c.endpoint, "/api/telemetry");
    assert_eq!(c.mode, TelemetryMode::Anonymous);
    let c = TelemetryConfig::new("/t").with_session_id("s1").identified("u1");
    assert_eq!(c.mode, TelemetryMode::Identified);
    assert_eq!(c.user_id.as_deref(), Some("u1"));
    assert_eq!(c.session_id.as_deref(), Some("s1"));
    let c = c.anonymous();
    assert_eq!(c.user_id, None);
    assert_eq!(c.session_id.as_deref(), Some("s1"));
}

#[test]
fn anonymous_events_carry_no_user_id() {
    let config = TelemetryConfig::new("/t").identified("alice");
    let mut ctx = TelemetryContext::from_config(config, "generated".to_string());
    assert_eq!(ctx.session_id(), "generated");
    let e = ctx.build_event(TelemetryEventKind::Click, Some("cta".into()), 10, Some("/home".into()));
    assert_eq!(e.user_id.as_deref(), Some("alice"));
    assert_eq!(e.session_id.as_deref(), Some("generated"));
    assert_eq!(e.path.as_deref(), Some("/home"));
    ctx.set_mode(TelemetryMode::Anonymous);
    let e = ctx.build_event(TelemetryEventKind::Click, None, 11, None);
    assert_eq!(e.user_id, None);
    let l = ctx.log_event(TelemetryLevel::Warn, "careful", 12, None);
    assert_eq!(l.kind, TelemetryEventKind::Log);
    assert_eq!(l.level, Some(TelemetryLevel::Warn));
    assert_eq!(ctx.target(Some("/other".into())), "/other");
    assert_eq!(ctx.target(None), "/t");
}

#[test]
fn spans_report_once() {
    let ctx = TelemetryContext::from_config(TelemetryConfig::new("/t").with_session_id("s"), String::new());
    let mut span = ctx.span("load", 1000);
    let e = span.finish(&ctx, 1250, None).unwrap();
    assert_eq!(e.kind, TelemetryEventKind::Span);
    assert_eq!(e.duration_ms, Some(250));
    assert_eq!(e.message.as_deref(), Some("load"));
    assert!(span.finish(&ctx, 2000, None).is_none());
    let mut back = ctx.span("clock", 500);
    assert_eq!(back.finish(&ctx, 100, None).unwrap().duration_ms, Some(0));
}

#[test]
fn session_ids_are_32_hex_digits() {
    assert_eq!(session_id_from_chunks([0, 0xdead_beef, 1, u32::MAX]), "00000000deadbeef00000001ffffffff");
}

#[test]
fn impressions_fire_once() {
    let mut g = ImpressionGate::new();
    assert!(!g.observe(false));
    assert!(g.observe(true));
    assert!(!g.observe(true));
    assert!(!g.observe(false));
}
