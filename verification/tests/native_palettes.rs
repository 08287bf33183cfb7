use impulse_client_kit::native_themes::android::{capture as android_capture, material_theme, resource_color, resource_name, shades, MaterialShades};
use impulse_client_kit::native_themes::{
    apply_native_base_theme, ios, macos, rgb_hex, theme, windows, NativeBaseTheme, Scheme, StyleInjection,
    NATIVE_BASE_THEME_CSS, STYLE_ELEMENT_ID,
};

fn tokens(n: &impulse_client_kit::native_themes::BaseNeutrals) -> Vec<String> {
    vec![
        n.background.clone(), n.foreground.clone(), n.card.clone(), n.card_foreground.clone(),
        n.popover.clone(), n.popover_foreground.clone(), n.muted.clone(), n.muted_foreground.clone(),
        n.secondary.clone(), n.secondary_foreground.clone(), n.accent.clone(), n.accent_foreground.clone(),
        n.border.clone(), n.input.clone(), n.ring.clone(),
    ]
}

#[test]
fn rgb_hex_drops_alpha() {
    assert_eq!(rgb_hex(0xff11_2233u32 as i32), "#112233");
    assert_eq!(rgb_hex(-1), "#ffffff");
    assert_eq!(rgb_hex(0), "#000000");
    assert_eq!(rgb_hex(0x00ab_cdef), "#abcdef");
}

#[test]
fn schemes_spread_over_tokens() {
    let t = theme(
        Scheme { background: "#b", foreground: "#f", card: "#c", popover: "#p", surface: "#s", dim: "#d", line: "#l", ring: "#r" },
        Scheme { background: "#B", foreground: "#F", card: "#C", popover: "#P", surface: "#S", dim: "#D", line: "#L", ring: "#R" },
    )
    .unwrap();
    let light = tokens(t.light.as_ref().unwrap());
    assert_eq!(light, vec!["#b", "#f", "#c", "#f", "#p", "#f", "#s", "#d", "#s", "#f", "#s", "#f", "#l", "#l", "#r"]);
    let dark = tokens(t.dark.as_ref().unwrap());
    assert_eq!(dark[0], "#B");
    assert_eq!(dark[14], "#R");
}

#[test]
fn fixed_platform_palettes() {
    let w: NativeBaseTheme = windows::capture().unwrap();
    let l = w.light.unwrap();
    assert_eq!(l.background, "#f3f3f3");
    assert_eq!(l.card_foreground, "#1a1a1a");
    assert_eq!(l.input, "#e5e5e5");
    let d = w.dark.unwrap();
    assert_eq!(d.popover, "#2c2c2c");
    assert_eq!(d.ring, "#9a9a9a");
    let m = macos::capture().unwrap();
    assert_eq!(m.dark.unwrap().card, "#1e1e1e");
    let i = ios::capture().unwrap();
    assert_eq!(i.dark.as_ref().unwrap().background, "#000000");
    assert_eq!(i.light.unwrap().muted_foreground, "#8e8e93");
}

#[test]
fn android_resources() {
    assert_eq!(resource_name(1, 10), "system_neutral1_10");
    assert_eq!(resource_name(2, 700), "system_neutral2_700");
    assert_eq!(resource_color(0, 0x00ff_ffff), None);
    assert_eq!(resource_color(17, 0xff12_3456u32 as i32), Some("#123456".to_string()));
    assert_eq!(shades(), vec![(1, 0), (1, 10), (1, 100), (1, 800), (1, 900), (2, 100), (2, 200), (2, 400), (2, 500), (2, 700)]);
}

fn sample_shades() -> MaterialShades {
    MaterialShades {
        n1_0: "#n10".into(),
        n1_10: "#n110".into(),
        n1_100: "#n1100".into(),
        n1_800: "#n1800".into(),
        n1_900: "#n1900".into(),
        n2_100: "#n2100".into(),
        n2_200: "#n2200".into(),
        n2_400: "#n2400".into(),
        n2_500: "#n2500".into(),
        n2_700: "#n2700".into(),
    }
}

#[test]
fn material_tones_to_schemes() {
    let t = material_theme(&sample_shades());
    let l = t.light.unwrap();
    assert_eq!(l.background, "#n110");
    assert_eq!(l.card, "#n10");
    assert_eq!(l.muted_foreground, "#n2700");
    assert_eq!(l.ring, "#n2500");
    let d = t.dark.unwrap();
    assert_eq!(d.background, "#n1900");
    assert_eq!(d.foreground, "#n1100");
    assert_eq!(d.border, "#n2700");
    assert_eq!(d.ring, "#n2400");
}

#[test]
fn android_capture_needs_every_shade() {
    let mut read: Vec<Option<String>> = (0..10).map(|i| Some(format!("#{i}"))).collect();
    let t = android_capture(&read).unwrap();
    assert_eq!(t.light.unwrap().background, "#1");
    read[4] = None;
    assert!(android_capture(&read).is_none());
    assert!(android_capture(&vec![]).is_none());
}

#[test]
fn stylesheet_injection_is_idempotent() {
    assert_eq!(apply_native_base_theme(false, true, true), StyleInjection::IntoHead);
    assert_eq!(apply_native_base_theme(false, false, true), StyleInjection::IntoRoot);
    assert_eq!(apply_native_base_theme(false, false, false), StyleInjection::Nowhere);
    assert_eq!(apply_native_base_theme(true, true, true), StyleInjection::AlreadyPresent);
    assert_eq!(STYLE_ELEMENT_ID, "impulse-native-base-theme");
    assert!(NATIVE_BASE_THEME_CSS.starts_with(":root { color-scheme: light; }\n"));
    assert!(!NATIVE_BASE_THEME_CSS.contains("--primary"));
}

#[test]
fn alpha_byte_never_changes_the_colour() {
    for rgb in [0x0000_0000u32, 0x0012_3456, 0x00ff_ffff, 0x0080_0001] {
        let opaque = rgb_hex((rgb | 0xff00_0000) as i32);
        assert_eq!(rgb_hex(rgb as i32), opaque);
        assert_eq!(rgb_hex((rgb | 0x7f00_0000) as i32), opaque);
        assert_eq!(opaque.len(), 7);
    }
}
