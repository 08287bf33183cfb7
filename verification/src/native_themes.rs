//! Base-neutral palettes that follow the host system: the stylesheet that maps
//! the neutral design tokens onto CSS system colours, the fixed platform
//! tables, and the assembly of the Material You tonal palette.

use vstd::prelude::*;
use crate::text::{hex_fixed, push_hex_fixed, push_char};

pub mod windows;
pub mod macos;
pub mod ios;
pub mod android;

verus! {

/// The `id` of the injected `<style>` element, used to keep injection idempotent.
pub const STYLE_ELEMENT_ID: &'static str = "impulse-native-base-theme";

/// The stylesheet that maps the base-neutral tokens onto the system colours.
pub const NATIVE_BASE_THEME_CSS: &'static str = "\
:root { color-scheme: light; }\n\
:root.dark { color-scheme: dark; }\n\
:root {\n\
  --background: Canvas;\n\
  --foreground: CanvasText;\n\
  --card: Canvas;\n\
  --card-foreground: CanvasText;\n\
  --popover: Canvas;\n\
  --popover-foreground: CanvasText;\n\
  --muted: color-mix(in srgb, Canvas 92%, CanvasText);\n\
  --muted-foreground: GrayText;\n\
  --secondary: color-mix(in srgb, Canvas 90%, CanvasText);\n\
  --secondary-foreground: CanvasText;\n\
  --accent: color-mix(in srgb, Canvas 90%, CanvasText);\n\
  --accent-foreground: CanvasText;\n\
  --border: color-mix(in srgb, Canvas 86%, CanvasText);\n\
  --input: color-mix(in srgb, Canvas 86%, CanvasText);\n\
  --ring: color-mix(in srgb, Canvas 55%, CanvasText);\n\
}\n";

/// One scheme's base-neutral design tokens, as CSS colours.
#[derive(Clone, Debug)]
pub struct BaseNeutrals {
    pub background: String,
    pub foreground: String,
    pub card: String,
    pub card_foreground: String,
    pub popover: String,
    pub popover_foreground: String,
    pub muted: String,
    pub muted_foreground: String,
    pub secondary: String,
    pub secondary_foreground: String,
    pub accent: String,
    pub accent_foreground: String,
    pub border: String,
    pub input: String,
    pub ring: String,
}

impl View for BaseNeutrals {
    /// The fifteen token values in stylesheet order: background, foreground,
    /// card, card-foreground, popover, popover-foreground, muted,
    /// muted-foreground, secondary, secondary-foreground, accent,
    /// accent-foreground, border, input, ring.
    type V = Seq<Seq<char>>;

    open spec fn view(&self) -> Seq<Seq<char>> {
        seq![
            self.background@, self.foreground@, self.card@, self.card_foreground@,
            self.popover@, self.popover_foreground@, self.muted@, self.muted_foreground@,
            self.secondary@, self.secondary_foreground@, self.accent@, self.accent_foreground@,
            self.border@, self.input@, self.ring@,
        ]
    }
}

/// The palette a platform publishes: a light and a dark scheme, either of
/// which may be left to the app's own colours.
#[derive(Clone, Debug)]
pub struct NativeBaseTheme {
    pub light: Option<BaseNeutrals>,
    pub dark: Option<BaseNeutrals>,
}

/// One scheme's distinct colours, by role. The tokens repeat several of them.
pub struct Scheme {
    /// Window/page background.
    pub background: &'static str,
    /// Primary text on `background`.
    pub foreground: &'static str,
    /// Raised surfaces: cards.
    pub card: &'static str,
    /// Menus and flyouts.
    pub popover: &'static str,
    /// Subtle filled surfaces (muted / secondary / accent).
    pub surface: &'static str,
    /// De-emphasised text.
    pub dim: &'static str,
    /// Separators and control outlines.
    pub line: &'static str,
    /// Focus ring.
    pub ring: &'static str,
}

impl Scheme {
    /// The eight roles in declaration order.
    pub open spec fn roles(self) -> Seq<Seq<char>> {
        seq![
            self.background@, self.foreground@, self.card@, self.popover@,
            self.surface@, self.dim@, self.line@, self.ring@,
        ]
    }

    /// Spreads the roles over the fifteen tokens.
    pub fn into_neutrals(self) -> (n: BaseNeutrals)
        ensures
            n@ == neutrals_from_roles(self.roles()),
    {
        BaseNeutrals {
            background: String::from_str(self.background),
            foreground: String::from_str(self.foreground),
            card: String::from_str(self.card),
            card_foreground: String::from_str(self.foreground),
            popover: String::from_str(self.popover),
            popover_foreground: String::from_str(self.foreground),
            muted: String::from_str(self.surface),
            muted_foreground: String::from_str(self.dim),
            secondary: String::from_str(self.surface),
            secondary_foreground: String::from_str(self.foreground),
            accent: String::from_str(self.surface),
            accent_foreground: String::from_str(self.foreground),
            border: String::from_str(self.line),
            input: String::from_str(self.line),
            ring: String::from_str(self.ring),
        }
    }
}

/// Tokens from roles (`r` = background, foreground, card, popover, surface,
/// dim, line, ring): text tokens take the foreground, except muted text
/// which is dim; muted, secondary and accent share the surface; border and
/// input share the line.
pub open spec fn neutrals_from_roles(r: Seq<Seq<char>>) -> Seq<Seq<char>> {
    seq![r[0], r[1], r[2], r[1], r[3], r[1], r[4], r[5], r[4], r[1], r[4], r[1], r[6], r[6], r[7]]
}

/// Whether `t` publishes both schemes, with these token values.
pub open spec fn publishes_both(t: NativeBaseTheme, light: Seq<Seq<char>>, dark: Seq<Seq<char>>) -> bool {
    &&& t.light matches Some(l) && l@ == light
    &&& t.dark matches Some(d) && d@ == dark
}

/// A palette that publishes both schemes.
pub fn theme(light: Scheme, dark: Scheme) -> (t: Option<NativeBaseTheme>)
    ensures
        t matches Some(th) && publishes_both(
            th,
            neutrals_from_roles(light.roles()),
            neutrals_from_roles(dark.roles()),
        ),
{
    let l = light.into_neutrals();
    let d = dark.into_neutrals();
    Some(NativeBaseTheme { light: Some(l), dark: Some(d) })
}

/// The 32-bit pattern of a signed colour int.
pub open spec fn argb_bits(argb: int) -> nat {
    if argb < 0 { (argb + 0x1_0000_0000) as nat } else { argb as nat }
}

/// Byte `k` (0 = lowest) of `c`.
pub open spec fn byte_of(c: nat, k: nat) -> nat {
    (c / vstd::arithmetic::power::pow(256, k) as nat) % 256
}

/// `#rrggbb` for an ARGB colour int; the alpha byte is dropped.
pub open spec fn rgb_hex_spec(argb: int) -> Seq<char> {
    let c = argb_bits(argb);
    seq!['#'] + hex_fixed(byte_of(c, 2), 2) + hex_fixed(byte_of(c, 1), 2) + hex_fixed(byte_of(c, 0), 2)
}

/// Formats an ARGB colour int as CSS `#rrggbb`.
pub fn rgb_hex(argb: i32) -> (s: String)
    ensures
        s@ == rgb_hex_spec(argb as int),
{
    let c: u64 = if argb < 0 { (argb as i64 + 0x1_0000_0000i64) as u64 } else { argb as u64 };
    proof {
        vstd::arithmetic::power::lemma_pow0(256);
        vstd::arithmetic::power::lemma_pow1(256);
        vstd::arithmetic::power::lemma_pow_adds(256, 1, 1);
        assert(vstd::arithmetic::power::pow(256, 2) == 65536);
        assert(c as nat == argb_bits(argb as int));
        assert(byte_of(c as nat, 2) == (c / 65536) % 256);
        assert(byte_of(c as nat, 1) == (c / 256) % 256);
        assert((c as nat) / 1nat == c as nat);
        assert(byte_of(c as nat, 0) == c % 256);
    }
    let mut s = String::new();
    push_char(&mut s, '#');
    push_hex_fixed(&mut s, (c / 65536) % 256, 2);
    push_hex_fixed(&mut s, (c / 256) % 256, 2);
    push_hex_fixed(&mut s, c % 256, 2);
    proof {
        assert(s@ =~= rgb_hex_spec(argb as int));
    }
    s
}

proof fn lemma_low_bytes(c: nat)
    ensures
        (c / 65536) % 256 == ((c % 16777216) / 65536) % 256,
        (c / 256) % 256 == ((c % 16777216) / 256) % 256,
        c % 256 == (c % 16777216) % 256,
{
    let q = c / 16777216;
    let r = c % 16777216;
    vstd::arithmetic::div_mod::lemma_fundamental_div_mod(c as int, 16777216);
    assert(c == 65536 * (256 * q) + r) by (nonlinear_arith)
        requires
            c == 16777216 * q + r,
    ;
    vstd::arithmetic::div_mod::lemma_hoist_over_denominator(r as int, (256 * q) as int, 65536);
    assert(r as int + (256 * q) * 65536 == c);
    vstd::arithmetic::div_mod::lemma_mod_multiples_vanish(q as int, r as int / 65536, 256);
    assert(c == 256 * (65536 * q) + r) by (nonlinear_arith)
        requires
            c == 16777216 * q + r,
    ;
    vstd::arithmetic::div_mod::lemma_hoist_over_denominator(r as int, (65536 * q) as int, 256);
    assert(r as int + (65536 * q) * 256 == c);
    vstd::arithmetic::div_mod::lemma_mod_multiples_vanish((256 * q) as int, r as int / 256, 256);
    assert(256 * (256 * q) == 65536 * q);
    vstd::arithmetic::div_mod::lemma_mod_mod(c as int, 256, 65536);
}

/// The alpha byte never shows: two colour ints whose 32-bit patterns agree
/// in their low three bytes give the same `#rrggbb`, which is always `#`
/// and six hex digits.
pub proof fn law_rgb_hex_ignores_alpha(a: int, b: int)
    requires
        i32::MIN <= a <= i32::MAX,
        i32::MIN <= b <= i32::MAX,
        argb_bits(a) % 16777216 == argb_bits(b) % 16777216,
    ensures
        rgb_hex_spec(a) == rgb_hex_spec(b),
        rgb_hex_spec(a).len() == 7,
{
    vstd::arithmetic::power::lemma_pow0(256);
    vstd::arithmetic::power::lemma_pow1(256);
    vstd::arithmetic::power::lemma_pow_adds(256, 1, 1);
    assert(vstd::arithmetic::power::pow(256, 2) == 65536);
    let ca = argb_bits(a);
    let cb = argb_bits(b);
    lemma_low_bytes(ca);
    lemma_low_bytes(cb);
    assert(ca / 1 == ca && cb / 1 == cb);
    assert(byte_of(ca, 2) == byte_of(cb, 2));
    assert(byte_of(ca, 1) == byte_of(cb, 1));
    assert(byte_of(ca, 0) == byte_of(cb, 0));
    reveal_with_fuel(hex_fixed, 3);
}

/// Where the stylesheet goes, given what the document holds.
#[derive(Clone, Copy, Debug, PartialEq, Eq, Structural)]
pub enum StyleInjection {
    /// An element with [`STYLE_ELEMENT_ID`] is already there: nothing to do.
    AlreadyPresent,
    /// Append the `<style>` to `<head>`, after the app's own stylesheet.
    IntoHead,
    /// No `<head>`: append to the document element.
    IntoRoot,
    /// Nowhere to put it.
    Nowhere,
}

/// The plan as a function of the document's shape.
pub open spec fn apply_plan(present: bool, has_head: bool, has_root: bool) -> StyleInjection {
    if present {
        StyleInjection::AlreadyPresent
    } else if has_head {
        StyleInjection::IntoHead
    } else if has_root {
        StyleInjection::IntoRoot
    } else {
        StyleInjection::Nowhere
    }
}

/// Decides how to inject [`NATIVE_BASE_THEME_CSS`] (under the id
/// [`STYLE_ELEMENT_ID`]) so the base-neutral tokens follow the system theme:
/// nothing when the element is there, else into `<head>`, else into the
/// document element.
pub fn apply_native_base_theme(present: bool, has_head: bool, has_root: bool) -> (plan: StyleInjection)
    ensures
        plan == apply_plan(present, has_head, has_root),
{
    if present {
        StyleInjection::AlreadyPresent
    } else if has_head {
        StyleInjection::IntoHead
    } else if has_root {
        StyleInjection::IntoRoot
    } else {
        StyleInjection::Nowhere
    }
}

/// Injection is idempotent: a call that finds somewhere to put the element
/// injects it, and every later call (the element now present) does nothing.
pub proof fn law_injection_is_idempotent(has_head: bool, has_root: bool)
    ensures
        (has_head || has_root) ==> apply_plan(false, has_head, has_root) != StyleInjection::AlreadyPresent,
        apply_plan(true, has_head, has_root) == StyleInjection::AlreadyPresent,
{
}

} // verus!
