//! Theme choice: the three modes and how they are stored, cycled, resolved
//! against the system scheme, and mirrored into the cookie the server reads.

use vstd::prelude::*;
use crate::command::str_eq;

verus! {

pub const LIGHT_THEME: &'static str = "light";
pub const DARK_THEME: &'static str = "dark";
pub const THEME_LOCAL_STORAGE_KEY: &'static str = "theme";
pub const THEME_COOKIE_KEY: &'static str = "impulse_theme";
/// The attribute a native shell may write on `<html>` to state the system's
/// current scheme, in preference to a media query that cannot see it.
pub const SYSTEM_SCHEME_ATTRIBUTE: &'static str = "data-impulse-system-scheme";
/// The event announcing that the attribute changed.
pub const SYSTEM_SCHEME_EVENT: &'static str = "impulse:system-scheme";

/// Which theme the user asked for.
#[derive(Clone, Copy, Debug, PartialEq, Eq, Structural)]
pub enum ThemeMode {
    /// Follow the operating system.
    System,
    Light,
    Dark,
}

impl Default for ThemeMode {
    fn default() -> (m: Self)
        ensures
            m == ThemeMode::System,
    {
        ThemeMode::System
    }
}

/// The stored value of a mode: `System` is the empty string, which is also
/// what an unset key reads as.
pub open spec fn storage_of(m: ThemeMode) -> Seq<char> {
    match m {
        ThemeMode::System => ""@,
        ThemeMode::Light => "light"@,
        ThemeMode::Dark => "dark"@,
    }
}

/// The mode a stored value names; anything unknown follows the system.
pub open spec fn mode_of(value: Seq<char>) -> ThemeMode {
    if value == "light"@ {
        ThemeMode::Light
    } else if value == "dark"@ {
        ThemeMode::Dark
    } else {
        ThemeMode::System
    }
}

/// The control's cycle: system → light → dark → system.
pub open spec fn next_mode(m: ThemeMode) -> ThemeMode {
    match m {
        ThemeMode::System => ThemeMode::Light,
        ThemeMode::Light => ThemeMode::Dark,
        ThemeMode::Dark => ThemeMode::System,
    }
}

impl ThemeMode {
    /// The `localStorage` value.
    pub fn as_storage(self) -> (s: &'static str)
        ensures
            s@ == storage_of(self),
    {
        match self {
            ThemeMode::System => "",
            ThemeMode::Light => LIGHT_THEME,
            ThemeMode::Dark => DARK_THEME,
        }
    }

    /// The mode a stored value names.
    pub fn from_storage(value: &str) -> (m: Self)
        ensures
            m == mode_of(value@),
    {
        if str_eq(value, LIGHT_THEME) {
            ThemeMode::Light
        } else if str_eq(value, DARK_THEME) {
            ThemeMode::Dark
        } else {
            ThemeMode::System
        }
    }

    /// The next mode in the control's cycle.
    pub fn next(self) -> (m: Self)
        ensures
            m == next_mode(self),
    {
        match self {
            ThemeMode::System => ThemeMode::Light,
            ThemeMode::Light => ThemeMode::Dark,
            ThemeMode::Dark => ThemeMode::System,
        }
    }

    /// The explicit choice to persist; `System` is "no choice".
    pub fn explicit(self) -> (e: Option<&'static str>)
        ensures
            self == ThemeMode::System ==> e is None,
            self != ThemeMode::System ==> (e matches Some(s) && s@ == storage_of(self)),
    {
        match self {
            ThemeMode::System => None,
            other => Some(other.as_storage()),
        }
    }
}

/// The scheme a native shell reported through [`SYSTEM_SCHEME_ATTRIBUTE`]:
/// `Some(true)` for dark, `Some(false)` for light, `None` for anything else.
pub fn reported_scheme(value: &str) -> (dark: Option<bool>)
    ensures
        dark == (if value@ == "dark"@ { Some(true) } else if value@ == "light"@ { Some(false) } else { None::<bool> }),
{
    if str_eq(value, DARK_THEME) {
        Some(true)
    } else if str_eq(value, LIGHT_THEME) {
        Some(false)
    } else {
        None
    }
}

/// Whether the page shows the dark theme.
pub open spec fn resolve_dark_spec(mode: ThemeMode, reported: Option<bool>, prefers_dark: bool) -> bool {
    match mode {
        ThemeMode::Dark => true,
        ThemeMode::Light => false,
        ThemeMode::System => match reported {
            Some(d) => d,
            None => prefers_dark,
        },
    }
}

/// Whether the page shows the dark theme: an explicit choice wins; following
/// the system, a native shell's report is preferred over the media query.
pub fn resolve_dark(mode: ThemeMode, reported: Option<bool>, prefers_dark: bool) -> (dark: bool)
    ensures
        dark == resolve_dark_spec(mode, reported, prefers_dark),
{
    match mode {
        ThemeMode::Dark => true,
        ThemeMode::Light => false,
        ThemeMode::System => match reported {
            Some(d) => d,
            None => prefers_dark,
        },
    }
}

/// The cookie that mirrors an explicit choice for a year, or clears it.
pub open spec fn cookie_spec(explicit: Option<Seq<char>>) -> Seq<char> {
    match explicit {
        Some(v) => "impulse_theme="@ + v + "; path=/; max-age=31536000; SameSite=Lax"@,
        None => "impulse_theme=; path=/; max-age=0; SameSite=Lax"@,
    }
}

/// The `document.cookie` assignment that mirrors the choice for the server.
pub fn theme_cookie(explicit: Option<&str>) -> (c: String)
    ensures
        c@ == cookie_spec(match explicit { Some(v) => Some(v@), None => None }),
{
    match explicit {
        Some(value) => {
            let mut c = String::from_str(THEME_COOKIE_KEY);
            c.append("=");
            c.append(value);
            c.append("; path=/; max-age=31536000; SameSite=Lax");
            proof {
                reveal_strlit("impulse_theme");
                reveal_strlit("=");
                reveal_strlit("impulse_theme=");
                assert(c@ =~= cookie_spec(Some(value@)));
            }
            c
        },
        None => {
            let mut c = String::from_str(THEME_COOKIE_KEY);
            c.append("=; path=/; max-age=0; SameSite=Lax");
            proof {
                reveal_strlit("impulse_theme");
                reveal_strlit("=; path=/; max-age=0; SameSite=Lax");
                reveal_strlit("impulse_theme=; path=/; max-age=0; SameSite=Lax");
                assert(c@ =~= cookie_spec(None));
            }
            c
        },
    }
}

/// What the provider does on each change: the `dark` class on `<html>`,
/// and the cookie to write.
pub struct ThemeSync {
    pub dark: bool,
    pub cookie: String,
}

/// The provider's reaction to the mode and the system scheme.
pub fn sync(mode: ThemeMode, reported: Option<bool>, prefers_dark: bool) -> (s: ThemeSync)
    ensures
        s.dark == resolve_dark_spec(mode, reported, prefers_dark),
        s.cookie@ == cookie_spec(if mode == ThemeMode::System { None } else { Some(storage_of(mode)) }),
{
    let dark = resolve_dark(mode, reported, prefers_dark);
    let cookie = theme_cookie(mode.explicit());
    ThemeSync { dark, cookie }
}

/// Which faces a theme toggle was given, per mode.
#[derive(Clone, Copy, Debug)]
pub struct FacesGiven {
    pub light_icon: bool,
    pub dark_icon: bool,
    pub system_icon: bool,
    pub light_text: bool,
    pub dark_text: bool,
    pub system_text: bool,
}

/// What the toggle's label shows.
#[derive(Clone, Copy, Debug, PartialEq, Eq, Structural)]
pub enum ToggleLabel {
    /// The caller's children, unchanged.
    Children,
    /// The current mode's icon (`custom_icon`: the caller's, else the
    /// built-in one) and its text, if one was given.
    Face { custom_icon: bool, text: bool },
}

impl FacesGiven {
    pub open spec fn is_empty_spec(self) -> bool {
        !self.light_icon && !self.dark_icon && !self.system_icon
            && !self.light_text && !self.dark_text && !self.system_text
    }

    /// Nothing per-mode was passed.
    pub fn is_empty(&self) -> (b: bool)
        ensures
            b == self.is_empty_spec(),
    {
        !self.light_icon && !self.dark_icon && !self.system_icon
            && !self.light_text && !self.dark_text && !self.system_text
    }

    pub open spec fn icon_spec(self, mode: ThemeMode) -> bool {
        match mode {
            ThemeMode::Light => self.light_icon,
            ThemeMode::Dark => self.dark_icon,
            ThemeMode::System => self.system_icon,
        }
    }

    pub open spec fn text_spec(self, mode: ThemeMode) -> bool {
        match mode {
            ThemeMode::Light => self.light_text,
            ThemeMode::Dark => self.dark_text,
            ThemeMode::System => self.system_text,
        }
    }
}

/// The label for `mode`: the children when no face at all was named and
/// children were given; otherwise the mode's face, with the built-in icon
/// for a mode left without one.
pub fn toggle_label(faces: FacesGiven, mode: ThemeMode, has_children: bool) -> (l: ToggleLabel)
    ensures
        (faces.is_empty_spec() && has_children) ==> l == ToggleLabel::Children,
        !(faces.is_empty_spec() && has_children) ==> l == (ToggleLabel::Face {
            custom_icon: faces.icon_spec(mode),
            text: faces.text_spec(mode),
        }),
{
    if faces.is_empty() && has_children {
        return ToggleLabel::Children;
    }
    let custom_icon = match mode {
        ThemeMode::Light => faces.light_icon,
        ThemeMode::Dark => faces.dark_icon,
        ThemeMode::System => faces.system_icon,
    };
    let text = match mode {
        ThemeMode::Light => faces.light_text,
        ThemeMode::Dark => faces.dark_text,
        ThemeMode::System => faces.system_text,
    };
    ToggleLabel::Face { custom_icon, text }
}

/// Storing a mode and reading it back gives the same mode.
pub proof fn law_storage_round_trip(m: ThemeMode)
    ensures
        mode_of(storage_of(m)) == m,
{
    reveal_strlit("light");
    reveal_strlit("dark");
    reveal_strlit("");
    assert("light"@.len() == 5);
    assert("dark"@.len() == 4);
    assert(""@.len() == 0);
}

/// The toggle cycles through all three modes and comes back after three
/// presses.
pub proof fn law_toggle_cycle(m: ThemeMode)
    ensures
        next_mode(next_mode(next_mode(m))) == m,
        next_mode(m) != m,
        next_mode(next_mode(m)) != m,
{
}

/// An explicit choice is shown whatever the system says; following the
/// system, a native shell's report outranks the media query.
pub proof fn law_explicit_choice_wins(reported: Option<bool>, prefers_dark: bool)
    ensures
        resolve_dark_spec(ThemeMode::Dark, reported, prefers_dark),
        !resolve_dark_spec(ThemeMode::Light, reported, prefers_dark),
        reported matches Some(d) ==> resolve_dark_spec(ThemeMode::System, reported, prefers_dark) == d,
{
}

} // verus!
