//! Fluent / WinUI neutrals: the solid background layers, card and flyout
//! fills, and the text colours Windows 11 apps draw with.

use vstd::prelude::*;
use super::{theme, NativeBaseTheme, Scheme, neutrals_from_roles, publishes_both};

verus! {

/// The light scheme's roles.
pub open spec fn light_roles() -> Seq<Seq<char>> {
    seq!["#f3f3f3"@, "#1a1a1a"@, "#fbfbfb"@, "#f9f9f9"@, "#ededed"@, "#5d5d5d"@, "#e5e5e5"@, "#868686"@]
}

/// The dark scheme's roles.
pub open spec fn dark_roles() -> Seq<Seq<char>> {
    seq!["#202020"@, "#ffffff"@, "#2b2b2b"@, "#2c2c2c"@, "#323232"@, "#c5c5c5"@, "#383838"@, "#9a9a9a"@]
}

/// The Windows palette, both schemes.
pub fn capture() -> (t: Option<NativeBaseTheme>)
    ensures
        t matches Some(th) && publishes_both(th, neutrals_from_roles(light_roles()), neutrals_from_roles(dark_roles())),
{
    let light = Scheme {
        background: "#f3f3f3",
        foreground: "#1a1a1a",
        card: "#fbfbfb",
        popover: "#f9f9f9",
        surface: "#ededed",
        dim: "#5d5d5d",
        line: "#e5e5e5",
        ring: "#868686",
    };
    let dark = Scheme {
        background: "#202020",
        foreground: "#ffffff",
        card: "#2b2b2b",
        popover: "#2c2c2c",
        surface: "#323232",
        dim: "#c5c5c5",
        line: "#383838",
        ring: "#9a9a9a",
    };
    proof {
        assert(light.roles() =~= light_roles());
        assert(dark.roles() =~= dark_roles());
    }
    theme(light, dark)
}

} // verus!
