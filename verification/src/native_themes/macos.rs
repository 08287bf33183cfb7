//! AppKit's window, control and label colours. In the dark scheme a text or
//! list background (`card`) is darker than the window behind it, as on a Mac.

use vstd::prelude::*;
use super::{theme, NativeBaseTheme, Scheme, neutrals_from_roles, publishes_both};

verus! {

/// The light scheme's roles.
pub open spec fn light_roles() -> Seq<Seq<char>> {
    seq!["#ececec"@, "#000000"@, "#ffffff"@, "#f6f6f6"@, "#e0e0e0"@, "#737373"@, "#d8d8d8"@, "#a0a0a0"@]
}

/// The dark scheme's roles.
pub open spec fn dark_roles() -> Seq<Seq<char>> {
    seq!["#323232"@, "#ffffff"@, "#1e1e1e"@, "#2d2d2d"@, "#3f3f3f"@, "#a0a0a0"@, "#48484a"@, "#7c7c7c"@]
}

/// The macOS palette, both schemes.
pub fn capture() -> (t: Option<NativeBaseTheme>)
    ensures
        t matches Some(th) && publishes_both(th, neutrals_from_roles(light_roles()), neutrals_from_roles(dark_roles())),
{
    let light = Scheme {
        background: "#ececec",
        foreground: "#000000",
        card: "#ffffff",
        popover: "#f6f6f6",
        surface: "#e0e0e0",
        dim: "#737373",
        line: "#d8d8d8",
        ring: "#a0a0a0",
    };
    let dark = Scheme {
        background: "#323232",
        foreground: "#ffffff",
        card: "#1e1e1e",
        popover: "#2d2d2d",
        surface: "#3f3f3f",
        dim: "#a0a0a0",
        line: "#48484a",
        ring: "#7c7c7c",
    };
    proof {
        assert(light.roles() =~= light_roles());
        assert(dark.roles() =~= dark_roles());
    }
    theme(light, dark)
}

} // verus!
