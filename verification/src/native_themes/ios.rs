//! UIKit's grouped-content colours: cards on a recessed page. In the dark
//! scheme the page is true black, the platform's own convention.

use vstd::prelude::*;
use super::{theme, NativeBaseTheme, Scheme, neutrals_from_roles, publishes_both};

verus! {

/// The light scheme's roles.
pub open spec fn light_roles() -> Seq<Seq<char>> {
    seq!["#f2f2f7"@, "#000000"@, "#ffffff"@, "#ffffff"@, "#e5e5ea"@, "#8e8e93"@, "#c6c6c8"@, "#8e8e93"@]
}

/// The dark scheme's roles.
pub open spec fn dark_roles() -> Seq<Seq<char>> {
    seq!["#000000"@, "#ffffff"@, "#1c1c1e"@, "#1c1c1e"@, "#2c2c2e"@, "#8e8e93"@, "#38383a"@, "#8e8e93"@]
}

/// The iOS palette, both schemes.
pub fn capture() -> (t: Option<NativeBaseTheme>)
    ensures
        t matches Some(th) && publishes_both(th, neutrals_from_roles(light_roles()), neutrals_from_roles(dark_roles())),
{
    let light = Scheme {
        background: "#f2f2f7",
        foreground: "#000000",
        card: "#ffffff",
        popover: "#ffffff",
        surface: "#e5e5ea",
        dim: "#8e8e93",
        line: "#c6c6c8",
        ring: "#8e8e93",
    };
    let dark = Scheme {
        background: "#000000",
        foreground: "#ffffff",
        card: "#1c1c1e",
        popover: "#1c1c1e",
        surface: "#2c2c2e",
        dim: "#8e8e93",
        line: "#38383a",
        ring: "#8e8e93",
    };
    proof {
        assert(light.roles() =~= light_roles());
        assert(dark.roles() =~= dark_roles());
    }
    theme(light, dark)
}

} // verus!
