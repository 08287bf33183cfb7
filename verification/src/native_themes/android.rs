//! Material You (MD3) neutrals on Android: which framework colour resources
//! are read, and how the wallpaper-derived tonal palette becomes both
//! schemes. Resource names are shades, `0` white to `1000` black.

use vstd::prelude::*;
use crate::text::{decimal, push_decimal};
use super::{BaseNeutrals, NativeBaseTheme, rgb_hex, rgb_hex_spec, publishes_both};

verus! {

/// The shades read from the two neutral palettes, as `#rrggbb`.
#[derive(Clone, Debug)]
pub struct MaterialShades {
    pub n1_0: String,
    pub n1_10: String,
    pub n1_100: String,
    pub n1_800: String,
    pub n1_900: String,
    pub n2_100: String,
    pub n2_200: String,
    pub n2_400: String,
    pub n2_500: String,
    pub n2_700: String,
}

/// The `(palette, shade)` pairs that are read, in reading order.
pub open spec fn shade_table() -> Seq<(u8, u16)> {
    seq![(1u8, 0u16), (1, 10), (1, 100), (1, 800), (1, 900), (2, 100), (2, 200), (2, 400), (2, 500), (2, 700)]
}

/// The resources read, in the order the fields of [`MaterialShades`] take them.
pub fn shades() -> (v: Vec<(u8, u16)>)
    ensures
        v@ == shade_table(),
{
    let v = vec![(1u8, 0u16), (1, 10), (1, 100), (1, 800), (1, 900), (2, 100), (2, 200), (2, 400), (2, 500), (2, 700)];
    proof {
        assert(v@ =~= shade_table());
    }
    v
}

/// `system_neutral{palette}_{shade}`.
pub open spec fn resource_name_spec(palette: nat, shade: nat) -> Seq<char> {
    "system_neutral"@ + decimal(palette) + seq!['_'] + decimal(shade)
}

/// The name of the framework colour resource of a neutral shade.
pub fn resource_name(palette: u8, shade: u16) -> (s: String)
    ensures
        s@ == resource_name_spec(palette as nat, shade as nat),
{
    let mut s = String::from_str("system_neutral");
    push_decimal(&mut s, palette as u64);
    crate::text::push_char(&mut s, '_');
    push_decimal(&mut s, shade as u64);
    proof {
        assert(s@ =~= resource_name_spec(palette as nat, shade as nat));
    }
    s
}

/// A resource lookup: identifier `0` means the system predates dynamic
/// colour and there is no such resource; otherwise the colour int it holds.
pub fn resource_color(id: i32, argb: i32) -> (c: Option<String>)
    ensures
        id == 0 ==> c is None,
        id != 0 ==> (c matches Some(s) && s@ == rgb_hex_spec(argb as int)),
{
    if id == 0 {
        None
    } else {
        Some(rgb_hex(argb))
    }
}

/// The light scheme's tokens: surface n1-10, text n1-900, cards and
/// popovers one step lighter (n1-0), variants n2-100 with text n2-700,
/// outlines n2-200, ring n2-500.
pub open spec fn light_tokens(p: MaterialShades) -> Seq<Seq<char>> {
    seq![
        p.n1_10@, p.n1_900@, p.n1_0@, p.n1_900@, p.n1_0@, p.n1_900@,
        p.n2_100@, p.n2_700@, p.n2_100@, p.n2_700@, p.n2_100@, p.n2_700@,
        p.n2_200@, p.n2_200@, p.n2_500@,
    ]
}

/// The dark scheme's tokens: surface n1-900, text n1-100, cards and
/// popovers one step up (n1-800), variants n2-700 with text n2-200,
/// outlines n2-700, ring n2-400.
pub open spec fn dark_tokens(p: MaterialShades) -> Seq<Seq<char>> {
    seq![
        p.n1_900@, p.n1_100@, p.n1_800@, p.n1_100@, p.n1_800@, p.n1_100@,
        p.n2_700@, p.n2_200@, p.n2_700@, p.n2_200@, p.n2_700@, p.n2_200@,
        p.n2_700@, p.n2_700@, p.n2_400@,
    ]
}

fn copy(s: &String) -> (c: String)
    ensures
        c@ == s@,
{
    String::from_str(s.as_str())
}

/// Both schemes from the tonal palette.
pub fn material_theme(p: &MaterialShades) -> (t: NativeBaseTheme)
    ensures
        publishes_both(t, light_tokens(*p), dark_tokens(*p)),
{
    let light = BaseNeutrals {
        background: copy(&p.n1_10),
        foreground: copy(&p.n1_900),
        card: copy(&p.n1_0),
        card_foreground: copy(&p.n1_900),
        popover: copy(&p.n1_0),
        popover_foreground: copy(&p.n1_900),
        muted: copy(&p.n2_100),
        muted_foreground: copy(&p.n2_700),
        secondary: copy(&p.n2_100),
        secondary_foreground: copy(&p.n2_700),
        accent: copy(&p.n2_100),
        accent_foreground: copy(&p.n2_700),
        border: copy(&p.n2_200),
        input: copy(&p.n2_200),
        ring: copy(&p.n2_500),
    };
    let dark = BaseNeutrals {
        background: copy(&p.n1_900),
        foreground: copy(&p.n1_100),
        card: copy(&p.n1_800),
        card_foreground: copy(&p.n1_100),
        popover: copy(&p.n1_800),
        popover_foreground: copy(&p.n1_100),
        muted: copy(&p.n2_700),
        muted_foreground: copy(&p.n2_200),
        secondary: copy(&p.n2_700),
        secondary_foreground: copy(&p.n2_200),
        accent: copy(&p.n2_700),
        accent_foreground: copy(&p.n2_200),
        border: copy(&p.n2_700),
        input: copy(&p.n2_700),
        ring: copy(&p.n2_400),
    };
    NativeBaseTheme { light: Some(light), dark: Some(dark) }
}

/// The palette from the shades as read, in [`shades`] order: `None` unless
/// all ten were found (the system predates dynamic colour, or a read failed).
pub fn capture(read: &Vec<Option<String>>) -> (t: Option<NativeBaseTheme>)
    ensures
        (read@.len() == 10 && forall|i: int| 0 <= i < 10 ==> #[trigger] read@[i] is Some) <==> t is Some,
        t matches Some(th) ==> exists|p: MaterialShades| {
            &&& p.n1_0@ == read@[0]->0@ && p.n1_10@ == read@[1]->0@ && p.n1_100@ == read@[2]->0@
            &&& p.n1_800@ == read@[3]->0@ && p.n1_900@ == read@[4]->0@ && p.n2_100@ == read@[5]->0@
            &&& p.n2_200@ == read@[6]->0@ && p.n2_400@ == read@[7]->0@ && p.n2_500@ == read@[8]->0@
            &&& p.n2_700@ == read@[9]->0@
            &&& #[trigger] publishes_both(th, light_tokens(p), dark_tokens(p))
        },
{
    if read.len() != 10 {
        return None;
    }
    let mut i: usize = 0;
    while i < 10
        invariant
            read@.len() == 10,
            i <= 10,
            forall|j: int| 0 <= j < i ==> #[trigger] read@[j] is Some,
        decreases 10 - i,
    {
        if read[i].is_none() {
            return None;
        }
        i = i + 1;
    }
    let p = MaterialShades {
        n1_0: copy(read[0].as_ref().unwrap()),
        n1_10: copy(read[1].as_ref().unwrap()),
        n1_100: copy(read[2].as_ref().unwrap()),
        n1_800: copy(read[3].as_ref().unwrap()),
        n1_900: copy(read[4].as_ref().unwrap()),
        n2_100: copy(read[5].as_ref().unwrap()),
        n2_200: copy(read[6].as_ref().unwrap()),
        n2_400: copy(read[7].as_ref().unwrap()),
        n2_500: copy(read[8].as_ref().unwrap()),
        n2_700: copy(read[9].as_ref().unwrap()),
    };
    let t = material_theme(&p);
    Some(t)
}

} // verus!
