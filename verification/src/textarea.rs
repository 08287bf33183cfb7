//! The multi-line field: where its height comes from (a grabber, fixed
//! rows, or its own text), the fitted height of an auto-sized field from the
//! browser's measurements, and the grabber's keyboard steps.

use vstd::prelude::*;
use crate::command::str_eq;
use crate::text::{cn, cn_spec, views, decimal_int, push_decimal_i64};

verus! {

pub const BASE_CLASSES: &'static str = "placeholder:text-muted-foreground selection:bg-primary selection:text-primary-foreground dark:bg-input/30 border-input flex w-full resize-none rounded-md border bg-transparent px-3 py-2 text-base shadow-xs transition-[color,box-shadow] outline-none disabled:pointer-events-none disabled:cursor-not-allowed disabled:opacity-50 md:text-sm focus-visible:border-ring focus-visible:ring-ring/50 focus-visible:ring-[3px] aria-invalid:ring-destructive/20 dark:aria-invalid:ring-destructive/40 aria-invalid:border-destructive";

/// How far a single arrow-key press moves the grabber, in pixels.
pub const KEYBOARD_STEP: i32 = 16;

/// Where a field's height comes from.
#[derive(Clone, Copy, Debug, PartialEq, Eq, Structural)]
pub enum TextareaSizing {
    /// The reader drags the grabber under the field.
    Grabber,
    /// `rows` and the classes, and nothing moves it afterwards.
    Fixed,
    /// The text: it grows and shrinks between `rows` and a ceiling.
    Auto,
}

impl Default for TextareaSizing {
    fn default() -> (s: Self)
        ensures
            s == TextareaSizing::Grabber,
    {
        TextareaSizing::Grabber
    }
}

impl TextareaSizing {
    /// `resizable=true` is the grabber, `false` a fixed field.
    pub fn from_grabber(grabber: bool) -> (s: Self)
        ensures
            s == (if grabber { TextareaSizing::Grabber } else { TextareaSizing::Fixed }),
    {
        if grabber { TextareaSizing::Grabber } else { TextareaSizing::Fixed }
    }
}

/// The field's classes: an auto-sized field hides its scrollbar until it
/// has been fitted.
pub fn textarea_class(sizing: TextareaSizing, extra: &str) -> (r: String)
    ensures
        r@ == cn_spec(seq![BASE_CLASSES@, if sizing == TextareaSizing::Auto { "overflow-hidden"@ } else { ""@ }, extra@]),
{
    let sizing_class: &str = if sizing == TextareaSizing::Auto { "overflow-hidden" } else { "" };
    let parts = [BASE_CLASSES, sizing_class, extra];
    let r = cn(&parts);
    proof {
        assert(views(parts@) =~= seq![BASE_CLASSES@, if sizing == TextareaSizing::Auto { "overflow-hidden"@ } else { ""@ }, extra@]);
    }
    r
}

/// The grabber shows for an enabled grabber-sized field only.
pub fn shows_grabber(sizing: TextareaSizing, disabled: bool) -> (b: bool)
    ensures
        b == (sizing == TextareaSizing::Grabber && !disabled),
{
    sizing == TextareaSizing::Grabber && !disabled
}

/// The starting number of lines: four unless given.
pub fn rows_or_default(rows: Option<i32>) -> (r: i32)
    ensures
        r == (match rows { Some(n) => n, None => 4 }),
{
    match rows {
        Some(n) => n,
        None => 4,
    }
}

/// The rows a ceiling given in rows is measured at: at least one.
pub fn ceiling_rows(max_rows: i32) -> (r: u32)
    ensures
        r == (if max_rows < 1 { 1 } else { max_rows }),
{
    if max_rows < 1 { 1 } else { max_rows as u32 }
}

/// A fitted height, and whether the field may scroll inside itself (only
/// under a ceiling).
#[derive(Clone, Copy, Debug, PartialEq, Eq, Structural)]
pub struct Fit {
    pub height: i32,
    pub scroll_inside: bool,
}

/// The border inside the box: the gap between the offset and client heights.
pub open spec fn border_spec(offset_height: int, client_height: int) -> int {
    if offset_height - client_height > 0 { offset_height - client_height } else { 0 }
}

pub open spec fn min_opt(h: int, ceiling: Option<i32>) -> int {
    match ceiling {
        Some(c) => if c < h { c as int } else { h },
        None => h,
    }
}

/// A growing field needs no measurement: shorter than its text, it reports
/// the text's full height. This applies when no ceiling is given in rows
/// and the text overflows the box; the result is the text's height with the
/// border, under the CSS ceiling.
pub open spec fn grow_spec(scroll_height: int, client_height: int, offset_height: int, css_ceiling: Option<i32>) -> int {
    min_opt(scroll_height + border_spec(offset_height, client_height), css_ceiling)
}

/// The fit without a measurement, when one is possible.
pub fn fit_growing(max_rows_given: bool, scroll_height: i32, client_height: i32, offset_height: i32, css_ceiling: Option<i32>) -> (f: Option<Fit>)
    requires
        0 <= client_height,
        0 <= scroll_height,
        0 <= offset_height,
        scroll_height + offset_height - client_height <= i32::MAX,
    ensures
        (max_rows_given || scroll_height <= client_height) ==> f is None,
        (!max_rows_given && scroll_height > client_height) ==> f == Some(Fit {
            height: grow_spec(scroll_height as int, client_height as int, offset_height as int, css_ceiling) as i32,
            scroll_inside: css_ceiling is Some,
        }),
{
    if max_rows_given || scroll_height <= client_height {
        return None;
    }
    let border: i32 = if offset_height - client_height > 0 { offset_height - client_height } else { 0 };
    let mut height: i32 = scroll_height + border;
    match css_ceiling {
        Some(c) => {
            if c < height {
                height = c;
            }
        },
        None => {},
    }
    Some(Fit { height, scroll_inside: css_ceiling.is_some() })
}

/// The ceiling of a measured fit: the rows' height (under the CSS ceiling,
/// when both are given), else the CSS ceiling.
pub open spec fn ceiling_spec(by_rows: Option<i32>, css_ceiling: Option<i32>) -> Option<i32> {
    match by_rows {
        Some(r) => Some(min_opt(r as int, css_ceiling) as i32),
        None => css_ceiling,
    }
}

/// The measured fit: with the height set to `auto` the box is `floor` tall
/// (its `rows`) and its text `scroll_height`, plus the border; the field is
/// as tall as the taller of the two, under the ceiling.
pub open spec fn measured_spec(floor: int, content: int, by_rows: Option<i32>, css_ceiling: Option<i32>) -> int {
    min_opt(if content > floor { content } else { floor }, ceiling_spec(by_rows, css_ceiling))
}

pub fn fit_measured(floor: i32, scroll_height: i32, border: i32, by_rows: Option<i32>, css_ceiling: Option<i32>) -> (f: Fit)
    requires
        0 <= border,
        scroll_height + border <= i32::MAX,
    ensures
        f == (Fit {
            height: measured_spec(floor as int, (scroll_height + border) as int, by_rows, css_ceiling) as i32,
            scroll_inside: ceiling_spec(by_rows, css_ceiling) is Some,
        }),
{
    let content: i32 = scroll_height + border;
    let ceiling: Option<i32> = match by_rows {
        Some(r) => match css_ceiling {
            Some(c) => Some(if c < r { c } else { r }),
            None => Some(r),
        },
        None => css_ceiling,
    };
    let mut height: i32 = if content > floor { content } else { floor };
    match ceiling {
        Some(c) => {
            if c < height {
                height = c;
            }
        },
        None => {},
    }
    Fit { height, scroll_inside: ceiling.is_some() }
}

/// The border inside the box.
pub fn border(offset_height: i32, client_height: i32) -> (b: i32)
    requires
        offset_height - client_height <= i32::MAX,
    ensures
        b == border_spec(offset_height as int, client_height as int),
{
    if offset_height as i64 - client_height as i64 > 0 { offset_height - client_height } else { 0 }
}

/// The style values written back: `{height}px`, and `auto` or `hidden`
/// for `overflow-y`.
pub fn fit_style(f: Fit) -> (r: (String, &'static str))
    ensures
        r.0@ == decimal_int(f.height as int) + "px"@,
        r.1@ == (if f.scroll_inside { "auto"@ } else { "hidden"@ }),
{
    let mut h = String::new();
    push_decimal_i64(&mut h, f.height as i64);
    h.append("px");
    (h, if f.scroll_inside { "auto" } else { "hidden" })
}

/// The grabber's keys: ArrowDown grows the field by a step, ArrowUp shrinks it.
pub fn keyboard_step(key: &str) -> (s: Option<i32>)
    ensures
        s == (if key@ == "ArrowDown"@ { Some(KEYBOARD_STEP) } else if key@ == "ArrowUp"@ { Some(-16i32) } else { None::<i32> }),
{
    if str_eq(key, "ArrowDown") {
        Some(KEYBOARD_STEP)
    } else if str_eq(key, "ArrowUp") {
        Some(-KEYBOARD_STEP)
    } else {
        None
    }
}

/// A fitted field never passes its ceiling, and without one it holds all
/// of its text and at least its rows; it may scroll inside only under a
/// ceiling.
pub proof fn law_fit_respects_floor_and_ceiling(floor: int, content: int, by_rows: Option<i32>, css_ceiling: Option<i32>)
    ensures
        ceiling_spec(by_rows, css_ceiling) matches Some(c) ==> measured_spec(floor, content, by_rows, css_ceiling) <= c,
        ceiling_spec(by_rows, css_ceiling) is None ==> measured_spec(floor, content, by_rows, css_ceiling) >= content
            && measured_spec(floor, content, by_rows, css_ceiling) >= floor,
        css_ceiling matches Some(c) ==> measured_spec(floor, content, by_rows, css_ceiling) <= c,
{
}

} // verus!
