//! The number stepper: what a minus or plus press writes into the field.

use vstd::prelude::*;
use crate::text::{push_decimal, push_decimal_i64, decimal, decimal_int};

verus! {

/// Height of a stepper, matching the other fields.
#[derive(Clone, Copy, Debug, PartialEq, Eq, Structural)]
pub enum StepperSize {
    Sm,
    Middle,
    Lg,
}

impl StepperSize {
    /// The `data-size` attribute value.
    pub fn as_str(&self) -> (s: &'static str)
        ensures
            s@ == (match *self {
                StepperSize::Sm => "sm"@,
                StepperSize::Middle => "middle"@,
                StepperSize::Lg => "lg"@,
            }),
    {
        match self {
            StepperSize::Sm => "sm",
            StepperSize::Middle => "middle",
            StepperSize::Lg => "lg",
        }
    }
}

impl Default for StepperSize {
    fn default() -> (s: Self)
        ensures
            s == StepperSize::Sm,
    {
        StepperSize::Sm
    }
}

/// Unicode `White_Space`: the characters `char::is_whitespace` (and so
/// `str::trim`) treats as whitespace.
pub open spec fn is_white_space(c: char) -> bool {
    ||| ('\u{9}' <= c && c <= '\u{d}')
    ||| c == ' '
    ||| c == '\u{85}'
    ||| c == '\u{a0}'
    ||| c == '\u{1680}'
    ||| ('\u{2000}' <= c && c <= '\u{200a}')
    ||| c == '\u{2028}'
    ||| c == '\u{2029}'
    ||| c == '\u{202f}'
    ||| c == '\u{205f}'
    ||| c == '\u{3000}'
}

/// `r` is `s` with its leading and trailing whitespace removed: the part
/// from `a` to `b`, with only whitespace outside it and none at its ends.
pub open spec fn is_trim_of(r: Seq<char>, s: Seq<char>) -> bool {
    exists|a: int, b: int| {
        &&& 0 <= a <= b <= s.len()
        &&& r == s.subrange(a, b)
        &&& forall|i: int| 0 <= i < a ==> is_white_space(#[trigger] s[i])
        &&& forall|i: int| b <= i < s.len() ==> is_white_space(#[trigger] s[i])
        &&& (a < b ==> !is_white_space(s[a]) && !is_white_space(s[b - 1]))
    }
}

/// The value of a run of ASCII digits.
pub open spec fn digits_value(d: Seq<char>) -> int
    decreases d.len(),
{
    if d.len() == 0 {
        0
    } else {
        digits_value(d.drop_last()) * 10 + (d.last() as int - '0' as int)
    }
}

/// `i64::from_str`: an optional `+` or `-`, then one or more ASCII digits,
/// nothing else, and a value within `i64`.
pub open spec fn parse_i64_spec(s: Seq<char>) -> Option<i64> {
    let negative = s.len() > 0 && s[0] == '-';
    let digits = if s.len() > 0 && (s[0] == '-' || s[0] == '+') { s.drop_first() } else { s };
    if digits.len() == 0 || !(forall|i: int| 0 <= i < digits.len() ==> '0' <= #[trigger] digits[i] && digits[i] <= '9') {
        None
    } else {
        let v = if negative { -digits_value(digits) } else { digits_value(digits) };
        if i64::MIN <= v && v <= i64::MAX { Some(v as i64) } else { None }
    }
}

/// `str::trim`: the string without leading and trailing Unicode whitespace.
#[verifier::external_body]
pub(crate) fn trim(s: &str) -> (r: &str)
    ensures
        is_trim_of(r@, s@),
{
    s.trim()
}

/// `str::parse::<i64>`, `Ok` mapped to `Some`.
#[verifier::external_body]
pub(crate) fn parse_i64(s: &str) -> (r: Option<i64>)
    ensures
        r == parse_i64_spec(s@),
{
    s.parse::<i64>().ok()
}

/// `i64::saturating_add`.
pub open spec fn saturating(v: int) -> int {
    if v > i64::MAX { i64::MAX as int } else if v < i64::MIN { i64::MIN as int } else { v }
}

/// The number a press writes: the field's number (zero when its trimmed
/// text does not parse) moved by `by`, saturating, then kept within `min`
/// and `max`.
pub open spec fn nudge_spec(trimmed: Seq<char>, by: i64, min: Option<i64>, max: Option<i64>) -> int {
    let current: int = match parse_i64_spec(trimmed) {
        Some(v) => v as int,
        None => 0,
    };
    let moved = saturating(current + by);
    let floored = match min {
        Some(lo) => if moved < lo { lo as int } else { moved },
        None => moved,
    };
    match max {
        Some(hi) => if floored > hi { hi as int } else { floored },
        None => floored,
    }
}

/// The field's text after a press moving it by `by`.
pub fn nudge(text: &str, by: i64, min: Option<i64>, max: Option<i64>) -> (r: String)
    ensures
        exists|t: Seq<char>| is_trim_of(t, text@) && r@ == decimal_int(nudge_spec(t, by, min, max)),
{
    let trimmed = trim(text);
    let current: i64 = match parse_i64(trimmed) {
        Some(v) => v,
        None => 0,
    };
    let wide: i128 = current as i128 + by as i128;
    let mut next: i64 = if wide > i64::MAX as i128 {
        i64::MAX
    } else if wide < i64::MIN as i128 {
        i64::MIN
    } else {
        wide as i64
    };
    if let Some(lo) = min {
        if next < lo {
            next = lo;
        }
    }
    if let Some(hi) = max {
        if next > hi {
            next = hi;
        }
    }
    let mut s = String::new();
    push_decimal_i64(&mut s, next);
    proof {
        assert(is_trim_of(trimmed@, text@) && s@ == decimal_int(nudge_spec(trimmed@, by, min, max)));
    }
    s
}

/// A button's label: the caller's, or the step with its sign (`-1`, `+10`).
pub fn step_label(given: &str, step: i64, plus: bool) -> (r: String)
    ensures
        given@.len() > 0 ==> r@ == given@,
        given@.len() == 0 && plus ==> r@ == seq!['+'] + decimal_int(step as int),
        given@.len() == 0 && !plus ==> r@ == seq!['-'] + decimal_int(step as int),
{
    if !given.is_empty() {
        return String::from_str(given);
    }
    let mut s = String::new();
    if plus {
        s.append("+");
    } else {
        s.append("-");
    }
    proof {
        reveal_strlit("+");
        reveal_strlit("-");
    }
    push_decimal_i64(&mut s, step);
    s
}

/// The stepped value never leaves `min..=max` when the bounds are ordered.
pub proof fn law_nudge_respects_bounds(text: Seq<char>, by: i64, lo: i64, hi: i64)
    requires
        lo <= hi,
    ensures
        lo <= nudge_spec(text, by, Some(lo), Some(hi)) <= hi,
        i64::MIN <= nudge_spec(text, by, None, None) <= i64::MAX,
{
}


/// The base classes of the stepper's minus and plus buttons.
pub const BUTTON_BASE: &'static str = "border-input bg-muted text-muted-foreground hover:bg-accent hover:text-accent-foreground focus-visible:ring-ring/50 inline-flex shrink-0 items-center justify-center border transition-colors outline-none focus-visible:ring-[3px] disabled:pointer-events-none disabled:opacity-50 group-data-[size=sm]/stepper:size-8 group-data-[size=middle]/stepper:size-9 group-data-[size=lg]/stepper:size-10";

/// The classes of the stepper's number input.
pub const INPUT_BASE: &'static str = "border-input dark:bg-input/30 w-full min-w-0 border-y bg-transparent px-2 py-1 text-center text-base tabular-nums shadow-xs transition-[color,box-shadow] outline-none disabled:cursor-not-allowed disabled:opacity-50 md:text-sm focus-visible:border-ring focus-visible:ring-ring/50 focus-visible:ring-[3px] aria-invalid:ring-destructive/20 dark:aria-invalid:ring-destructive/40 aria-invalid:border-destructive group-data-[size=sm]/stepper:h-8 group-data-[size=middle]/stepper:h-9 group-data-[size=lg]/stepper:h-10 [appearance:textfield] [&::-webkit-inner-spin-button]:appearance-none [&::-webkit-outer-spin-button]:appearance-none";

} // verus!
