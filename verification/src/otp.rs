//! One-time-password entry: keeping the value to ASCII digits, where the
//! caret belongs, and how each digit box is painted.

use vstd::prelude::*;
use crate::text::{cn, cn_spec, views, push_char};

verus! {

/// An ASCII digit (not `char::is_numeric`, which accepts other scripts).
pub open spec fn is_ascii_digit(c: char) -> bool {
    '0' <= c && c <= '9'
}

/// The ASCII digits of `s`, in order.
pub open spec fn ascii_digits(s: Seq<char>) -> Seq<char>
    decreases s.len(),
{
    if s.len() == 0 {
        Seq::empty()
    } else {
        let prev = ascii_digits(s.drop_last());
        if is_ascii_digit(s.last()) { prev.push(s.last()) } else { prev }
    }
}

/// At most the first `n` elements.
pub open spec fn take_at_most<A>(s: Seq<A>, n: nat) -> Seq<A> {
    if s.len() <= n { s } else { s.take(n as int) }
}

/// The field's value after typing `raw`: its ASCII digits, at most `length`.
pub open spec fn sanitize_spec(raw: Seq<char>, length: nat) -> Seq<char> {
    take_at_most(ascii_digits(raw), length)
}

proof fn lemma_digits_len(s: Seq<char>)
    ensures
        ascii_digits(s).len() <= s.len(),
    decreases s.len(),
{
    if s.len() > 0 {
        lemma_digits_len(s.drop_last());
    }
}

/// Keeps the first `length` ASCII digits of `raw`.
pub fn sanitize(raw: &str, length: usize) -> (out: String)
    ensures
        out@ == sanitize_spec(raw@, length as nat),
{
    let n = raw.unicode_len();
    let mut out = String::new();
    let mut count: usize = 0;
    let mut i: usize = 0;
    proof {
        assert(raw@.take(0) =~= Seq::<char>::empty());
    }
    while i < n
        invariant
            n == raw@.len(),
            i <= n,
            out@ == take_at_most(ascii_digits(raw@.take(i as int)), length as nat),
            count == out@.len(),
            count <= length,
        decreases n - i,
    {
        let c = raw.get_char(i);
        proof {
            assert(raw@.take(i + 1).drop_last() =~= raw@.take(i as int));
            assert(raw@.take(i + 1).last() == c);
        }
        if '0' <= c && c <= '9' && count < length {
            push_char(&mut out, c);
            count = count + 1;
        }
        i = i + 1;
    }
    proof {
        assert(raw@.take(n as int) =~= raw@);
    }
    out
}

/// The box the caret sits in: after the last digit, never past the last box.
pub fn active_index(value_len: usize, length: usize) -> (i: usize)
    ensures
        i == (if length == 0 { 0 } else if value_len < length - 1 { value_len as int } else { length - 1 }),
{
    let last = if length == 0 { 0 } else { length - 1 };
    if value_len < last { value_len } else { last }
}

/// Whether the caret must be moved back to the end of the code: a select-all
/// is left alone, and so is a caret already at the end.
pub fn caret_needs_pin(start: u32, end: u32, len: u32) -> (b: bool)
    ensures
        b == (!(start == 0 && end == len && len > 0) && (start != len || end != len)),
{
    if start == 0 && end == len && len > 0 {
        return false;
    }
    start != len || end != len
}

/// What an `input` event does to the field.
#[derive(Clone, Debug)]
pub struct OtpInput {
    /// The value the field holds afterwards.
    pub value: String,
    /// The DOM still shows a rejected character and must be rewritten.
    pub rewrite_field: bool,
    /// The value changed: `on_change` fires.
    pub changed: bool,
    /// The change completed the code: `on_complete` fires.
    pub complete: bool,
}

fn same_text(a: &str, b: &str) -> (r: bool)
    ensures
        r == (a@ == b@),
{
    crate::command::str_eq(a, b)
}

/// The outcome of typing `raw` into a field that held `previous`.
pub fn on_input(raw: &str, previous: &str, length: usize) -> (r: OtpInput)
    ensures
        r.value@ == sanitize_spec(raw@, length as nat),
        r.rewrite_field == (r.value@ != raw@),
        r.changed == (r.value@ != previous@),
        r.complete == (r.changed && r.value@.len() == length),
{
    let next = sanitize(raw, length);
    let rewrite_field = !same_text(next.as_str(), raw);
    let changed = !same_text(next.as_str(), previous);
    let complete = changed && next.as_str().unicode_len() == length;
    OtpInput { value: next, rewrite_field, changed, complete }
}

/// The groups of boxes: split at `separator_at` when it falls strictly
/// inside the code, one group otherwise.
pub fn slot_groups(length: usize, separator_at: Option<usize>) -> (g: Vec<(usize, usize)>)
    ensures
        match separator_at {
            Some(at) if 0 < at < length => g@ == seq![(0usize, at), (at, length)],
            _ => g@ == seq![(0usize, length)],
        },
{
    let mut g: Vec<(usize, usize)> = Vec::new();
    match separator_at {
        Some(at) if 0 < at && at < length => {
            g.push((0, at));
            g.push((at, length));
        },
        _ => {
            g.push((0, length));
        },
    }
    proof {
        match separator_at {
            Some(at) if 0 < at < length => assert(g@ =~= seq![(0usize, at), (at, length)]),
            _ => assert(g@ =~= seq![(0usize, length)]),
        }
    }
    g
}

/// The classes of one digit box.
pub open spec fn slot_class_spec(index: nat, first: nat, last: nat, active: bool, extra: Seq<char>) -> Seq<char> {
    cn_spec(seq![
        "relative flex h-9 w-9 items-center justify-center border-y border-r border-input bg-transparent text-sm shadow-xs transition-all"@,
        if index == first { "rounded-l-md border-l"@ } else { ""@ },
        if index == last { "rounded-r-md"@ } else { ""@ },
        if active { "z-10 border-ring ring-[3px] ring-ring/50"@ } else { ""@ },
        extra,
    ])
}

/// The classes of box `index` in a group running `first..=last`; `active`
/// when the field has the focus and the caret sits in this box.
pub fn slot_class(index: usize, first: usize, last: usize, active: bool, extra: &str) -> (r: String)
    ensures
        r@ == slot_class_spec(index as nat, first as nat, last as nat, active, extra@),
{
    let a: &str = if index == first { "rounded-l-md border-l" } else { "" };
    let b: &str = if index == last { "rounded-r-md" } else { "" };
    let c: &str = if active { "z-10 border-ring ring-[3px] ring-ring/50" } else { "" };
    let parts = [
        "relative flex h-9 w-9 items-center justify-center border-y border-r border-input bg-transparent text-sm shadow-xs transition-all",
        a,
        b,
        c,
        extra,
    ];
    let r = cn(&parts);
    proof {
        assert(views(parts@) =~= seq![
            "relative flex h-9 w-9 items-center justify-center border-y border-r border-input bg-transparent text-sm shadow-xs transition-all"@,
            a@, b@, c@, extra@,
        ]);
    }
    r
}

/// The field never holds more than `length` characters, all of them ASCII
/// digits, and a value that is already clean is kept as it is.
pub proof fn law_sanitized_is_clean(raw: Seq<char>, length: nat)
    ensures
        sanitize_spec(raw, length).len() <= length,
        forall|i: int| 0 <= i < sanitize_spec(raw, length).len() ==> is_ascii_digit(#[trigger] sanitize_spec(raw, length)[i]),
        (raw.len() <= length && forall|i: int| 0 <= i < raw.len() ==> is_ascii_digit(#[trigger] raw[i]))
            ==> sanitize_spec(raw, length) == raw,
    decreases raw.len(),
{
    lemma_digits_are_digits(raw);
    lemma_clean_is_fixed(raw);
}

proof fn lemma_digits_are_digits(s: Seq<char>)
    ensures
        forall|i: int| 0 <= i < ascii_digits(s).len() ==> is_ascii_digit(#[trigger] ascii_digits(s)[i]),
    decreases s.len(),
{
    if s.len() > 0 {
        let prev = ascii_digits(s.drop_last());
        lemma_digits_are_digits(s.drop_last());
        if is_ascii_digit(s.last()) {
            assert forall|i: int| 0 <= i < prev.push(s.last()).len() implies is_ascii_digit(
                #[trigger] prev.push(s.last())[i],
            ) by {
                if i < prev.len() {
                    assert(prev.push(s.last())[i] == prev[i]);
                }
            }
        }
    }
}

proof fn lemma_clean_is_fixed(s: Seq<char>)
    ensures
        (forall|i: int| 0 <= i < s.len() ==> is_ascii_digit(#[trigger] s[i])) ==> ascii_digits(s) == s,
    decreases s.len(),
{
    if s.len() > 0 {
        lemma_clean_is_fixed(s.drop_last());
        if forall|i: int| 0 <= i < s.len() ==> is_ascii_digit(#[trigger] s[i]) {
            assert forall|i: int| 0 <= i < s.drop_last().len() implies is_ascii_digit(#[trigger] s.drop_last()[i]) by {
                assert(s.drop_last()[i] == s[i]);
            }
            assert(is_ascii_digit(s[s.len() - 1]));
            assert(s.drop_last().push(s.last()) =~= s);
        }
    }
}


/// The classes of the transparent input laid over the digit boxes.
pub const INPUT_BASE: &'static str = "absolute inset-0 z-20 h-full w-full border-0 bg-transparent p-0 text-base text-transparent caret-transparent outline-none selection:bg-transparent selection:text-transparent";

} // verus!
