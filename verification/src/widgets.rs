//! Small components' variant classes and their press logic: badge, alert,
//! button group, empty state, spinner, separator, toggle, checkbox, radio
//! group, sheet, breadcrumb menu, inline code and the shake effect.

use vstd::prelude::*;
use crate::command::str_eq;
use crate::text::{cn, cn_spec, views};

verus! {

#[derive(Clone, Copy, Debug, PartialEq, Eq, Structural)]
pub enum BadgeVariant {
    Default,
    Secondary,
    Destructive,
    Outline,
}

pub open spec fn badge_variant_spec(v: BadgeVariant) -> Seq<char> {
    match v {
        BadgeVariant::Default => "border-transparent bg-primary text-primary-foreground [a&]:hover:bg-primary/90"@,
        BadgeVariant::Secondary => "border-transparent bg-secondary text-secondary-foreground [a&]:hover:bg-secondary/90"@,
        BadgeVariant::Destructive => "border-transparent bg-destructive text-white [a&]:hover:bg-destructive/90 focus-visible:ring-destructive/20 dark:focus-visible:ring-destructive/40 dark:bg-destructive/60"@,
        BadgeVariant::Outline => "text-foreground [a&]:hover:bg-accent [a&]:hover:text-accent-foreground"@,
    }
}

impl BadgeVariant {
    pub fn class(&self) -> (s: &'static str)
        ensures
            s@ == badge_variant_spec(*self),
    {
        match self {
            BadgeVariant::Default => "border-transparent bg-primary text-primary-foreground [a&]:hover:bg-primary/90",
            BadgeVariant::Secondary => "border-transparent bg-secondary text-secondary-foreground [a&]:hover:bg-secondary/90",
            BadgeVariant::Destructive => "border-transparent bg-destructive text-white [a&]:hover:bg-destructive/90 focus-visible:ring-destructive/20 dark:focus-visible:ring-destructive/40 dark:bg-destructive/60",
            BadgeVariant::Outline => "text-foreground [a&]:hover:bg-accent [a&]:hover:text-accent-foreground",
        }
    }
}

pub const BADGE_BASE: &'static str = "inline-flex items-center justify-center rounded-full border px-2 py-0.5 text-xs font-medium w-fit whitespace-nowrap shrink-0 [&>svg]:size-3 gap-1 [&>svg]:pointer-events-none focus-visible:border-ring focus-visible:ring-ring/50 focus-visible:ring-[3px] aria-invalid:ring-destructive/20 dark:aria-invalid:ring-destructive/40 aria-invalid:border-destructive transition-[color,box-shadow] overflow-hidden";

/// A badge's classes (also put on the child when the badge renders as it).
pub fn badge_class(variant: BadgeVariant, extra: &str) -> (r: String)
    ensures
        r@ == cn_spec(seq![BADGE_BASE@, badge_variant_spec(variant), extra@]),
{
    let parts = [BADGE_BASE, variant.class(), extra];
    let r = cn(&parts);
    proof {
        assert(views(parts@) =~= seq![BADGE_BASE@, badge_variant_spec(variant), extra@]);
    }
    r
}

#[derive(Clone, Copy, Debug, PartialEq, Eq, Structural)]
pub enum AlertVariant {
    Default,
    Destructive,
}

pub open spec fn alert_variant_spec(v: AlertVariant) -> Seq<char> {
    match v {
        AlertVariant::Default => "bg-card text-card-foreground"@,
        AlertVariant::Destructive => "text-destructive bg-card [&>svg]:text-current *:data-[slot=alert-description]:text-destructive/90"@,
    }
}

pub const ALERT_BASE: &'static str = "relative w-full rounded-lg border px-4 py-3 text-sm grid has-[>svg]:grid-cols-[calc(var(--spacing)*4)_1fr] grid-cols-[0_1fr] has-[>svg]:gap-x-3 gap-y-0.5 items-start [&>svg]:size-4 [&>svg]:translate-y-0.5 [&>svg]:text-current";

impl AlertVariant {
    pub fn class(&self) -> (s: &'static str)
        ensures
            s@ == alert_variant_spec(*self),
    {
        match self {
            AlertVariant::Default => "bg-card text-card-foreground",
            AlertVariant::Destructive => "text-destructive bg-card [&>svg]:text-current *:data-[slot=alert-description]:text-destructive/90",
        }
    }
}

/// An alert's classes.
pub fn alert_class(variant: AlertVariant, extra: &str) -> (r: String)
    ensures
        r@ == cn_spec(seq![ALERT_BASE@, alert_variant_spec(variant), extra@]),
{
    let parts = [ALERT_BASE, variant.class(), extra];
    let r = cn(&parts);
    proof {
        assert(views(parts@) =~= seq![ALERT_BASE@, alert_variant_spec(variant), extra@]);
    }
    r
}

#[derive(Clone, Copy, Debug, PartialEq, Eq, Structural)]
pub enum ButtonGroupOrientation {
    Horizontal,
    Vertical,
}

impl ButtonGroupOrientation {
    pub fn as_str(&self) -> (s: &'static str)
        ensures
            s@ == (match *self { ButtonGroupOrientation::Horizontal => "horizontal"@, ButtonGroupOrientation::Vertical => "vertical"@ }),
    {
        match self {
            ButtonGroupOrientation::Horizontal => "horizontal",
            ButtonGroupOrientation::Vertical => "vertical",
        }
    }

    /// Joins the buttons along the axis: inner corners square, shared borders dropped.
    pub fn class(&self) -> (s: &'static str)
        ensures
            s@ == (match *self {
                ButtonGroupOrientation::Horizontal => "[&>*:not(:first-child)]:rounded-l-none [&>*:not(:first-child)]:border-l-0 [&>*:not(:last-child)]:rounded-r-none"@,
                ButtonGroupOrientation::Vertical => "flex-col [&>*:not(:first-child)]:rounded-t-none [&>*:not(:first-child)]:border-t-0 [&>*:not(:last-child)]:rounded-b-none"@,
            }),
    {
        match self {
            ButtonGroupOrientation::Horizontal => "[&>*:not(:first-child)]:rounded-l-none [&>*:not(:first-child)]:border-l-0 [&>*:not(:last-child)]:rounded-r-none",
            ButtonGroupOrientation::Vertical => "flex-col [&>*:not(:first-child)]:rounded-t-none [&>*:not(:first-child)]:border-t-0 [&>*:not(:last-child)]:rounded-b-none",
        }
    }
}

#[derive(Clone, Copy, Debug, PartialEq, Eq, Structural)]
pub enum EmptyMediaVariant {
    Icon,
    Avatar,
}

impl EmptyMediaVariant {
    /// The `data-variant` value.
    pub fn as_str(&self) -> (s: &'static str)
        ensures
            s@ == (match *self { EmptyMediaVariant::Icon => "icon"@, EmptyMediaVariant::Avatar => "avatar"@ }),
    {
        match self {
            EmptyMediaVariant::Icon => "icon",
            EmptyMediaVariant::Avatar => "avatar",
        }
    }

    pub fn class(&self) -> (s: &'static str)
        ensures
            s@ == (match *self { EmptyMediaVariant::Icon => "text-muted-foreground"@, EmptyMediaVariant::Avatar => ""@ }),
    {
        match self {
            EmptyMediaVariant::Icon => "text-muted-foreground",
            EmptyMediaVariant::Avatar => "",
        }
    }
}

/// The media box of an empty state: an icon sits in a bordered circle.
pub fn empty_media_class(variant: EmptyMediaVariant, extra: &str) -> (r: String)
    ensures
        r@ == cn_spec(seq![
            match variant {
                EmptyMediaVariant::Icon => "flex size-16 items-center justify-center rounded-full border"@,
                EmptyMediaVariant::Avatar => "flex size-16 items-center justify-center"@,
            },
            match variant { EmptyMediaVariant::Icon => "text-muted-foreground"@, EmptyMediaVariant::Avatar => ""@ },
            extra@,
        ]),
{
    let base: &str = match variant {
        EmptyMediaVariant::Icon => "flex size-16 items-center justify-center rounded-full border",
        EmptyMediaVariant::Avatar => "flex size-16 items-center justify-center",
    };
    let parts = [base, variant.class(), extra];
    let r = cn(&parts);
    proof {
        assert(views(parts@) =~= seq![
            match variant {
                EmptyMediaVariant::Icon => "flex size-16 items-center justify-center rounded-full border"@,
                EmptyMediaVariant::Avatar => "flex size-16 items-center justify-center"@,
            },
            match variant { EmptyMediaVariant::Icon => "text-muted-foreground"@, EmptyMediaVariant::Avatar => ""@ },
            extra@,
        ]);
    }
    r
}

#[derive(Clone, Copy, Debug, PartialEq, Eq, Structural)]
pub enum SpinnerSize {
    Sm,
    Default,
    Lg,
}

impl SpinnerSize {
    pub fn class(&self) -> (s: &'static str)
        ensures
            s@ == (match *self {
                SpinnerSize::Sm => "h-4 w-4 border-2"@,
                SpinnerSize::Default => "h-8 w-8 border-2"@,
                SpinnerSize::Lg => "h-12 w-12 border-3"@,
            }),
    {
        match self {
            SpinnerSize::Sm => "h-4 w-4 border-2",
            SpinnerSize::Default => "h-8 w-8 border-2",
            SpinnerSize::Lg => "h-12 w-12 border-3",
        }
    }
}

#[derive(Clone, Copy, Debug, PartialEq, Eq, Structural)]
pub enum SeparatorOrientation {
    Horizontal,
    Vertical,
}

pub open spec fn orientation_name(o: SeparatorOrientation) -> Seq<char> {
    match o {
        SeparatorOrientation::Horizontal => "horizontal"@,
        SeparatorOrientation::Vertical => "vertical"@,
    }
}

impl SeparatorOrientation {
    pub fn as_str(&self) -> (s: &'static str)
        ensures
            s@ == orientation_name(*self),
    {
        match self {
            SeparatorOrientation::Horizontal => "horizontal",
            SeparatorOrientation::Vertical => "vertical",
        }
    }
}

/// A separator's `role` and `aria-orientation`: a decorative one is hidden
/// from assistive technology and has neither.
pub fn separator_aria(orientation: SeparatorOrientation, decorative: bool) -> (r: (Option<&'static str>, Option<&'static str>))
    ensures
        decorative ==> r.0 is None && r.1 is None,
        !decorative ==> (r.0 matches Some(role) && role@ == "separator"@)
            && (r.1 matches Some(o) && o@ == orientation_name(orientation)),
{
    if decorative {
        (None, None)
    } else {
        (Some("separator"), Some(orientation.as_str()))
    }
}

#[derive(Clone, Copy, Debug, PartialEq, Eq, Structural)]
pub enum ToggleVariant {
    Default,
    Outline,
}

#[derive(Clone, Copy, Debug, PartialEq, Eq, Structural)]
pub enum ToggleSize {
    Default,
    Sm,
    Lg,
}

impl ToggleVariant {
    pub fn class(&self) -> (s: &'static str)
        ensures
            s@ == (match *self {
                ToggleVariant::Default => "bg-transparent"@,
                ToggleVariant::Outline => "border border-input bg-transparent hover:bg-accent hover:text-accent-foreground"@,
            }),
    {
        match self {
            ToggleVariant::Default => "bg-transparent",
            ToggleVariant::Outline => "border border-input bg-transparent hover:bg-accent hover:text-accent-foreground",
        }
    }
}

impl ToggleSize {
    pub fn class(&self) -> (s: &'static str)
        ensures
            s@ == (match *self {
                ToggleSize::Default => "h-10 px-3"@,
                ToggleSize::Sm => "h-9 px-2.5"@,
                ToggleSize::Lg => "h-11 px-5"@,
            }),
    {
        match self {
            ToggleSize::Default => "h-10 px-3",
            ToggleSize::Sm => "h-9 px-2.5",
            ToggleSize::Lg => "h-11 px-5",
        }
    }
}

/// Whether a key activates a button-like control (Space or Enter).
pub fn activation_key(key: &str) -> (b: bool)
    ensures
        b == (key@ == " "@ || key@ == "Enter"@),
{
    str_eq(key, " ") || str_eq(key, "Enter")
}

/// A press on a toggle or checkbox flips it, unless it is disabled; the new
/// value is what the change callback receives.
pub fn press(value: &mut bool, disabled: bool) -> (changed: Option<bool>)
    ensures
        disabled ==> changed is None && *final(value) == *old(value),
        !disabled ==> changed == Some(!*old(value)) && *final(value) == !*old(value),
{
    if disabled {
        return None;
    }
    *value = !*value;
    Some(*value)
}

/// A radio item is disabled when it or its whole group is.
pub fn radio_disabled(item_disabled: bool, group_disabled: bool) -> (b: bool)
    ensures
        b == (item_disabled || group_disabled),
{
    item_disabled || group_disabled
}

/// A press on a radio item makes it the group's value, unless it is
/// disabled. `true` when the change callback runs.
pub fn radio_press(group_value: &mut String, value: &str, disabled: bool) -> (changed: bool)
    ensures
        changed == !disabled,
        disabled ==> final(group_value)@ == old(group_value)@,
        !disabled ==> final(group_value)@ == value@,
{
    if disabled {
        return false;
    }
    *group_value = String::from_str(value);
    true
}

/// The `data-state` of a check control.
pub fn check_state(checked: bool) -> (s: &'static str)
    ensures
        s@ == (if checked { "checked"@ } else { "unchecked"@ }),
{
    if checked { "checked" } else { "unchecked" }
}

/// The side a sheet slides out from.
#[derive(Clone, Copy, Debug, PartialEq, Eq, Structural)]
pub enum SheetSide {
    Top,
    Right,
    Bottom,
    Left,
}

pub open spec fn sheet_side_spec(side: SheetSide) -> Seq<char> {
    match side {
        SheetSide::Top => "inset-x-0 top-0 border-b data-[state=closed]:slide-out-to-top data-[state=open]:slide-in-from-top"@,
        SheetSide::Bottom => "inset-x-0 bottom-0 border-t data-[state=closed]:slide-out-to-bottom data-[state=open]:slide-in-from-bottom"@,
        SheetSide::Left => "inset-y-0 left-0 h-full w-3/4 border-r sm:max-w-sm data-[state=closed]:slide-out-to-left data-[state=open]:slide-in-from-left"@,
        SheetSide::Right => "inset-y-0 right-0 h-full w-3/4 border-l sm:max-w-sm data-[state=closed]:slide-out-to-right data-[state=open]:slide-in-from-right"@,
    }
}

impl SheetSide {
    pub fn as_str(&self) -> (s: &'static str)
        ensures
            s@ == (match *self {
                SheetSide::Top => "top"@,
                SheetSide::Right => "right"@,
                SheetSide::Bottom => "bottom"@,
                SheetSide::Left => "left"@,
            }),
    {
        match self {
            SheetSide::Top => "top",
            SheetSide::Right => "right",
            SheetSide::Bottom => "bottom",
            SheetSide::Left => "left",
        }
    }

    /// Where the sheet is pinned and the edge it slides along.
    pub fn class(&self) -> (s: &'static str)
        ensures
            s@ == sheet_side_spec(*self),
    {
        match self {
            SheetSide::Top => "inset-x-0 top-0 border-b data-[state=closed]:slide-out-to-top data-[state=open]:slide-in-from-top",
            SheetSide::Bottom => "inset-x-0 bottom-0 border-t data-[state=closed]:slide-out-to-bottom data-[state=open]:slide-in-from-bottom",
            SheetSide::Left => "inset-y-0 left-0 h-full w-3/4 border-r sm:max-w-sm data-[state=closed]:slide-out-to-left data-[state=open]:slide-in-from-left",
            SheetSide::Right => "inset-y-0 right-0 h-full w-3/4 border-l sm:max-w-sm data-[state=closed]:slide-out-to-right data-[state=open]:slide-in-from-right",
        }
    }
}

/// A sheet's open state and the change to report: the trigger opens it;
/// the close button, the overlay and Escape close it.
#[derive(Clone, Copy, Debug, PartialEq, Eq, Structural)]
pub enum SheetEvent {
    Trigger,
    Close,
    Overlay,
    Escape,
}

/// The sheet's state after an event, which is also the value passed to the
/// open-change callback.
pub fn sheet_after(event: SheetEvent) -> (open: bool)
    ensures
        open == (event == SheetEvent::Trigger),
{
    match event {
        SheetEvent::Trigger => true,
        _ => false,
    }
}

/// Whether a key closes an open sheet.
pub fn sheet_key_closes(open: bool, key: &str) -> (b: bool)
    ensures
        b == (open && key@ == "Escape"@),
{
    open && str_eq(key, "Escape")
}

/// A collapsed breadcrumb group's label: an ellipsis unless one is given.
pub fn breadcrumb_menu_label(label: &str) -> (s: String)
    ensures
        s@ == (if label@.len() == 0 { "…"@ } else { label@ }),
{
    if label.is_empty() { String::from_str("…") } else { String::from_str(label) }
}

/// Splitting text on backticks, one character at a time: the segments so
/// far (each with whether it is code), the segment being read, and whether
/// it is code.
pub open spec fn rich_state(s: Seq<char>) -> (Seq<(Seq<char>, bool)>, Seq<char>, bool)
    decreases s.len(),
{
    if s.len() == 0 {
        (Seq::empty(), Seq::empty(), false)
    } else {
        let (out, cur, code) = rich_state(s.drop_last());
        if s.last() == '`' {
            (if cur.len() > 0 { out.push((cur, code)) } else { out }, Seq::empty(), !code)
        } else {
            (out, cur.push(s.last()), code)
        }
    }
}

/// The non-empty pieces between backticks, alternately plain text and
/// inline code (the text before the first backtick is plain).
pub open spec fn rich_spec(s: Seq<char>) -> Seq<(Seq<char>, bool)> {
    let (out, cur, code) = rich_state(s);
    if cur.len() > 0 { out.push((cur, code)) } else { out }
}

pub open spec fn rich_view(v: Seq<(String, bool)>) -> Seq<(Seq<char>, bool)> {
    v.map_values(|p: (String, bool)| (p.0@, p.1))
}

/// Text with `` `code` `` spans split into plain and code pieces.
pub fn rich(input: &str) -> (segments: Vec<(String, bool)>)
    ensures
        rich_view(segments@) == rich_spec(input@),
{
    let n = input.unicode_len();
    let mut out: Vec<(String, bool)> = Vec::new();
    let mut cur = String::new();
    let mut code = false;
    let mut i: usize = 0;
    proof {
        assert(input@.take(0) =~= Seq::<char>::empty());
        assert(rich_view(out@) =~= Seq::<(Seq<char>, bool)>::empty());
    }
    while i < n
        invariant
            n == input@.len(),
            i <= n,
            (rich_view(out@), cur@, code) == rich_state(input@.take(i as int)),
        decreases n - i,
    {
        let c = input.get_char(i);
        proof {
            assert(input@.take(i + 1).drop_last() =~= input@.take(i as int));
            assert(input@.take(i + 1).last() == c);
        }
        if c == '`' {
            if !cur.as_str().is_empty() {
                let ghost before = out@;
                let piece = String::from_str(cur.as_str());
                out.push((piece, code));
                proof {
                    assert(rich_view(out@) =~= rich_view(before).push((cur@, code)));
                }
            }
            cur = String::new();
            code = !code;
        } else {
            crate::text::push_char(&mut cur, c);
        }
        i = i + 1;
    }
    proof {
        assert(input@.take(n as int) =~= input@);
    }
    if !cur.as_str().is_empty() {
        let ghost before = out@;
        out.push((cur, code));
        proof {
            assert(rich_view(out@) =~= rich_view(before).push((rich_state(input@).1, code)));
        }
    }
    out
}

pub open spec fn flatten(v: Seq<(Seq<char>, bool)>) -> Seq<char>
    decreases v.len(),
{
    if v.len() == 0 { Seq::empty() } else { flatten(v.drop_last()) + v.last().0 }
}

pub open spec fn without_ticks(s: Seq<char>) -> Seq<char>
    decreases s.len(),
{
    if s.len() == 0 {
        s
    } else if s.last() == '`' {
        without_ticks(s.drop_last())
    } else {
        without_ticks(s.drop_last()).push(s.last())
    }
}

proof fn lemma_flatten_push(v: Seq<(Seq<char>, bool)>, x: (Seq<char>, bool))
    ensures
        flatten(v.push(x)) == flatten(v) + x.0,
{
    assert(v.push(x).drop_last() =~= v);
}

proof fn lemma_rich_state_text(s: Seq<char>)
    ensures
        flatten(rich_state(s).0) + rich_state(s).1 == without_ticks(s),
    decreases s.len(),
{
    if s.len() > 0 {
        lemma_rich_state_text(s.drop_last());
        let (out, cur, code) = rich_state(s.drop_last());
        if s.last() == '`' {
            if cur.len() > 0 {
                lemma_flatten_push(out, (cur, code));
            }
            assert(flatten(rich_state(s).0) + rich_state(s).1 =~= without_ticks(s));
        } else {
            assert(flatten(rich_state(s).0) + rich_state(s).1 =~= without_ticks(s));
        }
    }
}

/// Splitting loses nothing but the backticks: the pieces put back together
/// are the text without them, and no piece is empty.
pub proof fn law_rich_keeps_the_text(s: Seq<char>)
    ensures
        flatten(rich_spec(s)) == without_ticks(s),
{
    lemma_rich_state_text(s);
    let (out, cur, code) = rich_state(s);
    if cur.len() > 0 {
        lemma_flatten_push(out, (cur, code));
    } else {
        assert(flatten(out) + cur =~= flatten(out));
    }
}

pub const RAW_INLINE_BASE: &'static str = "rounded bg-muted/70 px-1.5 py-0.5 font-mono text-[0.85em] text-foreground/90 border border-border/40";

/// How long the copy button of a code block says it copied, in milliseconds.
pub const COPIED_RESET_MS: u64 = 1500;

/// The copy button's label.
pub fn copy_label(copied: bool) -> (s: &'static str)
    ensures
        s@ == (if copied { "Скопировано"@ } else { "Копировать"@ }),
{
    if copied { "Скопировано" } else { "Копировать" }
}

/// A value whose change can set off the shake animation.
pub trait ShakeTrigger {
    spec fn is_active(&self) -> bool;

    /// Whether this value calls for a shake.
    fn shake_active(&self) -> (b: bool)
        ensures
            b == self.is_active();
}

impl ShakeTrigger for bool {
    open spec fn is_active(&self) -> bool {
        *self
    }

    fn shake_active(&self) -> (b: bool) {
        *self
    }
}

impl ShakeTrigger for String {
    open spec fn is_active(&self) -> bool {
        self@.len() > 0
    }

    fn shake_active(&self) -> (b: bool) {
        !self.as_str().is_empty()
    }
}

impl ShakeTrigger for u64 {
    open spec fn is_active(&self) -> bool {
        *self != 0
    }

    fn shake_active(&self) -> (b: bool) {
        *self != 0
    }
}

impl ShakeTrigger for usize {
    open spec fn is_active(&self) -> bool {
        *self != 0
    }

    fn shake_active(&self) -> (b: bool) {
        *self != 0
    }
}

impl<T> ShakeTrigger for Option<T> {
    open spec fn is_active(&self) -> bool {
        self is Some
    }

    fn shake_active(&self) -> (b: bool) {
        self.is_some()
    }
}

/// The effect's decision: shake when the value changed to an active one.
pub fn should_shake<T: ShakeTrigger>(changed: bool, current: &T) -> (b: bool)
    ensures
        b == (changed && current.is_active()),
{
    changed && current.shake_active()
}

/// The keyframes and class of the shake animation (none under reduced motion).
pub const SHAKE_STYLES: &'static str = "
@keyframes shake-error {
  0% { transform: perspective(700px) translate3d(0, 0, 0) rotateY(0deg); }
  12% { transform: perspective(700px) translate3d(-7px, 0, 0) rotateY(-5deg); }
  26% { transform: perspective(700px) translate3d(6px, 0, 0) rotateY(4deg); }
  41% { transform: perspective(700px) translate3d(-5px, 0, 0) rotateY(-3deg); }
  56% { transform: perspective(700px) translate3d(4px, 0, 0) rotateY(2deg); }
  70% { transform: perspective(700px) translate3d(-2px, 0, 0) rotateY(-1deg); }
  84% { transform: perspective(700px) translate3d(1px, 0, 0) rotateY(0.5deg); }
  100% { transform: perspective(700px) translate3d(0, 0, 0) rotateY(0deg); }
}
.shake-error {
  animation: shake-error 0.5s cubic-bezier(0.36, 0.07, 0.19, 0.97) both;
  transform-style: preserve-3d;
  backface-visibility: hidden;
}
@media (prefers-reduced-motion: reduce) {
  .shake-error { animation: none; }
}
";

} // verus!
