//! Popovers, menus and the select box: the side and alignment of an overlay
//! and the animation it slides in with, closing on an outside click, the
//! select box's open/selected state and its scroll buttons, menu items, and
//! the hover-driven submenu.

use vstd::prelude::*;
use crate::command::str_eq;
use crate::text::{cn, cn_spec, views};

verus! {

/// The side of its trigger an overlay shows at.
#[derive(Clone, Copy, Debug, PartialEq, Eq, Structural)]
pub enum OverlaySide {
    Top,
    Right,
    Bottom,
    Left,
}

/// How an overlay lines up with its trigger along that side.
#[derive(Clone, Copy, Debug, PartialEq, Eq, Structural)]
pub enum OverlayAlign {
    Start,
    Center,
    End,
}

pub open spec fn side_name_spec(side: OverlaySide) -> Seq<char> {
    match side {
        OverlaySide::Top => "top"@,
        OverlaySide::Right => "right"@,
        OverlaySide::Bottom => "bottom"@,
        OverlaySide::Left => "left"@,
    }
}

/// The `data-side` value.
pub fn side_name(side: OverlaySide) -> (s: &'static str)
    ensures
        s@ == side_name_spec(side),
{
    match side {
        OverlaySide::Top => "top",
        OverlaySide::Right => "right",
        OverlaySide::Bottom => "bottom",
        OverlaySide::Left => "left",
    }
}

/// The opposite side: an overlay shown below its trigger slides in from the top.
pub open spec fn opposite(side: OverlaySide) -> OverlaySide {
    match side {
        OverlaySide::Top => OverlaySide::Bottom,
        OverlaySide::Right => OverlaySide::Left,
        OverlaySide::Bottom => OverlaySide::Top,
        OverlaySide::Left => OverlaySide::Right,
    }
}

pub open spec fn slide_in_spec(side: OverlaySide) -> Seq<char> {
    "data-[state=open]:slide-in-from-"@ + side_name_spec(opposite(side)) + "-2"@
}

pub open spec fn slide_spec(side: OverlaySide) -> Seq<char> {
    slide_in_spec(side) + " data-[state=closed]:slide-out-to-"@ + side_name_spec(opposite(side)) + "-2"@
}

/// The opening animation: sliding in from the side facing the trigger.
pub fn slide_in_class(side: OverlaySide) -> (s: &'static str)
    ensures
        s@ == slide_in_spec(side),
{
    proof {
        reveal_strlit("data-[state=open]:slide-in-from-");
        reveal_strlit("-2");
        reveal_strlit("top");
        reveal_strlit("right");
        reveal_strlit("bottom");
        reveal_strlit("left");
        reveal_strlit("data-[state=open]:slide-in-from-bottom-2");
        reveal_strlit("data-[state=open]:slide-in-from-left-2");
        reveal_strlit("data-[state=open]:slide-in-from-top-2");
        reveal_strlit("data-[state=open]:slide-in-from-right-2");
    }
    let s = match side {
        OverlaySide::Top => "data-[state=open]:slide-in-from-bottom-2",
        OverlaySide::Right => "data-[state=open]:slide-in-from-left-2",
        OverlaySide::Bottom => "data-[state=open]:slide-in-from-top-2",
        OverlaySide::Left => "data-[state=open]:slide-in-from-right-2",
    };
    proof {
        assert(s@ =~= slide_in_spec(side));
    }
    s
}

/// The opening and closing animations: in from, and back out to, the side
/// facing the trigger.
pub fn slide_class(side: OverlaySide) -> (s: &'static str)
    ensures
        s@ == slide_spec(side),
{
    proof {
        reveal_strlit("data-[state=open]:slide-in-from-");
        reveal_strlit(" data-[state=closed]:slide-out-to-");
        reveal_strlit("-2");
        reveal_strlit("top");
        reveal_strlit("right");
        reveal_strlit("bottom");
        reveal_strlit("left");
        reveal_strlit("data-[state=open]:slide-in-from-bottom-2 data-[state=closed]:slide-out-to-bottom-2");
        reveal_strlit("data-[state=open]:slide-in-from-left-2 data-[state=closed]:slide-out-to-left-2");
        reveal_strlit("data-[state=open]:slide-in-from-top-2 data-[state=closed]:slide-out-to-top-2");
        reveal_strlit("data-[state=open]:slide-in-from-right-2 data-[state=closed]:slide-out-to-right-2");
    }
    let s = match side {
        OverlaySide::Top => "data-[state=open]:slide-in-from-bottom-2 data-[state=closed]:slide-out-to-bottom-2",
        OverlaySide::Right => "data-[state=open]:slide-in-from-left-2 data-[state=closed]:slide-out-to-left-2",
        OverlaySide::Bottom => "data-[state=open]:slide-in-from-top-2 data-[state=closed]:slide-out-to-top-2",
        OverlaySide::Left => "data-[state=open]:slide-in-from-right-2 data-[state=closed]:slide-out-to-right-2",
    };
    proof {
        assert(s@ =~= slide_spec(side));
    }
    s
}

/// The `data-state` of something that opens.
pub fn open_state(open: bool) -> (s: &'static str)
    ensures
        s@ == (if open { "open"@ } else { "closed"@ }),
{
    if open { "open" } else { "closed" }
}

/// Whether a click closes an open overlay: it must land outside the
/// content and, for an overlay with a trigger, outside the trigger too.
/// `None` stands for an element that could not be resolved (no target,
/// content or trigger mounted), which closes nothing.
pub fn outside_click_closes(open: bool, in_content: Option<bool>, in_trigger: Option<bool>) -> (close: bool)
    ensures
        close == (open && in_content == Some(false) && in_trigger == Some(false)),
{
    open && matches!(in_content, Some(false)) && matches!(in_trigger, Some(false))
}

/// How the select box's list is placed.
#[derive(Clone, Copy, Debug, PartialEq, Eq, Structural)]
pub enum SelectContentPosition {
    /// Over the trigger, at the selected item.
    ItemAligned,
    /// Beside the trigger, at least as wide as it.
    Popper,
}

/// Height of the select box's trigger.
#[derive(Clone, Copy, Debug, PartialEq, Eq, Structural)]
pub enum SelectTriggerSize {
    Sm,
    Default,
}

impl SelectTriggerSize {
    /// The `data-size` value.
    pub fn as_str(&self) -> (s: &'static str)
        ensures
            s@ == (match *self { SelectTriggerSize::Sm => "sm"@, SelectTriggerSize::Default => "default"@ }),
    {
        match self {
            SelectTriggerSize::Sm => "sm",
            SelectTriggerSize::Default => "default",
        }
    }
}

/// The select box: whether its list is open, the selected value and the
/// label shown for it.
pub struct SelectState {
    pub open: bool,
    pub selected: String,
    pub label: String,
}

/// A key pressed on the select box's trigger.
#[derive(Clone, Copy, Debug, PartialEq, Eq, Structural)]
pub enum TriggerKey {
    /// Space, Enter, ArrowDown or ArrowUp: open the list.
    Open,
    /// Escape: close it.
    Close,
}

pub open spec fn trigger_key_spec(key: Seq<char>) -> Option<TriggerKey> {
    if key == " "@ || key == "Enter"@ || key == "ArrowDown"@ || key == "ArrowUp"@ {
        Some(TriggerKey::Open)
    } else if key == "Escape"@ {
        Some(TriggerKey::Close)
    } else {
        None
    }
}

/// What a key on the trigger asks for (its default is then prevented).
pub fn trigger_key(key: &str) -> (k: Option<TriggerKey>)
    ensures
        k == trigger_key_spec(key@),
{
    if str_eq(key, " ") || str_eq(key, "Enter") || str_eq(key, "ArrowDown") || str_eq(key, "ArrowUp") {
        Some(TriggerKey::Open)
    } else if str_eq(key, "Escape") {
        Some(TriggerKey::Close)
    } else {
        None
    }
}

/// Whether Space or Enter was pressed on an item.
pub fn item_key_selects(key: &str) -> (b: bool)
    ensures
        b == (key@ == "Enter"@ || key@ == " "@),
{
    str_eq(key, "Enter") || str_eq(key, " ")
}

impl SelectState {
    /// Closed, with `default_value` selected and no label yet.
    pub fn new(default_value: &str) -> (s: Self)
        ensures
            !s.open,
            s.selected@ == default_value@,
            s.label@ == Seq::<char>::empty(),
    {
        SelectState { open: false, selected: String::from_str(default_value), label: String::new() }
    }

    /// A click on the trigger toggles the list, unless it is disabled.
    pub fn trigger_clicked(&mut self, disabled: bool)
        ensures
            final(self).open == (if disabled { old(self).open } else { !old(self).open }),
            final(self).selected@ == old(self).selected@,
            final(self).label@ == old(self).label@,
    {
        if !disabled {
            self.open = !self.open;
        }
    }

    /// A key on the trigger: opening keys open the list, Escape closes it;
    /// a disabled trigger ignores keys. `true` when the key was handled
    /// (and its default is to be prevented).
    pub fn trigger_key_pressed(&mut self, key: &str, disabled: bool) -> (handled: bool)
        ensures
            handled == (!disabled && trigger_key_spec(key@) is Some),
            final(self).open == (if disabled { old(self).open } else {
                match trigger_key_spec(key@) {
                    Some(TriggerKey::Open) => true,
                    Some(TriggerKey::Close) => false,
                    None => old(self).open,
                }
            }),
            final(self).selected@ == old(self).selected@,
            final(self).label@ == old(self).label@,
    {
        if disabled {
            return false;
        }
        match trigger_key(key) {
            Some(TriggerKey::Open) => {
                self.open = true;
                true
            },
            Some(TriggerKey::Close) => {
                self.open = false;
                true
            },
            None => false,
        }
    }

    /// An item was chosen (clicked, or Space / Enter on it): unless it is
    /// disabled it becomes the value and the list closes. `true` when the
    /// value-change callback is to run with `value`.
    pub fn pick(&mut self, value: &str, disabled: bool) -> (changed: bool)
        ensures
            changed == !disabled,
            disabled ==> final(self).open == old(self).open && final(self).selected@ == old(self).selected@,
            !disabled ==> !final(self).open && final(self).selected@ == value@,
            final(self).label@ == old(self).label@,
    {
        if disabled {
            return false;
        }
        self.selected = String::from_str(value);
        self.open = false;
        true
    }

    /// The selected item rendered: its text becomes the shown label.
    pub fn item_rendered(&mut self, value: &str, text: &str)
        ensures
            final(self).open == old(self).open,
            final(self).selected@ == old(self).selected@,
            final(self).label@ == (if old(self).selected@ == value@ { text@ } else { old(self).label@ }),
    {
        if str_eq(self.selected.as_str(), value) {
            self.label = String::from_str(text);
        }
    }

    /// What the trigger shows: the label, or the placeholder when there is none.
    pub fn shown(&self, placeholder: &str) -> (s: String)
        ensures
            s@ == (if self.label@.len() == 0 { placeholder@ } else { self.label@ }),
    {
        if self.label.as_str().is_empty() {
            String::from_str(placeholder)
        } else {
            String::from_str(self.label.as_str())
        }
    }

    /// Whether `value` is the selected one.
    pub fn is_selected(&self, value: &str) -> (b: bool)
        ensures
            b == (self.selected@ == value@),
    {
        str_eq(self.selected.as_str(), value)
    }
}

/// Whether the list can scroll further up or down, from its scroll offset
/// and heights in pixels (a pixel of slack at the bottom).
pub fn scroll_state(scroll_top: i32, scroll_height: i32, client_height: i32) -> (r: (bool, bool))
    ensures
        r.0 == (scroll_top > 0),
        r.1 == (scroll_top < scroll_height - client_height - 1),
{
    (scroll_top > 0, (scroll_top as i64) < scroll_height as i64 - client_height as i64 - 1)
}

/// A menu item's colour treatment.
#[derive(Clone, Copy, Debug, PartialEq, Eq, Structural)]
pub enum MenuItemVariant {
    Default,
    Destructive,
}

impl MenuItemVariant {
    /// The `data-variant` value.
    pub fn as_str(&self) -> (s: &'static str)
        ensures
            s@ == (match *self { MenuItemVariant::Default => "default"@, MenuItemVariant::Destructive => "destructive"@ }),
    {
        match self {
            MenuItemVariant::Default => "default",
            MenuItemVariant::Destructive => "destructive",
        }
    }
}

/// What clicking a menu item does.
#[derive(Clone, Copy, Debug, PartialEq, Eq, Structural)]
pub struct ItemEffect {
    /// Run the item's `on_select`.
    pub select: bool,
    /// Close the menu.
    pub close: bool,
}

/// A click on a menu item selects it and closes the menu; a disabled item
/// does nothing.
pub fn item_clicked(disabled: bool) -> (e: ItemEffect)
    ensures
        e == (ItemEffect { select: !disabled, close: !disabled }),
{
    ItemEffect { select: !disabled, close: !disabled }
}

/// A click on a checkbox item: the value to report, if the item is enabled.
pub fn checkbox_item_clicked(checked: bool, disabled: bool) -> (r: Option<bool>)
    ensures
        r == (if disabled { None } else { Some(!checked) }),
{
    if disabled { None } else { Some(!checked) }
}

/// A submenu opened by hovering: it stays open while the pointer is over
/// its trigger or its content, and closes a moment after it left both.
#[derive(Clone, Copy, Debug, PartialEq, Eq, Structural)]
pub struct Submenu {
    pub open: bool,
    pub hovering: bool,
}

impl Submenu {
    pub fn new() -> (s: Self)
        ensures
            s == (Submenu { open: false, hovering: false }),
    {
        Submenu { open: false, hovering: false }
    }

    /// The pointer entered the trigger: open.
    pub fn enter_trigger(&mut self)
        ensures
            *final(self) == (Submenu { open: true, hovering: true }),
    {
        self.hovering = true;
        self.open = true;
    }

    /// The pointer left the trigger: a close check is to run after 150 ms.
    pub fn leave_trigger(&mut self)
        ensures
            *final(self) == left_trigger(*old(self)),
    {
        self.hovering = false;
    }

    /// The delayed check: close unless the pointer came back meanwhile.
    pub fn close_check(&mut self)
        ensures
            *final(self) == checked(*old(self)),
    {
        if !self.hovering {
            self.open = false;
        }
    }

    /// The pointer entered the content.
    pub fn enter_content(&mut self)
        ensures
            *final(self) == entered_content(*old(self)),
    {
        self.hovering = true;
    }

    /// The pointer left the content: it closes at once.
    pub fn leave_content(&mut self)
        ensures
            *final(self) == (Submenu { open: false, hovering: false }),
    {
        self.hovering = false;
        self.open = false;
    }
}

/// A radio item's click: the group's value becomes the item's, unless it is disabled.
pub fn radio_item_clicked(group_value: &mut String, value: &str, disabled: bool)
    ensures
        disabled ==> final(group_value)@ == old(group_value)@,
        !disabled ==> final(group_value)@ == value@,
{
    if !disabled {
        *group_value = String::from_str(value);
    }
}

/// A menu item's classes.
pub open spec fn menu_item_parts(variant: MenuItemVariant, extra: Seq<char>) -> Seq<Seq<char>> {
    seq![
        "focus:bg-accent focus:text-accent-foreground data-[variant=destructive]:text-destructive data-[variant=destructive]:focus:bg-destructive/10 dark:data-[variant=destructive]:focus:bg-destructive/20 data-[variant=destructive]:focus:text-destructive data-[variant=destructive]:*:[svg]:!text-destructive [&_svg:not([class*='text-'])]:text-muted-foreground relative flex cursor-default items-center gap-2 rounded-sm px-2 py-1.5 text-sm outline-hidden select-none data-[disabled]:pointer-events-none data-[disabled]:opacity-50 data-[inset]:pl-8 [&_svg]:pointer-events-none [&_svg]:shrink-0 [&_svg:not([class*='size-'])]:size-4 hover:bg-accent hover:text-accent-foreground"@,
        match variant {
            MenuItemVariant::Default => ""@,
            MenuItemVariant::Destructive => "data-[variant=destructive]:text-destructive data-[variant=destructive]:focus:bg-destructive/10 dark:data-[variant=destructive]:focus:bg-destructive/20 data-[variant=destructive]:focus:text-destructive data-[variant=destructive]:*:[svg]:!text-destructive"@,
        },
        extra,
    ]
}

pub fn menu_item_class(variant: MenuItemVariant, extra: &str) -> (r: String)
    ensures
        r@ == cn_spec(menu_item_parts(variant, extra@)),
{
    let v: &str = match variant {
        MenuItemVariant::Default => "",
        MenuItemVariant::Destructive => "data-[variant=destructive]:text-destructive data-[variant=destructive]:focus:bg-destructive/10 dark:data-[variant=destructive]:focus:bg-destructive/20 data-[variant=destructive]:focus:text-destructive data-[variant=destructive]:*:[svg]:!text-destructive",
    };
    let parts = [
        "focus:bg-accent focus:text-accent-foreground data-[variant=destructive]:text-destructive data-[variant=destructive]:focus:bg-destructive/10 dark:data-[variant=destructive]:focus:bg-destructive/20 data-[variant=destructive]:focus:text-destructive data-[variant=destructive]:*:[svg]:!text-destructive [&_svg:not([class*='text-'])]:text-muted-foreground relative flex cursor-default items-center gap-2 rounded-sm px-2 py-1.5 text-sm outline-hidden select-none data-[disabled]:pointer-events-none data-[disabled]:opacity-50 data-[inset]:pl-8 [&_svg]:pointer-events-none [&_svg]:shrink-0 [&_svg:not([class*='size-'])]:size-4 hover:bg-accent hover:text-accent-foreground",
        v,
        extra,
    ];
    let r = cn(&parts);
    proof {
        assert(views(parts@) =~= menu_item_parts(variant, extra@));
    }
    r
}

/// The select list's classes: the popper placement adds a nudge away from
/// the trigger.
pub open spec fn select_content_parts(side: OverlaySide, position: SelectContentPosition, extra: Seq<char>) -> Seq<Seq<char>> {
    seq![
        "bg-popover text-popover-foreground data-[state=open]:animate-in data-[state=closed]:animate-out data-[state=closed]:fade-out-0 data-[state=open]:fade-in-0 data-[state=closed]:zoom-out-95 data-[state=open]:zoom-in-95 fixed z-50 max-h-96 min-w-[8rem] overflow-hidden rounded-md border shadow-md data-[state=closed]:opacity-0 data-[state=closed]:pointer-events-none data-[state=closed]:h-0 data-[state=closed]:w-0 data-[state=closed]:overflow-hidden"@,
        slide_spec(side),
        if position == SelectContentPosition::Popper {
            "data-[side=bottom]:translate-y-1 data-[side=left]:-translate-x-1 data-[side=right]:translate-x-1 data-[side=top]:-translate-y-1"@
        } else {
            ""@
        },
        extra,
    ]
}

pub fn select_content_class(side: OverlaySide, position: SelectContentPosition, extra: &str) -> (r: String)
    ensures
        r@ == cn_spec(select_content_parts(side, position, extra@)),
{
    let popper: &str = if position == SelectContentPosition::Popper {
        "data-[side=bottom]:translate-y-1 data-[side=left]:-translate-x-1 data-[side=right]:translate-x-1 data-[side=top]:-translate-y-1"
    } else {
        ""
    };
    let parts = [
        "bg-popover text-popover-foreground data-[state=open]:animate-in data-[state=closed]:animate-out data-[state=closed]:fade-out-0 data-[state=open]:fade-in-0 data-[state=closed]:zoom-out-95 data-[state=open]:zoom-in-95 fixed z-50 max-h-96 min-w-[8rem] overflow-hidden rounded-md border shadow-md data-[state=closed]:opacity-0 data-[state=closed]:pointer-events-none data-[state=closed]:h-0 data-[state=closed]:w-0 data-[state=closed]:overflow-hidden",
        slide_class(side),
        popper,
        extra,
    ];
    let r = cn(&parts);
    proof {
        assert(views(parts@) =~= select_content_parts(side, position, extra@));
    }
    r
}

/// The select list viewport's classes.
pub fn select_viewport_class(position: SelectContentPosition) -> (r: String)
    ensures
        r@ == cn_spec(seq![
            "p-1 overflow-y-auto max-h-[calc(24rem-2rem)]"@,
            if position == SelectContentPosition::Popper {
                "h-[var(--radix-select-trigger-height)] w-full min-w-[var(--radix-select-trigger-width)] scroll-my-1"@
            } else {
                ""@
            },
        ]),
{
    let popper: &str = if position == SelectContentPosition::Popper {
        "h-[var(--radix-select-trigger-height)] w-full min-w-[var(--radix-select-trigger-width)] scroll-my-1"
    } else {
        ""
    };
    let parts = ["p-1 overflow-y-auto max-h-[calc(24rem-2rem)]", popper];
    let r = cn(&parts);
    proof {
        assert(views(parts@) =~= seq![
            "p-1 overflow-y-auto max-h-[calc(24rem-2rem)]"@,
            if position == SelectContentPosition::Popper {
                "h-[var(--radix-select-trigger-height)] w-full min-w-[var(--radix-select-trigger-width)] scroll-my-1"@
            } else {
                ""@
            },
        ]);
    }
    r
}

/// An overlay slides in from the side facing its trigger, never from the
/// side it is shown at.
pub proof fn law_slides_from_the_trigger(side: OverlaySide)
    ensures
        opposite(side) != side,
        opposite(opposite(side)) == side,
{
}

/// The pointer left the trigger.
pub open spec fn left_trigger(s: Submenu) -> Submenu {
    Submenu { open: s.open, hovering: false }
}

/// The delayed check after leaving the trigger.
pub open spec fn checked(s: Submenu) -> Submenu {
    Submenu { open: s.open && s.hovering, hovering: s.hovering }
}

/// The pointer entered the content.
pub open spec fn entered_content(s: Submenu) -> Submenu {
    Submenu { open: s.open, hovering: true }
}

/// A submenu left for good closes when its check runs; one whose content
/// the pointer reached before the check stays open.
pub proof fn law_submenu_closes_when_left(s: Submenu)
    ensures
        !checked(left_trigger(s)).open,
        checked(entered_content(left_trigger(s))).open == s.open,
{
}


/// The base classes of a context menu's content and submenu panels.
pub const MENU_CONTENT_BASE: &'static str = "bg-popover text-popover-foreground data-[state=open]:animate-in data-[state=closed]:animate-out data-[state=closed]:fade-out-0 data-[state=open]:fade-in-0 data-[state=closed]:zoom-out-95 data-[state=open]:zoom-in-95 data-[side=bottom]:slide-in-from-top-2 data-[side=bottom]:slide-out-to-top-2 data-[side=left]:slide-in-from-right-2 data-[side=left]:slide-out-to-right-2 data-[side=right]:slide-in-from-left-2 data-[side=right]:slide-out-to-left-2 data-[side=top]:slide-in-from-bottom-2 data-[side=top]:slide-out-to-bottom-2 fixed z-50 min-w-[8rem] rounded-md border p-1 data-[state=closed]:opacity-0 data-[state=closed]:pointer-events-none data-[state=closed]:invisible";

/// The base classes of a checkbox or radio menu item.
pub const MENU_CHECK_ITEM_BASE: &'static str = "focus:bg-accent focus:text-accent-foreground relative flex cursor-default items-center gap-2 rounded-sm py-1.5 pr-2 pl-8 text-sm outline-hidden select-none data-[disabled]:pointer-events-none data-[disabled]:opacity-50 [&_svg]:pointer-events-none [&_svg]:shrink-0 [&_svg:not([class*='size-'])]:size-4 hover:bg-accent hover:text-accent-foreground";

/// The base classes of a submenu's trigger.
pub const MENU_SUB_TRIGGER_BASE: &'static str = "focus:bg-accent focus:text-accent-foreground data-[state=open]:bg-accent data-[state=open]:text-accent-foreground [&_svg:not([class*='text-'])]:text-muted-foreground flex cursor-default items-center rounded-sm px-2 py-1.5 text-sm outline-hidden select-none data-[inset]:pl-8 [&_svg]:pointer-events-none [&_svg]:shrink-0 [&_svg:not([class*='size-'])]:size-4";

/// The base classes of a menubar's trigger.
pub const MENUBAR_TRIGGER_BASE: &'static str = "hover:bg-accent hover:text-accent-foreground focus-visible:ring-ring/50 data-[state=open]:bg-accent data-[state=open]:text-accent-foreground flex cursor-default items-center rounded-sm px-3 py-1.5 text-sm font-medium outline-none focus-visible:ring-[3px]";

/// The base classes of a menubar's content panel.
pub const MENUBAR_CONTENT_BASE: &'static str = "bg-popover text-popover-foreground z-50 min-w-[12rem] overflow-hidden rounded-md border p-1 shadow-md data-[state=open]:animate-in data-[state=closed]:animate-out data-[state=closed]:fade-out-0 data-[state=open]:fade-in-0 data-[state=closed]:zoom-out-95 data-[state=open]:zoom-in-95 data-[state=closed]:invisible data-[state=closed]:pointer-events-none data-[state=closed]:h-0";

} // verus!
