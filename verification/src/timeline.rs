//! A timeline laid out on a CSS grid, horizontally or vertically, with items
//! optionally alternating on either side of the line: where each item goes,
//! and the classes and inline styles of its card, line, branch and dot.

use vstd::prelude::*;
use crate::text::{cn, cn_spec, views, decimal, push_decimal};

verus! {

/// Layout direction of the timeline.
#[derive(Clone, Copy, Debug, PartialEq, Eq, Structural)]
pub enum TimelineOrientation {
    Horizontal,
    Vertical,
}

/// Colour treatment of an item (card, dot and branch).
#[derive(Clone, Copy, Debug, PartialEq, Eq, Structural)]
pub enum TimelineVariant {
    Default,
    Secondary,
    Destructive,
    Outline,
}

pub open spec fn dot_border_spec(v: TimelineVariant) -> Seq<char> {
    match v {
        TimelineVariant::Default => "border-primary"@,
        TimelineVariant::Secondary => "border-secondary"@,
        TimelineVariant::Destructive => "border-destructive"@,
        TimelineVariant::Outline => ""@,
    }
}

pub open spec fn dot_fill_spec(v: TimelineVariant) -> Seq<char> {
    match v {
        TimelineVariant::Default => "bg-primary"@,
        TimelineVariant::Secondary => "bg-secondary"@,
        TimelineVariant::Destructive => "bg-destructive"@,
        TimelineVariant::Outline => "bg-background"@,
    }
}

pub open spec fn card_spec(v: TimelineVariant) -> Seq<char> {
    match v {
        TimelineVariant::Default => "bg-card border text-card-foreground shadow-sm"@,
        TimelineVariant::Secondary => "bg-secondary text-secondary-foreground shadow-sm"@,
        TimelineVariant::Destructive => "bg-destructive/10 border border-destructive/20 text-destructive-foreground shadow-sm"@,
        TimelineVariant::Outline => "bg-transparent border shadow-sm"@,
    }
}

pub open spec fn branch_spec(v: TimelineVariant) -> Seq<char> {
    match v {
        TimelineVariant::Default => "bg-primary"@,
        TimelineVariant::Secondary => "bg-secondary"@,
        TimelineVariant::Destructive => "bg-destructive"@,
        TimelineVariant::Outline => "bg-border"@,
    }
}

impl TimelineVariant {
    /// Border colour for the centre dot.
    pub fn dot_border(&self) -> (s: &'static str)
        ensures
            s@ == dot_border_spec(*self),
    {
        match self {
            TimelineVariant::Default => "border-primary",
            TimelineVariant::Secondary => "border-secondary",
            TimelineVariant::Destructive => "border-destructive",
            TimelineVariant::Outline => "",
        }
    }

    /// Solid fill for the centre dot (when not hollow).
    pub fn dot_fill(&self) -> (s: &'static str)
        ensures
            s@ == dot_fill_spec(*self),
    {
        match self {
            TimelineVariant::Default => "bg-primary",
            TimelineVariant::Secondary => "bg-secondary",
            TimelineVariant::Destructive => "bg-destructive",
            TimelineVariant::Outline => "bg-background",
        }
    }

    /// Card classes.
    pub fn card(&self) -> (s: &'static str)
        ensures
            s@ == card_spec(*self),
    {
        match self {
            TimelineVariant::Default => "bg-card border text-card-foreground shadow-sm",
            TimelineVariant::Secondary => "bg-secondary text-secondary-foreground shadow-sm",
            TimelineVariant::Destructive => "bg-destructive/10 border border-destructive/20 text-destructive-foreground shadow-sm",
            TimelineVariant::Outline => "bg-transparent border shadow-sm",
        }
    }

    /// Colour of the stub linking dot to card.
    pub fn branch(&self) -> (s: &'static str)
        ensures
            s@ == branch_spec(*self),
    {
        match self {
            TimelineVariant::Default => "bg-primary",
            TimelineVariant::Secondary => "bg-secondary",
            TimelineVariant::Destructive => "bg-destructive",
            TimelineVariant::Outline => "bg-border",
        }
    }
}

/// The side single-sided timelines place content on.
#[derive(Clone, Copy, Debug, PartialEq, Eq, Structural)]
pub enum TimelineAlignment {
    /// Above the line (horizontal) / left of it (vertical).
    TopLeft,
    /// Below the line (horizontal) / right of it (vertical).
    BottomRight,
}

/// The side of the line an item's card sits on.
#[derive(Clone, Copy, Debug, PartialEq, Eq, Structural)]
pub enum Side {
    Before,
    After,
}

pub open spec fn side_spec(index: nat, alternating: bool, alignment: TimelineAlignment) -> Side {
    if alternating {
        if index % 2 == 0 { Side::Before } else { Side::After }
    } else if alignment == TimelineAlignment::TopLeft {
        Side::Before
    } else {
        Side::After
    }
}

/// The side of item `index`: even items before the line and odd ones after
/// when alternating, else the alignment's side.
pub fn item_side(index: usize, alternating: bool, alignment: TimelineAlignment) -> (s: Side)
    ensures
        s == side_spec(index as nat, alternating, alignment),
{
    if alternating {
        if index % 2 == 0 { Side::Before } else { Side::After }
    } else if alignment == TimelineAlignment::TopLeft {
        Side::Before
    } else {
        Side::After
    }
}

/// The grid cells `(card column, card row, line column, line row)` of item
/// `index`, counted from one.
pub open spec fn placement(side: Side, index: nat, vertical: bool, alternating: bool) -> (nat, nat, nat, nat) {
    let n = index + 1;
    if vertical {
        if alternating {
            (if side == Side::Before { 1nat } else { 3nat }, n, 2nat, n)
        } else if side == Side::Before {
            (1nat, n, 2nat, n)
        } else {
            (2nat, n, 1nat, n)
        }
    } else if alternating {
        (n, if side == Side::Before { 1nat } else { 3nat }, n, 2nat)
    } else if side == Side::Before {
        (n, 1nat, n, 2nat)
    } else {
        (n, 2nat, n, 1nat)
    }
}

/// `grid-column: C; grid-row: R;`
pub open spec fn cell_style(col: nat, row: nat) -> Seq<char> {
    "grid-column: "@ + decimal(col) + "; grid-row: "@ + decimal(row) + ";"@
}

/// The card's inline placement, and the line cell's, which also stretches
/// along the line (`height` when vertical, `width` when horizontal).
pub open spec fn styles_spec(side: Side, index: nat, vertical: bool, alternating: bool) -> (Seq<char>, Seq<char>) {
    let p = placement(side, index, vertical, alternating);
    (
        cell_style(p.0, p.1),
        cell_style(p.2, p.3) + if vertical { " height: 100%;"@ } else { " width: 100%;"@ },
    )
}

fn push_cell(out: &mut String, col: u64, row: u64)
    ensures
        final(out)@ == old(out)@ + cell_style(col as nat, row as nat),
{
    out.append("grid-column: ");
    push_decimal(out, col);
    out.append("; grid-row: ");
    push_decimal(out, row);
    out.append(";");
    proof {
        assert(final(out)@ =~= old(out)@ + cell_style(col as nat, row as nat));
    }
}

/// The inline grid placement of an item's card and of its line cell.
pub fn grid_and_line_styles(side: Side, index: usize, vertical: bool, alternating: bool) -> (r: (String, String))
    requires
        index < u64::MAX,
    ensures
        (r.0@, r.1@) == styles_spec(side, index as nat, vertical, alternating),
{
    let n: u64 = index as u64 + 1;
    let (c, rr, lc, lr): (u64, u64, u64, u64) = if vertical {
        if alternating {
            (if side == Side::Before { 1 } else { 3 }, n, 2, n)
        } else if side == Side::Before {
            (1, n, 2, n)
        } else {
            (2, n, 1, n)
        }
    } else if alternating {
        (n, if side == Side::Before { 1 } else { 3 }, n, 2)
    } else if side == Side::Before {
        (n, 1, n, 2)
    } else {
        (n, 2, n, 1)
    };
    let mut card = String::new();
    push_cell(&mut card, c, rr);
    let mut line = String::new();
    push_cell(&mut line, lc, lr);
    if vertical {
        line.append(" height: 100%;");
    } else {
        line.append(" width: 100%;");
    }
    proof {
        assert(card@ =~= styles_spec(side, index as nat, vertical, alternating).0);
        assert(line@ =~= styles_spec(side, index as nat, vertical, alternating).1);
    }
    (card, line)
}

/// The card's width constraint.
pub open spec fn card_style_spec(vertical: bool, card_width: nat, max_card_width: nat) -> Seq<char> {
    if vertical {
        "max-width: "@ + decimal(max_card_width) + "px;"@
    } else {
        "width: "@ + decimal(card_width) + "px; min-width: "@ + decimal(card_width) + "px; max-width: "@
            + decimal(card_width) + "px;"@
    }
}

/// The card's inline width: capped when vertical, fixed when horizontal.
pub fn card_style(vertical: bool, card_width: u32, max_card_width: u32) -> (s: String)
    ensures
        s@ == card_style_spec(vertical, card_width as nat, max_card_width as nat),
{
    let mut s = String::new();
    if vertical {
        s.append("max-width: ");
        push_decimal(&mut s, max_card_width as u64);
        s.append("px;");
    } else {
        s.append("width: ");
        push_decimal(&mut s, card_width as u64);
        s.append("px; min-width: ");
        push_decimal(&mut s, card_width as u64);
        s.append("px; max-width: ");
        push_decimal(&mut s, card_width as u64);
        s.append("px;");
    }
    proof {
        assert(s@ =~= card_style_spec(vertical, card_width as nat, max_card_width as nat));
    }
    s
}

pub open spec fn branch_position_spec(vertical: bool, is_even: bool, alternating: bool, alignment: TimelineAlignment) -> Seq<char> {
    let start = if alternating { is_even } else { alignment == TimelineAlignment::TopLeft };
    if vertical {
        if start { "h-px w-4 left-0"@ } else { "h-px w-4 right-0"@ }
    } else if start {
        "w-px h-4 top-0"@
    } else {
        "w-px h-4 bottom-0"@
    }
}

/// Where the branch stub sits in the line cell: at the start (left / top)
/// for content before the line, at the end otherwise.
pub fn branch_position(vertical: bool, is_even: bool, alternating: bool, alignment: TimelineAlignment) -> (s: &'static str)
    ensures
        s@ == branch_position_spec(vertical, is_even, alternating, alignment),
{
    let start = if alternating { is_even } else { alignment == TimelineAlignment::TopLeft };
    if vertical {
        if start { "h-px w-4 left-0" } else { "h-px w-4 right-0" }
    } else if start {
        "w-px h-4 top-0"
    } else {
        "w-px h-4 bottom-0"
    }
}

pub open spec fn container_parts(vertical: bool, side: Side) -> Seq<Seq<char>> {
    seq![
        "flex relative snap-center"@,
        if vertical { "h-full items-center"@ } else { "w-full justify-center"@ },
        if vertical {
            if side == Side::Before { "justify-end"@ } else { "justify-start"@ }
        } else {
            if side == Side::Before { "items-end"@ } else { "items-start"@ }
        },
    ]
}

/// The item cell's classes, pushing the card towards the line.
pub fn container_class(vertical: bool, side: Side) -> (r: String)
    ensures
        r@ == cn_spec(container_parts(vertical, side)),
{
    let orient: &str = if vertical { "h-full items-center" } else { "w-full justify-center" };
    let align: &str = if vertical {
        if side == Side::Before { "justify-end" } else { "justify-start" }
    } else {
        if side == Side::Before { "items-end" } else { "items-start" }
    };
    let parts = ["flex relative snap-center", orient, align];
    let r = cn(&parts);
    proof {
        assert(views(parts@) =~= container_parts(vertical, side));
    }
    r
}

pub open spec fn dot_parts(hollow: bool, v: TimelineVariant) -> Seq<Seq<char>> {
    if hollow {
        seq!["relative h-4 w-4 rounded-full z-10 flex items-center justify-center border-2 bg-card"@, dot_border_spec(v)]
    } else {
        seq!["relative h-4 w-4 rounded-full z-10 flex items-center justify-center border-2"@, dot_border_spec(v), dot_fill_spec(v)]
    }
}

/// The centre dot's classes, outlined on a card background when hollow.
pub fn dot_class(hollow: bool, variant: TimelineVariant) -> (r: String)
    ensures
        r@ == cn_spec(dot_parts(hollow, variant)),
{
    if hollow {
        let parts = ["relative h-4 w-4 rounded-full z-10 flex items-center justify-center border-2 bg-card", variant.dot_border()];
        let r = cn(&parts);
        proof {
            assert(views(parts@) =~= dot_parts(hollow, variant));
        }
        r
    } else {
        let parts = ["relative h-4 w-4 rounded-full z-10 flex items-center justify-center border-2", variant.dot_border(), variant.dot_fill()];
        let r = cn(&parts);
        proof {
            assert(views(parts@) =~= dot_parts(hollow, variant));
        }
        r
    }
}

pub open spec fn card_parts(no_cards: bool, v: TimelineVariant, extra: Seq<char>) -> Seq<Seq<char>> {
    if no_cards {
        seq!["flex flex-col rounded-md transition-all p-4 shrink-0 border-none shadow-none bg-transparent"@, extra]
    } else {
        seq!["flex flex-col rounded-md transition-all p-4 shrink-0"@, card_spec(v), extra]
    }
}

/// The card's classes: bare content when the timeline has no cards.
pub fn card_class(no_cards: bool, variant: TimelineVariant, extra: &str) -> (r: String)
    ensures
        r@ == cn_spec(card_parts(no_cards, variant, extra@)),
{
    if no_cards {
        let parts = ["flex flex-col rounded-md transition-all p-4 shrink-0 border-none shadow-none bg-transparent", extra];
        let r = cn(&parts);
        proof {
            assert(views(parts@) =~= card_parts(no_cards, variant, extra@));
        }
        r
    } else {
        let parts = ["flex flex-col rounded-md transition-all p-4 shrink-0", variant.card(), extra];
        let r = cn(&parts);
        proof {
            assert(views(parts@) =~= card_parts(no_cards, variant, extra@));
        }
        r
    }
}

pub open spec fn line_parts(index: nat, total: nat, vertical: bool) -> Seq<Seq<char>> {
    seq![
        "absolute bg-muted"@,
        if index == 0 { if vertical { "rounded-t-full"@ } else { "rounded-l-full"@ } } else { ""@ },
        if total > 0 && index == total - 1 { if vertical { "rounded-b-full"@ } else { "rounded-r-full"@ } } else { ""@ },
        if vertical { "h-full w-1"@ } else { "w-full h-1"@ },
    ]
}

/// The line segment's classes: rounded where the line starts (first item)
/// and where it ends (last of `total`).
pub fn line_class(index: usize, total: usize, vertical: bool) -> (r: String)
    ensures
        r@ == cn_spec(line_parts(index as nat, total as nat, vertical)),
{
    let first: &str = if index == 0 { if vertical { "rounded-t-full" } else { "rounded-l-full" } } else { "" };
    let last: &str = if total > 0 && index == total - 1 { if vertical { "rounded-b-full" } else { "rounded-r-full" } } else { "" };
    let size: &str = if vertical { "h-full w-1" } else { "w-full h-1" };
    let parts = ["absolute bg-muted", first, last, size];
    let r = cn(&parts);
    proof {
        assert(views(parts@) =~= line_parts(index as nat, total as nat, vertical));
    }
    r
}

/// The branch stub's classes.
pub fn branch_class(variant: TimelineVariant, vertical: bool, is_even: bool, alternating: bool, alignment: TimelineAlignment) -> (r: String)
    ensures
        r@ == cn_spec(seq![branch_spec(variant), branch_position_spec(vertical, is_even, alternating, alignment)]),
{
    let parts = [variant.branch(), branch_position(vertical, is_even, alternating, alignment)];
    let r = cn(&parts);
    proof {
        assert(views(parts@) =~= seq![branch_spec(variant), branch_position_spec(vertical, is_even, alternating, alignment)]);
    }
    r
}

/// The outer container's classes.
pub fn timeline_class(vertical: bool, extra: &str) -> (r: String)
    ensures
        r@ == cn_spec(seq!["flex h-full w-full p-4"@, if vertical { "flex-col"@ } else { "flex-row"@ }, extra@]),
{
    let dir: &str = if vertical { "flex-col" } else { "flex-row" };
    let parts = ["flex h-full w-full p-4", dir, extra];
    let r = cn(&parts);
    proof {
        assert(views(parts@) =~= seq!["flex h-full w-full p-4"@, if vertical { "flex-col"@ } else { "flex-row"@ }, extra@]);
    }
    r
}

/// The grid list's classes.
pub fn grid_class(vertical: bool) -> (r: String)
    ensures
        r@ == cn_spec(seq![
            "grid relative"@,
            if vertical { "grid-cols-[1fr_2rem_1fr] auto-rows-min"@ } else { "grid-flow-col grid-rows-[min-content_2rem_min-content]"@ },
        ]),
{
    let layout: &str = if vertical { "grid-cols-[1fr_2rem_1fr] auto-rows-min" } else { "grid-flow-col grid-rows-[min-content_2rem_min-content]" };
    let parts = ["grid relative", layout];
    let r = cn(&parts);
    proof {
        assert(views(parts@) =~= seq![
            "grid relative"@,
            if vertical { "grid-cols-[1fr_2rem_1fr] auto-rows-min"@ } else { "grid-flow-col grid-rows-[min-content_2rem_min-content]"@ },
        ]);
    }
    r
}

pub open spec fn tracks_spec(vertical: bool, alternating: bool, alignment: TimelineAlignment) -> Seq<char> {
    if vertical {
        if alternating { "1fr 2rem 1fr"@ } else if alignment == TimelineAlignment::TopLeft { "1fr 2rem"@ } else { "2rem 1fr"@ }
    } else if alternating {
        "min-content 2rem min-content"@
    } else if alignment == TimelineAlignment::TopLeft {
        "min-content 2rem"@
    } else {
        "2rem min-content"@
    }
}

/// The grid's tracks across the line: content on both sides when
/// alternating, else on the aligned side only.
pub fn tracks(vertical: bool, alternating: bool, alignment: TimelineAlignment) -> (s: &'static str)
    ensures
        s@ == tracks_spec(vertical, alternating, alignment),
{
    if vertical {
        if alternating { "1fr 2rem 1fr" } else if alignment == TimelineAlignment::TopLeft { "1fr 2rem" } else { "2rem 1fr" }
    } else if alternating {
        "min-content 2rem min-content"
    } else if alignment == TimelineAlignment::TopLeft {
        "min-content 2rem"
    } else {
        "2rem min-content"
    }
}

/// Half of the amount by which a card is wider than the spacing, as CSS
/// pixels (`.5` for an odd difference), or `0`.
pub open spec fn safe_padding_spec(width: nat, spacing: nat) -> Seq<char> {
    if width <= spacing {
        "0"@
    } else if (width - spacing) % 2 == 0 {
        decimal(((width - spacing) / 2) as nat)
    } else {
        decimal(((width - spacing) / 2) as nat) + ".5"@
    }
}

/// The horizontal grid's inline style: the column spacing, the tracks, and
/// side padding that keeps the first and last cards on screen.
pub open spec fn horizontal_style_spec(width: nat, spacing: nat, alternating: bool, alignment: TimelineAlignment) -> Seq<char> {
    "grid-auto-columns: "@ + decimal(spacing) + "px; grid-template-rows: "@ + tracks_spec(false, alternating, alignment)
        + "; padding-left: "@ + safe_padding_spec(width, spacing) + "px; padding-right: "@
        + safe_padding_spec(width, spacing) + "px;"@
}

fn push_safe_padding(out: &mut String, width: u32, spacing: u32)
    ensures
        final(out)@ == old(out)@ + safe_padding_spec(width as nat, spacing as nat),
{
    if width <= spacing {
        out.append("0");
        proof {
            reveal_strlit("0");
        }
    } else {
        let d: u32 = width - spacing;
        push_decimal(out, (d / 2) as u64);
        if d % 2 != 0 {
            out.append(".5");
        }
    }
}

/// The horizontal timeline's grid style.
pub fn horizontal_grid_style(width: u32, spacing: u32, alternating: bool, alignment: TimelineAlignment) -> (s: String)
    ensures
        s@ == horizontal_style_spec(width as nat, spacing as nat, alternating, alignment),
{
    let mut s = String::from_str("grid-auto-columns: ");
    push_decimal(&mut s, spacing as u64);
    s.append("px; grid-template-rows: ");
    s.append(tracks(false, alternating, alignment));
    s.append("; padding-left: ");
    push_safe_padding(&mut s, width, spacing);
    s.append("px; padding-right: ");
    push_safe_padding(&mut s, width, spacing);
    s.append("px;");
    proof {
        assert(s@ =~= horizontal_style_spec(width as nat, spacing as nat, alternating, alignment));
    }
    s
}

/// Alternating items take turns on each side of the line; successive
/// items never share a side.
pub proof fn law_alternating_items_alternate(index: nat, alignment: TimelineAlignment)
    ensures
        side_spec(index, true, alignment) != side_spec(index + 1, true, alignment),
        side_spec(index, true, alignment) == side_spec(index + 2, true, alignment),
{
}

/// Every item's card and line share its grid line (the row when vertical,
/// the column when horizontal), which is the item's position counted from
/// one; the line itself always runs through the middle track.
pub proof fn law_card_and_line_share_a_slot(side: Side, index: nat, vertical: bool, alternating: bool)
    ensures
        vertical ==> placement(side, index, vertical, alternating).1 == index + 1
            && placement(side, index, vertical, alternating).3 == index + 1,
        !vertical ==> placement(side, index, vertical, alternating).0 == index + 1
            && placement(side, index, vertical, alternating).2 == index + 1,
        alternating ==> (if vertical { placement(side, index, vertical, alternating).2 } else { placement(side, index, vertical, alternating).3 }) == 2,
{
}

} // verus!
