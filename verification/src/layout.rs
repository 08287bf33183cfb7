//! Layout containers' class lists: flexbox rows and columns, grids, a
//! centred page container, a full-viewport section, a centre helper and a
//! spacer. Spacing and alignment come from the shared [`Gap`], [`Align`]
//! and [`Justify`] scales, so the class names stay static.

use vstd::prelude::*;
use crate::text::{cn, cn_spec, views};

verus! {

/// Spacing between children, mapped onto Tailwind's `gap-*` scale.
#[derive(Clone, Copy, Debug, PartialEq, Eq, Structural)]
pub enum Gap {
    Zero,
    Xs,
    Sm,
    Md,
    Lg,
    Xl,
    Xxl,
}

/// The `gap-*` class of a spacing step.
pub open spec fn gap_class(g: Gap) -> Seq<char> {
    match g {
        Gap::Zero => "gap-0"@,
        Gap::Xs => "gap-1"@,
        Gap::Sm => "gap-2"@,
        Gap::Md => "gap-4"@,
        Gap::Lg => "gap-6"@,
        Gap::Xl => "gap-8"@,
        Gap::Xxl => "gap-12"@,
    }
}

impl Gap {
    pub fn class(&self) -> (s: &'static str)
        ensures
            s@ == gap_class(*self),
    {
        match self {
            Gap::Zero => "gap-0",
            Gap::Xs => "gap-1",
            Gap::Sm => "gap-2",
            Gap::Md => "gap-4",
            Gap::Lg => "gap-6",
            Gap::Xl => "gap-8",
            Gap::Xxl => "gap-12",
        }
    }
}

impl Default for Gap {
    fn default() -> (g: Self)
        ensures
            g == Gap::Md,
    {
        Gap::Md
    }
}

/// Cross-axis alignment, mapped onto Tailwind's `items-*` utilities.
#[derive(Clone, Copy, Debug, PartialEq, Eq, Structural)]
pub enum Align {
    Start,
    Center,
    End,
    Stretch,
    Baseline,
}

/// The `items-*` class of an alignment.
pub open spec fn align_class(a: Align) -> Seq<char> {
    match a {
        Align::Start => "items-start"@,
        Align::Center => "items-center"@,
        Align::End => "items-end"@,
        Align::Stretch => "items-stretch"@,
        Align::Baseline => "items-baseline"@,
    }
}

impl Align {
    pub fn class(&self) -> (s: &'static str)
        ensures
            s@ == align_class(*self),
    {
        match self {
            Align::Start => "items-start",
            Align::Center => "items-center",
            Align::End => "items-end",
            Align::Stretch => "items-stretch",
            Align::Baseline => "items-baseline",
        }
    }
}

impl Default for Align {
    fn default() -> (a: Self)
        ensures
            a == Align::Stretch,
    {
        Align::Stretch
    }
}

/// Main-axis distribution, mapped onto Tailwind's `justify-*` utilities.
#[derive(Clone, Copy, Debug, PartialEq, Eq, Structural)]
pub enum Justify {
    Start,
    Center,
    End,
    Between,
    Around,
    Evenly,
}

/// The `justify-*` class of a distribution.
pub open spec fn justify_class(j: Justify) -> Seq<char> {
    match j {
        Justify::Start => "justify-start"@,
        Justify::Center => "justify-center"@,
        Justify::End => "justify-end"@,
        Justify::Between => "justify-between"@,
        Justify::Around => "justify-around"@,
        Justify::Evenly => "justify-evenly"@,
    }
}

impl Justify {
    pub fn class(&self) -> (s: &'static str)
        ensures
            s@ == justify_class(*self),
    {
        match self {
            Justify::Start => "justify-start",
            Justify::Center => "justify-center",
            Justify::End => "justify-end",
            Justify::Between => "justify-between",
            Justify::Around => "justify-around",
            Justify::Evenly => "justify-evenly",
        }
    }
}

impl Default for Justify {
    fn default() -> (j: Self)
        ensures
            j == Justify::Start,
    {
        Justify::Start
    }
}

/// Direction of a flex container's main axis.
#[derive(Clone, Copy, Debug, PartialEq, Eq, Structural)]
pub enum FlexDirection {
    Row,
    RowReverse,
    Column,
    ColumnReverse,
}

pub open spec fn direction_class(d: FlexDirection) -> Seq<char> {
    match d {
        FlexDirection::Row => "flex-row"@,
        FlexDirection::RowReverse => "flex-row-reverse"@,
        FlexDirection::Column => "flex-col"@,
        FlexDirection::ColumnReverse => "flex-col-reverse"@,
    }
}

impl FlexDirection {
    pub fn class(&self) -> (s: &'static str)
        ensures
            s@ == direction_class(*self),
    {
        match self {
            FlexDirection::Row => "flex-row",
            FlexDirection::RowReverse => "flex-row-reverse",
            FlexDirection::Column => "flex-col",
            FlexDirection::ColumnReverse => "flex-col-reverse",
        }
    }
}

impl Default for FlexDirection {
    fn default() -> (d: Self)
        ensures
            d == FlexDirection::Row,
    {
        FlexDirection::Row
    }
}

/// Maximum width of a page container.
#[derive(Clone, Copy, Debug, PartialEq, Eq, Structural)]
pub enum ContainerSize {
    Sm,
    Md,
    Lg,
    Xl,
    Full,
}

pub open spec fn container_size_class(c: ContainerSize) -> Seq<char> {
    match c {
        ContainerSize::Sm => "max-w-3xl"@,
        ContainerSize::Md => "max-w-5xl"@,
        ContainerSize::Lg => "max-w-6xl"@,
        ContainerSize::Xl => "max-w-7xl"@,
        ContainerSize::Full => "max-w-full"@,
    }
}

impl ContainerSize {
    pub fn class(&self) -> (s: &'static str)
        ensures
            s@ == container_size_class(*self),
    {
        match self {
            ContainerSize::Sm => "max-w-3xl",
            ContainerSize::Md => "max-w-5xl",
            ContainerSize::Lg => "max-w-6xl",
            ContainerSize::Xl => "max-w-7xl",
            ContainerSize::Full => "max-w-full",
        }
    }
}

impl Default for ContainerSize {
    fn default() -> (c: Self)
        ensures
            c == ContainerSize::Xl,
    {
        ContainerSize::Xl
    }
}

/// Number of equally sized grid columns, one to twelve.
#[derive(Clone, Copy, Debug, PartialEq, Eq, Structural)]
pub enum GridCols {
    One,
    Two,
    Three,
    Four,
    Five,
    Six,
    Seven,
    Eight,
    Nine,
    Ten,
    Eleven,
    Twelve,
}

/// The column count of a [`GridCols`].
pub open spec fn cols_count(c: GridCols) -> nat {
    match c {
        GridCols::One => 1,
        GridCols::Two => 2,
        GridCols::Three => 3,
        GridCols::Four => 4,
        GridCols::Five => 5,
        GridCols::Six => 6,
        GridCols::Seven => 7,
        GridCols::Eight => 8,
        GridCols::Nine => 9,
        GridCols::Ten => 10,
        GridCols::Eleven => 11,
        GridCols::Twelve => 12,
    }
}

impl GridCols {
    /// `grid-cols-N` for N columns.
    pub fn class(&self) -> (s: &'static str)
        ensures
            s@ == "grid-cols-"@ + crate::text::decimal(cols_count(*self)),
    {
        proof {
            reveal_strlit("grid-cols-");
            reveal_strlit("grid-cols-1");
            reveal_strlit("grid-cols-2");
            reveal_strlit("grid-cols-3");
            reveal_strlit("grid-cols-4");
            reveal_strlit("grid-cols-5");
            reveal_strlit("grid-cols-6");
            reveal_strlit("grid-cols-7");
            reveal_strlit("grid-cols-8");
            reveal_strlit("grid-cols-9");
            reveal_strlit("grid-cols-10");
            reveal_strlit("grid-cols-11");
            reveal_strlit("grid-cols-12");
            crate::text::lemma_decimal_small(cols_count(*self));
        }
        let s = match self {
            GridCols::One => "grid-cols-1",
            GridCols::Two => "grid-cols-2",
            GridCols::Three => "grid-cols-3",
            GridCols::Four => "grid-cols-4",
            GridCols::Five => "grid-cols-5",
            GridCols::Six => "grid-cols-6",
            GridCols::Seven => "grid-cols-7",
            GridCols::Eight => "grid-cols-8",
            GridCols::Nine => "grid-cols-9",
            GridCols::Ten => "grid-cols-10",
            GridCols::Eleven => "grid-cols-11",
            GridCols::Twelve => "grid-cols-12",
        };
        proof {
            assert(s@ =~= "grid-cols-"@ + crate::text::decimal(cols_count(*self)));
        }
        s
    }
}

impl Default for GridCols {
    fn default() -> (c: Self)
        ensures
            c == GridCols::Two,
    {
        GridCols::Two
    }
}

/// How many columns a grid item spans: one to twelve, or the full row.
#[derive(Clone, Copy, Debug, PartialEq, Eq, Structural)]
pub enum GridSpan {
    One,
    Two,
    Three,
    Four,
    Five,
    Six,
    Seven,
    Eight,
    Nine,
    Ten,
    Eleven,
    Twelve,
    Full,
}

/// The number of columns spanned, `None` for the full row.
pub open spec fn span_count(s: GridSpan) -> Option<nat> {
    match s {
        GridSpan::One => Some(1),
        GridSpan::Two => Some(2),
        GridSpan::Three => Some(3),
        GridSpan::Four => Some(4),
        GridSpan::Five => Some(5),
        GridSpan::Six => Some(6),
        GridSpan::Seven => Some(7),
        GridSpan::Eight => Some(8),
        GridSpan::Nine => Some(9),
        GridSpan::Ten => Some(10),
        GridSpan::Eleven => Some(11),
        GridSpan::Twelve => Some(12),
        GridSpan::Full => None,
    }
}

impl GridSpan {
    /// `col-span-N`, or `col-span-full`.
    pub fn class(&self) -> (s: &'static str)
        ensures
            s@ == "col-span-"@ + match span_count(*self) {
                Some(n) => crate::text::decimal(n),
                None => "full"@,
            },
    {
        proof {
            reveal_strlit("col-span-");
            reveal_strlit("full");
            reveal_strlit("col-span-1");
            reveal_strlit("col-span-2");
            reveal_strlit("col-span-3");
            reveal_strlit("col-span-4");
            reveal_strlit("col-span-5");
            reveal_strlit("col-span-6");
            reveal_strlit("col-span-7");
            reveal_strlit("col-span-8");
            reveal_strlit("col-span-9");
            reveal_strlit("col-span-10");
            reveal_strlit("col-span-11");
            reveal_strlit("col-span-12");
            reveal_strlit("col-span-full");
            if let Some(n) = span_count(*self) {
                crate::text::lemma_decimal_small(n);
            }
        }
        let s = match self {
            GridSpan::One => "col-span-1",
            GridSpan::Two => "col-span-2",
            GridSpan::Three => "col-span-3",
            GridSpan::Four => "col-span-4",
            GridSpan::Five => "col-span-5",
            GridSpan::Six => "col-span-6",
            GridSpan::Seven => "col-span-7",
            GridSpan::Eight => "col-span-8",
            GridSpan::Nine => "col-span-9",
            GridSpan::Ten => "col-span-10",
            GridSpan::Eleven => "col-span-11",
            GridSpan::Twelve => "col-span-12",
            GridSpan::Full => "col-span-full",
        };
        proof {
            assert(s@ =~= "col-span-"@ + match span_count(*self) {
                Some(n) => crate::text::decimal(n),
                None => "full"@,
            });
        }
        s
    }
}

impl Default for GridSpan {
    fn default() -> (s: Self)
        ensures
            s == GridSpan::One,
    {
        GridSpan::One
    }
}

/// `flex-wrap` or `flex-nowrap`.
pub open spec fn wrap_class(wrap: bool) -> Seq<char> {
    if wrap { "flex-wrap"@ } else { "flex-nowrap"@ }
}

/// The class list of a flex container.
pub fn flex_class(direction: FlexDirection, gap: Gap, align: Align, justify: Justify, wrap: bool, extra: &str) -> (r: String)
    ensures
        r@ == cn_spec(seq![
            "flex"@, direction_class(direction), gap_class(gap), align_class(align),
            justify_class(justify), wrap_class(wrap), extra@,
        ]),
{
    let w: &str = if wrap { "flex-wrap" } else { "flex-nowrap" };
    let parts = ["flex", direction.class(), gap.class(), align.class(), justify.class(), w, extra];
    let r = cn(&parts);
    proof {
        assert(views(parts@) =~= seq![
            "flex"@, direction_class(direction), gap_class(gap), align_class(align),
            justify_class(justify), wrap_class(wrap), extra@,
        ]);
    }
    r
}

/// The class list of a horizontal (`row == true`) or vertical flex line.
pub fn line_class(row: bool, gap: Gap, align: Align, justify: Justify, wrap: bool, extra: &str) -> (r: String)
    ensures
        r@ == cn_spec(seq![
            if row { "flex flex-row"@ } else { "flex flex-col"@ }, gap_class(gap), align_class(align),
            justify_class(justify), wrap_class(wrap), extra@,
        ]),
{
    let base: &str = if row { "flex flex-row" } else { "flex flex-col" };
    let w: &str = if wrap { "flex-wrap" } else { "flex-nowrap" };
    let parts = [base, gap.class(), align.class(), justify.class(), w, extra];
    let r = cn(&parts);
    proof {
        assert(views(parts@) =~= seq![
            if row { "flex flex-row"@ } else { "flex flex-col"@ }, gap_class(gap), align_class(align),
            justify_class(justify), wrap_class(wrap), extra@,
        ]);
    }
    r
}

/// The class list of a grid.
pub fn grid_class(cols: GridCols, gap: Gap, extra: &str) -> (r: String)
    ensures
        r@ == cn_spec(seq!["grid"@, "grid-cols-"@ + crate::text::decimal(cols_count(cols)), gap_class(gap), extra@]),
{
    let parts = ["grid", cols.class(), gap.class(), extra];
    let r = cn(&parts);
    proof {
        assert(views(parts@) =~= seq!["grid"@, "grid-cols-"@ + crate::text::decimal(cols_count(cols)), gap_class(gap), extra@]);
    }
    r
}

/// The class list of a grid item.
pub fn grid_item_class(span: GridSpan, extra: &str) -> (r: String)
    ensures
        r@ == cn_spec(seq![
            "col-span-"@ + match span_count(span) {
                Some(n) => crate::text::decimal(n),
                None => "full"@,
            },
            extra@,
        ]),
{
    let parts = [span.class(), extra];
    let r = cn(&parts);
    proof {
        assert(views(parts@) =~= seq![
            "col-span-"@ + match span_count(span) {
                Some(n) => crate::text::decimal(n),
                None => "full"@,
            },
            extra@,
        ]);
    }
    r
}

/// The class list of a centred, width-constrained page container.
pub fn container_class(size: ContainerSize, extra: &str) -> (r: String)
    ensures
        r@ == cn_spec(seq!["mx-auto w-full px-4 sm:px-6 lg:px-8"@, container_size_class(size), extra@]),
{
    let parts = ["mx-auto w-full px-4 sm:px-6 lg:px-8", size.class(), extra];
    let r = cn(&parts);
    proof {
        assert(views(parts@) =~= seq!["mx-auto w-full px-4 sm:px-6 lg:px-8"@, container_size_class(size), extra@]);
    }
    r
}

/// The class list of a centring box, `inline-flex` when `inline`.
pub fn center_class(inline: bool, extra: &str) -> (r: String)
    ensures
        r@ == cn_spec(seq![if inline { "inline-flex"@ } else { "flex"@ }, "items-center justify-center"@, extra@]),
{
    let display: &str = if inline { "inline-flex" } else { "flex" };
    let parts = [display, "items-center justify-center", extra];
    let r = cn(&parts);
    proof {
        assert(views(parts@) =~= seq![if inline { "inline-flex"@ } else { "flex"@ }, "items-center justify-center"@, extra@]);
    }
    r
}

/// The class list of a full-viewport section, centring its content when asked.
pub fn full_screen_class(center: bool, extra: &str) -> (r: String)
    ensures
        r@ == cn_spec(seq!["min-h-screen w-full"@, if center { "flex items-center justify-center"@ } else { ""@ }, extra@]),
{
    let c: &str = if center { "flex items-center justify-center" } else { "" };
    let parts = ["min-h-screen w-full", c, extra];
    let r = cn(&parts);
    proof {
        assert(views(parts@) =~= seq!["min-h-screen w-full"@, if center { "flex items-center justify-center"@ } else { ""@ }, extra@]);
    }
    r
}

/// The class list of a spacer that takes the free space on the main axis.
pub fn spacer_class(extra: &str) -> (r: String)
    ensures
        r@ == cn_spec(seq!["flex-1"@, extra@]),
{
    let parts = ["flex-1", extra];
    let r = cn(&parts);
    proof {
        assert(views(parts@) =~= seq!["flex-1"@, extra@]);
    }
    r
}

} // verus!
