use impulse_client_kit::layout::{
    center_class, container_class, flex_class, full_screen_class, grid_class, grid_item_class, line_class,
    spacer_class, Align, ContainerSize, FlexDirection, Gap, GridCols, GridSpan, Justify,
};
use impulse_client_kit::text::{cn, decimal_string, push_decimal_i64, push_hex_fixed};

#[test]
fn cn_drops_empty_classes_and_joins_with_spaces() {
    assert_eq!(cn(&["a", "", "b", "", "c"]), "a b c");
    assert_eq!(cn(&["", ""]), "");
    assert_eq!(cn(&[]), "");
    assert_eq!(cn(&["only"]), "only");
}

#[test]
fn decimal_rendering() {
    assert_eq!(decimal_string(0), "0");
    assert_eq!(decimal_string(7), "7");
    assert_eq!(decimal_string(1234), "1234");
    assert_eq!(decimal_string(u64::MAX), "18446744073709551615");
    let mut s = String::new();
    push_decimal_i64(&mut s, -42);
    assert_eq!(s, "-42");
    let mut s = String::new();
    push_decimal_i64(&mut s, i64::MIN);
    assert_eq!(s, "-9223372036854775808");
}

#[test]
fn hex_rendering_keeps_the_lowest_digits() {
    let mut s = String::new();
    push_hex_fixed(&mut s, 0xabc, 8);
    assert_eq!(s, "00000abc");
    let mut s = String::new();
    push_hex_fixed(&mut s, 0x1ff, 2);
    assert_eq!(s, "ff");
}

#[test]
fn layout_scales() {
    assert_eq!(Gap::Zero.class(), "gap-0");
    assert_eq!(Gap::Xxl.class(), "gap-12");
    assert_eq!(Gap::default(), Gap::Md);
    assert_eq!(Gap::default().class(), "gap-4");
    assert_eq!(Align::default().class(), "items-stretch");
    assert_eq!(Align::Baseline.class(), "items-baseline");
    assert_eq!(Justify::default().class(), "justify-start");
    assert_eq!(Justify::Evenly.class(), "justify-evenly");
    assert_eq!(FlexDirection::ColumnReverse.class(), "flex-col-reverse");
    assert_eq!(ContainerSize::default().class(), "max-w-7xl");
    assert_eq!(GridCols::default().class(), "grid-cols-2");
    assert_eq!(GridCols::Twelve.class(), "grid-cols-12");
    assert_eq!(GridCols::One.class(), "grid-cols-1");
    assert_eq!(GridSpan::Full.class(), "col-span-full");
    assert_eq!(GridSpan::Eleven.class(), "col-span-11");
}

#[test]
fn layout_class_lists() {
    assert_eq!(
        flex_class(FlexDirection::Row, Gap::Md, Align::Stretch, Justify::Start, false, ""),
        "flex flex-row gap-4 items-stretch justify-start flex-nowrap"
    );
    assert_eq!(
        line_class(false, Gap::Sm, Align::Center, Justify::Between, true, "mt-2"),
        "flex flex-col gap-2 items-center justify-between flex-wrap mt-2"
    );
    assert_eq!(grid_class(GridCols::Three, Gap::Lg, ""), "grid grid-cols-3 gap-6");
    assert_eq!(grid_item_class(GridSpan::Full, "x"), "col-span-full x");
    assert_eq!(container_class(ContainerSize::Sm, ""), "mx-auto w-full px-4 sm:px-6 lg:px-8 max-w-3xl");
    assert_eq!(center_class(true, ""), "inline-flex items-center justify-center");
    assert_eq!(full_screen_class(false, "bg-x"), "min-h-screen w-full bg-x");
    assert_eq!(full_screen_class(true, ""), "min-h-screen w-full flex items-center justify-center");
    assert_eq!(spacer_class(""), "flex-1");
}

#[test]
fn class_list_splits_back_into_its_classes() {
    let classes = ["", "flex", "", "gap-2", "w-full", ""];
    let joined = cn(&classes);
    let pieces: Vec<&str> = joined.split(' ').collect();
    let expected: Vec<&str> = classes.iter().copied().filter(|c| !c.is_empty()).collect();
    assert_eq!(pieces, expected);
    assert_eq!(cn(&["only"]).split(' ').collect::<Vec<_>>(), vec!["only"]);
}
