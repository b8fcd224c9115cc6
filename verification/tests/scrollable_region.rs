use scribe::buffer::LineRange;
use scroll_region::scrollable_region::{ScrollableRegion, Visibility};
use scroll_region::terminal::{Terminal, TestTerminal};
use std::sync::Arc;

#[test]
fn visible_range_works_for_zero_based_line_offsets() {
    let terminal = Arc::new(TestTerminal::new());
    let region = ScrollableRegion::new(terminal);
    let range = region.visible_range();
    assert_eq!(range.start(), 0);
    assert_eq!(range.end(), 9);
}

#[test]
fn visible_range_works_for_non_zero_line_offsets() {
    let terminal = Arc::new(TestTerminal::new());
    let mut region = ScrollableRegion::new(terminal);
    region.scroll_down(10);
    let range = region.visible_range();
    assert_eq!(range.start(), 10);
    assert_eq!(range.end(), 19);
}

#[test]
fn scroll_into_view_advances_region_if_line_after_current_range() {
    let terminal = Arc::new(TestTerminal::new());
    let mut region = ScrollableRegion::new(terminal);
    region.scroll_down(10);
    region.scroll_into_view(40);
    let range = region.visible_range();
    assert_eq!(range.start(), 32);
    assert_eq!(range.end(), 41);
}

#[test]
fn scroll_into_view_recedes_region_if_line_before_current_range() {
    let terminal = Arc::new(TestTerminal::new());
    let mut region = ScrollableRegion::new(terminal);
    region.scroll_down(10);
    region.scroll_into_view(5);
    let range = region.visible_range();
    assert_eq!(range.start(), 5);
    assert_eq!(range.end(), 14);
}

#[test]
fn scroll_to_center_sets_correct_line_offset() {
    let terminal = Arc::new(TestTerminal::new());
    let mut region = ScrollableRegion::new(terminal);
    region.scroll_to_center(20);
    let range = region.visible_range();
    assert_eq!(range.start(), 16);
    assert_eq!(range.end(), 25);
}

#[test]
fn scroll_to_center_does_not_set_negative_offset() {
    let terminal = Arc::new(TestTerminal::new());
    let mut region = ScrollableRegion::new(terminal);
    region.scroll_to_center(0);
    let range = region.visible_range();
    assert_eq!(range.start(), 0);
    assert_eq!(range.end(), 9);
}

#[test]
fn relative_position_returns_correct_value_when_positive() {
    let terminal = Arc::new(TestTerminal::new());
    let mut region = ScrollableRegion::new(terminal);
    region.scroll_into_view(30);
    assert_eq!(region.relative_position(25), Visibility::Visible(3));
}

#[test]
fn relative_position_returns_above_region_when_negative() {
    let terminal = Arc::new(TestTerminal::new());
    let mut region = ScrollableRegion::new(terminal);
    region.scroll_into_view(30);
    assert_eq!(region.relative_position(0), Visibility::AboveRegion);
}

#[test]
fn relative_position_returns_below_region_when_beyond_visible_range() {
    let terminal = Arc::new(TestTerminal::new());
    let region = ScrollableRegion::new(terminal);
    assert_eq!(region.relative_position(20), Visibility::BelowRegion);
}

#[test]
fn scroll_down_increases_line_offset_by_amount() {
    let terminal = Arc::new(TestTerminal::new());
    let mut region = ScrollableRegion::new(terminal);
    region.scroll_down(10);
    assert_eq!(region.visible_range(), LineRange::new(10, 19));
}

#[test]
fn scroll_up_decreases_line_offset_by_amount() {
    let terminal = Arc::new(TestTerminal::new());
    let mut region = ScrollableRegion::new(terminal);
    region.scroll_down(10);
    region.scroll_up(5);
    assert_eq!(region.visible_range(), LineRange::new(5, 14));
}

#[test]
fn scroll_up_does_not_scroll_beyond_top_of_region() {
    let terminal = Arc::new(TestTerminal::new());
    let mut region = ScrollableRegion::new(terminal);
    region.scroll_up(5);
    assert_eq!(region.visible_range(), LineRange::new(0, 9));
}

#[test]
fn height_is_always_at_least_one_less_than_terminal_height() {
    let terminal = Arc::new(TestTerminal::new());
    let region = ScrollableRegion::new(terminal.clone());
    assert_eq!(region.height(), terminal.height() - 1);
}

#[test]
fn height_deducts_wrapped_line_count_from_terminal_height() {
    let wrapped_line_count = 4;
    let terminal = Arc::new(TestTerminal::new());
    let mut region = ScrollableRegion::new(terminal.clone());
    region.set_wrapped_line_count(wrapped_line_count);
    assert_eq!(region.height(), terminal.height() - 1 - wrapped_line_count);
}

#[test]
fn height_uses_checked_arithmetic_to_avoid_overflow() {
    let wrapped_line_count = 12;
    let terminal = Arc::new(TestTerminal::new());
    let mut region = ScrollableRegion::new(terminal.clone());
    region.set_wrapped_line_count(wrapped_line_count);
    assert_eq!(region.height(), 0);
}
