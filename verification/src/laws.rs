//! What holds of a region's scroll state whatever its numbers are.

use crate::scrollable_region::{Viewport, Visibility};
use vstd::prelude::*;

verus! {

/// The region after scrolling up by each of `amounts` in turn.
pub open spec fn scroll_up_each(viewport: Viewport, amounts: Seq<nat>) -> Viewport
    decreases amounts.len(),
{
    if amounts.len() == 0 {
        viewport
    } else {
        scroll_up_each(viewport, amounts.drop_last()).scroll_up(amounts.last())
    }
}

/// Scrolling a line into view leaves the height of the band as it was.
pub proof fn lemma_scroll_into_view_keeps_height(viewport: Viewport, line: nat)
    ensures
        viewport.scroll_into_view(line).height() == viewport.height(),
{
}

/// After a line was scrolled into view it is visible, provided that the
/// band has a line at all: in the first row where the band had to move up,
/// in the last where it had to move down, and where it was before
/// otherwise.
pub proof fn lemma_scroll_into_view_shows_line(viewport: Viewport, line: usize)
    requires
        viewport.height() > 0,
    ensures
        viewport.scroll_into_view(line as nat).relative_position(line) is Visible,
        line < viewport.line_offset ==> viewport.scroll_into_view(line as nat).relative_position(
            line,
        ) == Visibility::Visible(0),
        line >= viewport.end() ==> viewport.scroll_into_view(line as nat).relative_position(line)
            == Visibility::Visible((viewport.height() - 1) as usize),
        viewport.line_offset <= line < viewport.end() ==> viewport.scroll_into_view(
            line as nat,
        ).relative_position(line) == viewport.relative_position(line),
{
}

/// Scrolling a line into view twice is the same as doing it once, provided
/// that the band has a line at all.
pub proof fn lemma_scroll_into_view_is_idempotent(viewport: Viewport, line: nat)
    requires
        viewport.height() > 0,
    ensures
        viewport.scroll_into_view(line).scroll_into_view(line) == viewport.scroll_into_view(line),
{
}

/// The line in row `row` of the band is visible, in that row.
pub proof fn lemma_line_in_band_is_visible(viewport: Viewport, row: usize)
    requires
        row < viewport.height(),
        viewport.line_offset + row <= usize::MAX,
    ensures
        viewport.relative_position((viewport.line_offset + row) as usize) == Visibility::Visible(
            row,
        ),
{
}

/// A line before the first visible one is above the region.
pub proof fn lemma_line_before_band_is_above(viewport: Viewport, line: usize)
    requires
        line < viewport.line_offset,
    ensures
        viewport.relative_position(line) == Visibility::AboveRegion,
{
}

/// A line at or after the end of the band is below the region.
pub proof fn lemma_line_after_band_is_below(viewport: Viewport, line: usize)
    requires
        line >= viewport.line_offset + viewport.height(),
    ensures
        viewport.relative_position(line) == Visibility::BelowRegion,
{
}

/// Scrolling up takes the band no further than the first line, and never
/// down.
pub proof fn lemma_scroll_up_stops_at_top(viewport: Viewport, amount: nat)
    ensures
        viewport.scroll_up(amount).line_offset == if amount <= viewport.line_offset {
            viewport.line_offset - amount
        } else {
            0
        },
        0 <= viewport.scroll_up(amount).line_offset <= viewport.line_offset,
{
}

/// An unscrolled region stays unscrolled however often it is scrolled up.
pub proof fn lemma_scroll_up_from_top_stays(viewport: Viewport, amounts: Seq<nat>)
    requires
        viewport.line_offset == 0,
    ensures
        scroll_up_each(viewport, amounts) == viewport,
    decreases amounts.len(),
{
    if amounts.len() > 0 {
        lemma_scroll_up_from_top_stays(viewport, amounts.drop_last());
    }
}

} // verus!
