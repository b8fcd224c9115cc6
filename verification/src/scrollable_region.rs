//! A fixed-height band of lines on the screen, and the ways to move it.

use crate::line_range::{range_end, range_start};
use crate::terminal::Terminal;
use scribe::buffer::LineRange;
use std::sync::Arc;
use vstd::math::max;
use vstd::prelude::*;

verus! {

/// Where a line lies with respect to the visible band.
#[derive(PartialEq, Debug)]
pub enum Visibility {
    /// The line comes before the first visible line.
    AboveRegion,
    /// The line is visible; the number is its row, counted from the first
    /// visible line, which has row zero.
    Visible(usize),
    /// The line comes after the last visible line.
    BelowRegion,
}

/// The scroll state of a region as three numbers.
pub struct Viewport {
    /// The number of display rows of the terminal.
    pub rows: nat,
    /// The number of display rows that wrapped lines take beyond their first.
    pub wrapped_line_count: nat,
    /// The index of the first visible line.
    pub line_offset: nat,
}

impl Viewport {
    /// The number of lines in the visible band. One row of the terminal is
    /// kept for the status line, and wrapped lines take their extra rows;
    /// where the terminal has fewer rows than that, the band is empty.
    pub open spec fn height(self) -> nat {
        max(0, self.rows - self.wrapped_line_count - 1) as nat
    }

    /// The index of the first line after the visible band.
    pub open spec fn end(self) -> nat {
        self.line_offset + self.height()
    }

    /// The same region with its band starting at `line_offset`.
    pub open spec fn at(self, line_offset: nat) -> Viewport {
        Viewport { line_offset, ..self }
    }

    /// The region after the least move of its band that brings `line` into
    /// it: up to `line` where the line lies before the band, down until
    /// `line` is the last visible line where it lies after the band, and
    /// not at all where it is visible already.
    ///
    /// A band without lines has none after the move either: from a line
    /// that does not lie before it, it moves to start at the line after
    /// that one.
    pub open spec fn scroll_into_view(self, line: nat) -> Viewport {
        if line < self.line_offset {
            self.at(line)
        } else if line >= self.end() {
            self.at((line - self.height() + 1) as nat)
        } else {
            self
        }
    }

    /// The region with `line` in the middle of its band: the band starts
    /// half its height, rounded down, before `line`, or at the first line
    /// where fewer lines than that come before `line`.
    pub open spec fn scroll_to_center(self, line: nat) -> Viewport {
        self.at(max(0, line - self.height() / 2) as nat)
    }

    /// The region with its band `amount` lines further up, or at the first
    /// line where it has fewer lines than that above it.
    pub open spec fn scroll_up(self, amount: nat) -> Viewport {
        self.at(max(0, self.line_offset - amount) as nat)
    }

    /// The region with its band `amount` lines further down.
    pub open spec fn scroll_down(self, amount: nat) -> Viewport {
        self.at(self.line_offset + amount)
    }

    /// The region with `count` rows taken by wrapped lines. Its band keeps
    /// its first line.
    pub open spec fn set_wrapped_line_count(self, count: nat) -> Viewport {
        Viewport { wrapped_line_count: count, ..self }
    }

    /// Where `line` lies with respect to the visible band.
    pub open spec fn relative_position(self, line: usize) -> Visibility {
        if line < self.line_offset {
            Visibility::AboveRegion
        } else if line >= self.end() {
            Visibility::BelowRegion
        } else {
            Visibility::Visible((line - self.line_offset) as usize)
        }
    }
}

/// Abstract representation of a fixed-height section of the screen.
/// Used to determine visible ranges of lines based on previous state,
/// explicit line focus, and common scrolling implementation behaviours.
pub struct ScrollableRegion<T: Terminal + ?Sized> {
    terminal: Arc<T>,
    line_offset: usize,
    wrapped_line_count: usize,
}

impl<T: Terminal + ?Sized> View for ScrollableRegion<T> {
    type V = Viewport;

    closed spec fn view(&self) -> Viewport {
        Viewport {
            rows: self.terminal.rows(),
            wrapped_line_count: self.wrapped_line_count as nat,
            line_offset: self.line_offset as nat,
        }
    }
}

impl<T: Terminal + ?Sized> ScrollableRegion<T> {
    /// The terminal that the region is drawn on.
    pub closed spec fn terminal(&self) -> Arc<T> {
        self.terminal
    }

    /// The rows of a region are those of its terminal, and its line offset
    /// and wrapped line count are numbers that the index type holds.
    pub proof fn lemma_view_of_region(&self)
        ensures
            self@.rows == self.terminal().rows(),
            self@.line_offset <= usize::MAX,
            self@.wrapped_line_count <= usize::MAX,
    {
    }

    /// Creates an unscrolled region on `terminal`, with no wrapped lines.
    pub fn new(terminal: Arc<T>) -> (region: ScrollableRegion<T>)
        ensures
            region.terminal() == terminal,
            region@ == (Viewport { rows: terminal.rows(), wrapped_line_count: 0, line_offset: 0 }),
    {
        ScrollableRegion { terminal, line_offset: 0, wrapped_line_count: 0 }
    }

    /// Determines the visible lines based on the current line offset and
    /// height. The line after the last visible one has to be an index.
    pub fn visible_range(&self) -> (range: LineRange)
        requires
            self@.end() <= usize::MAX,
        ensures
            range_start(range) == self@.line_offset,
            range_end(range) == self@.end(),
    {
        LineRange::new(self.line_offset, self.height() + self.line_offset)
    }

    /// If necessary, moves the line offset such that the specified line is
    /// visible, using previous state to determine whether said line is at
    /// the top or bottom of the new visible range.
    ///
    /// A region without a visible line moves to the line after `line`, so
    /// there has to be one.
    pub fn scroll_into_view(&mut self, line: usize)
        requires
            old(self)@.height() == 0 ==> line < usize::MAX,
        ensures
            final(self)@ == old(self)@.scroll_into_view(line as nat),
            final(self).terminal() == old(self).terminal(),
            old(self)@.height() > 0 ==> final(self)@.line_offset <= line < final(self)@.end(),
    {
        let height = self.height();
        match self.line_offset.checked_add(height) {
            Some(end) => {
                let range = LineRange::new(self.line_offset, end);
                if line < range.start() {
                    self.line_offset = line;
                } else if line >= range.end() {
                    self.line_offset = line - height + 1;
                }
            },
            None => {
                // The band runs past the last index: no line lies after it.
                if line < self.line_offset {
                    self.line_offset = line;
                }
            },
        }
    }

    /// Converts an absolutely positioned line number into
    /// one relative to the scrollable region's visible range.
    /// The visibility type is based on whether or not the line
    /// is outside of the region's visible range.
    pub fn relative_position(&self, line: usize) -> (visibility: Visibility)
        ensures
            visibility == self@.relative_position(line),
    {
        match line.checked_sub(self.line_offset) {
            Some(relative) => {
                if relative >= self.height() {
                    Visibility::BelowRegion
                } else {
                    Visibility::Visible(relative)
                }
            },
            None => Visibility::AboveRegion,
        }
    }

    /// Moves the line offset such that the specified line is centered
    /// vertically, as far as there are lines above it to show.
    pub fn scroll_to_center(&mut self, line: usize)
        ensures
            final(self)@ == old(self)@.scroll_to_center(line as nat),
            final(self)@.line_offset == max(0, line - old(self)@.height() / 2),
            final(self).terminal() == old(self).terminal(),
    {
        self.line_offset = line.saturating_sub(self.height() / 2);
    }

    /// The number of lines the region has scrolled over.
    /// A value of zero represents an unscrolled region.
    pub fn line_offset(&self) -> (line_offset: usize)
        ensures
            line_offset == self@.line_offset,
    {
        self.line_offset
    }

    /// Moves the visible band `amount` lines up, or to the first line
    /// where there are fewer lines than that above it.
    pub fn scroll_up(&mut self, amount: usize)
        ensures
            final(self)@ == old(self)@.scroll_up(amount as nat),
            final(self)@.line_offset == max(0, old(self)@.line_offset - amount),
            final(self).terminal() == old(self).terminal(),
    {
        self.line_offset = self.line_offset.saturating_sub(amount);
    }

    /// Moves the visible band `amount` lines down. The region does not
    /// know where the lines end; the new line offset has to be an index.
    pub fn scroll_down(&mut self, amount: usize)
        requires
            old(self)@.line_offset + amount <= usize::MAX,
        ensures
            final(self)@ == old(self)@.scroll_down(amount as nat),
            final(self).terminal() == old(self).terminal(),
    {
        self.line_offset += amount;
    }

    /// Sets the number of display rows that wrapped lines take beyond
    /// their first. The line offset stays as it is.
    pub fn set_wrapped_line_count(&mut self, count: usize)
        ensures
            final(self)@ == old(self)@.set_wrapped_line_count(count as nat),
            final(self).terminal() == old(self).terminal(),
    {
        self.wrapped_line_count = count;
    }

    /// Scrollable regions occupy one line short of the full
    /// terminal height, which is reserved for the status line.
    /// Rows taken by wrapped lines are deducted as well.
    pub fn height(&self) -> (height: usize)
        ensures
            height == self@.height(),
            height == max(0, self@.rows - self@.wrapped_line_count - 1),
    {
        match self.terminal.height().checked_sub(self.wrapped_line_count) {
            Some(rows) => rows.saturating_sub(1),
            None => 0,
        }
    }
}

} // verus!
