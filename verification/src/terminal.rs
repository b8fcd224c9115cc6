//! The terminal as a scrollable region sees it: a number of display rows.

use vstd::prelude::*;

verus! {

/// A terminal that a region is drawn on.
///
/// A region asks its terminal for one thing only, its number of display
/// rows. Contracts speak of the terminal as a value that has such a
/// number, `rows`, and `height` has to return it: what they say of a region
/// holds for as long as its terminal reports that number.
pub trait Terminal {
    /// The number of display rows of the terminal.
    spec fn rows(&self) -> nat;

    /// Returns the number of display rows of the terminal.
    fn height(&self) -> (height: usize)
        ensures
            height == self.rows(),
    ;
}

/// A terminal of a fixed number of rows that draws nothing.
pub struct TestTerminal {
    height: usize,
}

impl TestTerminal {
    /// Creates a terminal of ten rows.
    pub fn new() -> (terminal: TestTerminal)
        ensures
            terminal.rows() == 10,
    {
        TestTerminal { height: 10 }
    }

    /// Creates a terminal of `height` rows.
    pub fn with_height(height: usize) -> (terminal: TestTerminal)
        ensures
            terminal.rows() == height,
    {
        TestTerminal { height }
    }
}

impl Terminal for TestTerminal {
    closed spec fn rows(&self) -> nat {
        self.height as nat
    }

    fn height(&self) -> (height: usize) {
        self.height
    }
}

} // verus!
