//! The scroll state of a fixed-height region of a terminal: which lines of
//! a document it shows, and how that band of lines moves.

pub mod laws;
pub mod line_range;
pub mod scrollable_region;
pub mod terminal;
