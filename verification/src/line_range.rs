//! What this crate relies on of scribe's `LineRange`, a range of whole
//! lines that holds its first line and the line after its last.

use scribe::buffer::LineRange;
use vstd::prelude::*;

verus! {

/// Makes `scribe::buffer::LineRange` known to the verifier, as a type
/// whose fields it cannot see.
#[verifier::external_type_specification]
#[verifier::external_body]
pub struct ExLineRange(LineRange);

/// The first line of a range: what `LineRange::start` returns for it.
pub uninterp spec fn range_start(range: LineRange) -> usize;

/// The line after the last line of a range: what `LineRange::end` returns
/// for it.
pub uninterp spec fn range_end(range: LineRange) -> usize;

/// `LineRange::new` is taken to build the range between its two arguments,
/// whichever order they come in: the range starts at the lesser of the two
/// and ends at the greater.
pub assume_specification[ LineRange::new ](start: usize, end: usize) -> (range: LineRange)
    ensures
        range_start(range) == if start < end { start } else { end },
        range_end(range) == if start < end { end } else { start },
;

/// `LineRange::start` is taken to return the line that the range starts
/// at, and to return the same line whenever it is asked of the same range.
pub assume_specification[ LineRange::start ](range: &LineRange) -> (start: usize)
    ensures
        start == range_start(*range),
;

/// `LineRange::end` is taken to return the line that the range ends
/// before, and to return the same line whenever it is asked of the same
/// range.
pub assume_specification[ LineRange::end ](range: &LineRange) -> (end: usize)
    ensures
        end == range_end(*range),
;

} // verus!
