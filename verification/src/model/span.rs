use vstd::prelude::*;

verus! {

/// Start (inclusive) and end (exclusive) byte positions of a piece of source
/// text.
///
/// A span ties a value back to the text it was read from. The formatter
/// carries it along and never reads it: it works from line numbers, column
/// numbers and the values themselves.
#[derive(Clone, Copy, Debug, PartialEq, Eq)]
pub struct Span {
    /// Byte index at which the piece starts.
    pub start: usize,
    /// Byte index just past the end of the piece.
    pub end: usize,
}

impl Span {
    /// A span runs forwards: it does not end before it starts.
    pub open spec fn wf(&self) -> bool {
        self.start <= self.end
    }
}

} // verus!
