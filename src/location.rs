use vstd::prelude::*;

verus! {

/// A place in the source text: a single byte offset, or a half-open byte range.
#[derive(Debug, Clone, Copy, PartialEq, Eq, Structural)]
pub enum InputLocation {
    Pos(usize),
    Span(usize, usize),
}

impl InputLocation {
    pub fn pos(pos: usize) -> (r: InputLocation)
        ensures
            r == InputLocation::Pos(pos),
    {
        InputLocation::Pos(pos)
    }

    pub fn span(start: usize, end: usize) -> (r: InputLocation)
        ensures
            r == InputLocation::Span(start, end),
    {
        InputLocation::Span(start, end)
    }
}

} // verus!
