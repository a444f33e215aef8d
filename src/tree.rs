//! The parse tree that the grammar engine hands over.

use vstd::prelude::*;

use crate::location::InputLocation;
use crate::rule::Rule;

verus! {

/// One node of the parse tree that the grammar engine yields: its rule tag,
/// the byte range `[start, end)` it covers, the text of that range, and its
/// child nodes in source order.
pub struct ParseNode {
    pub rule: Rule,
    pub start: usize,
    pub end: usize,
    pub text: String,
    pub children: Vec<ParseNode>,
}

impl ParseNode {
    /// The span that the node covers.
    pub open spec fn loc(&self) -> InputLocation {
        InputLocation::Span(self.start, self.end)
    }

    pub fn location(&self) -> (r: InputLocation)
        ensures
            r == self.loc(),
    {
        InputLocation::Span(self.start, self.end)
    }
}

} // verus!
