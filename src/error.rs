use vstd::prelude::*;

use crate::location::InputLocation;
use crate::rule::Rule;
use crate::tree::ParseNode;

verus! {

/// Why a source text produced no terms.
#[derive(Debug, Clone)]
pub enum ParseError {
    /// The grammar rejected the text: the rules it expected and those it
    /// found at the given place.
    GrammarMismatch { positives: Vec<Rule>, negatives: Vec<Rule>, location: InputLocation },
    /// A parse tree node whose rule the conversion does not accept where it
    /// stands: the grammar and the conversion disagree.
    AstGeneration { rule: Rule, location: InputLocation },
}

impl ParseError {
    /// The error for a node that the conversion cannot accept.
    pub open spec fn fault(n: &ParseNode) -> ParseError {
        ParseError::AstGeneration { rule: n.rule, location: n.loc() }
    }

    /// The error for a node that the conversion cannot accept.
    pub fn at(n: &ParseNode) -> (e: ParseError)
        ensures
            e == ParseError::fault(n),
    {
        ParseError::AstGeneration { rule: n.rule, location: n.location() }
    }
}

} // verus!
