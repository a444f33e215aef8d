use vstd::prelude::*;

use crate::ast::{Location, Value};
use crate::error::ParseError;
use crate::location::InputLocation;
use crate::rule::Rule;
use crate::tree::ParseNode;

verus! {

/// A truth literal.
#[derive(Debug, Clone, Copy, PartialEq, Eq, Structural)]
pub struct Boolean {
    pub value: bool,
    pub location: InputLocation,
}

impl Value for Boolean {
    type Item = bool;

    open spec fn item(&self) -> bool {
        self.value
    }

    fn value(self) -> (r: bool) {
        self.value
    }

    fn value_ref(&self) -> (r: &bool) {
        &self.value
    }
}

impl Location for Boolean {
    open spec fn loc(&self) -> InputLocation {
        self.location
    }

    fn location(&self) -> (r: &InputLocation) {
        &self.location
    }
}

/// A `boolean` node holds one `boolean_true` or `boolean_false` node, whose
/// span the literal keeps.
pub open spec fn boolean_of(n: ParseNode) -> Result<Boolean, ParseError> {
    if n.rule != Rule::boolean || n.children.len() == 0 {
        Err(ParseError::fault(&n))
    } else {
        let c = n.children@[0];
        match c.rule {
            Rule::boolean_true => Ok(Boolean { value: true, location: c.loc() }),
            Rule::boolean_false => Ok(Boolean { value: false, location: c.loc() }),
            _ => Err(ParseError::fault(&c)),
        }
    }
}

impl Boolean {
    pub fn from_node(n: &ParseNode) -> (r: Result<Boolean, ParseError>)
        ensures
            r == boolean_of(*n),
    {
        if n.rule != Rule::boolean || n.children.len() == 0 {
            return Err(ParseError::AstGeneration { rule: n.rule, location: n.location() });
        }
        let c = &n.children[0];
        match c.rule {
            Rule::boolean_true => Ok(Boolean { value: true, location: c.location() }),
            Rule::boolean_false => Ok(Boolean { value: false, location: c.location() }),
            _ => Err(ParseError::AstGeneration { rule: c.rule, location: c.location() }),
        }
    }
}

} // verus!
