use vstd::prelude::*;

use crate::ast::{Location, Value};
use crate::error::ParseError;
use crate::location::InputLocation;
use crate::rule::Rule;
use crate::tree::ParseNode;

verus! {

/// A reference to a local variable, by name.
#[derive(Debug, Clone)]
pub struct Local {
    pub value: String,
    pub location: InputLocation,
}

impl Value for Local {
    type Item = String;

    open spec fn item(&self) -> String {
        self.value
    }

    fn value(self) -> (r: String) {
        self.value
    }

    fn value_ref(&self) -> (r: &String) {
        &self.value
    }
}

impl Location for Local {
    open spec fn loc(&self) -> InputLocation {
        self.location
    }

    fn location(&self) -> (r: &InputLocation) {
        &self.location
    }
}

impl Local {
    /// A `local` node names the variable with its whole text.
    pub fn from_node(n: &ParseNode) -> (r: Result<Local, ParseError>)
        ensures
            n.rule == Rule::local ==> (r matches Ok(l) && l.value@ == n.text@ && l.location
                == n.loc()),
            n.rule != Rule::local ==> r == Err::<Local, ParseError>(ParseError::fault(n)),
    {
        if n.rule == Rule::local {
            Ok(Local { value: n.text.as_str().to_owned(), location: n.location() })
        } else {
            Err(ParseError::AstGeneration { rule: n.rule, location: n.location() })
        }
    }
}

} // verus!
