use vstd::prelude::*;

use crate::ast::{Location, Value};
use crate::error::ParseError;
use crate::location::InputLocation;
use crate::rule::Rule;
use crate::tree::ParseNode;

verus! {

/// A floating-point literal, held as the text it was written with
/// (exponent included); reading it as a 64-bit number is left to the
/// interpreter.
#[derive(Debug, Clone)]
pub struct Float {
    pub value: String,
    pub location: InputLocation,
}

impl Value for Float {
    type Item = String;

    open spec fn item(&self) -> String {
        self.value
    }

    fn value(self) -> (r: String) {
        self.value
    }

    fn value_ref(&self) -> (r: &String) {
        &self.value
    }
}

impl Location for Float {
    open spec fn loc(&self) -> InputLocation {
        self.location
    }

    fn location(&self) -> (r: &InputLocation) {
        &self.location
    }
}

impl Float {
    /// A `float` node keeps its whole text.
    pub fn from_node(n: &ParseNode) -> (r: Result<Float, ParseError>)
        ensures
            n.rule == Rule::float ==> (r matches Ok(f) && f.value@ == n.text@ && f.location
                == n.loc()),
            n.rule != Rule::float ==> r == Err::<Float, ParseError>(ParseError::fault(n)),
    {
        if n.rule == Rule::float {
            Ok(Float { value: n.text.as_str().to_owned(), location: n.location() })
        } else {
            Err(ParseError::AstGeneration { rule: n.rule, location: n.location() })
        }
    }
}

} // verus!
