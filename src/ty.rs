use vstd::prelude::*;

use crate::ast::{Location, Value};
use crate::error::ParseError;
use crate::location::InputLocation;
use crate::rule::Rule;
use crate::tree::ParseNode;

verus! {

/// A type name, possibly qualified with dots (`My.Greeter`).
#[derive(Debug, Clone)]
pub struct Ty {
    pub value: String,
    pub location: InputLocation,
}

/// `t` is the type that the `typename` node `n` names.
pub open spec fn names_ty(n: ParseNode, t: Ty) -> bool {
    n.rule == Rule::typename && t.value@ == n.text@ && t.location == n.loc()
}

impl Ty {
    pub fn value(&self) -> (r: &str)
        ensures
            r@ == self.value@,
    {
        self.value.as_str()
    }

    /// A `typename` node names the type with its whole text.
    pub fn from_node(n: &ParseNode) -> (r: Result<Ty, ParseError>)
        ensures
            n.rule == Rule::typename ==> (r matches Ok(t) && names_ty(*n, t)),
            n.rule != Rule::typename ==> r == Err::<Ty, ParseError>(ParseError::fault(n)),
    {
        if n.rule == Rule::typename {
            Ok(Ty { value: n.text.as_str().to_owned(), location: n.location() })
        } else {
            Err(ParseError::AstGeneration { rule: n.rule, location: n.location() })
        }
    }
}

impl Value for Ty {
    type Item = String;

    open spec fn item(&self) -> String {
        self.value
    }

    fn value(self) -> (r: String) {
        self.value
    }

    fn value_ref(&self) -> (r: &String) {
        &self.value
    }
}

impl Location for Ty {
    open spec fn loc(&self) -> InputLocation {
        self.location
    }

    fn location(&self) -> (r: &InputLocation) {
        &self.location
    }
}

} // verus!
