use vstd::prelude::*;

use crate::ast::{Location, Value};
use crate::error::ParseError;
use crate::location::InputLocation;
use crate::rule::Rule;
use crate::tree::ParseNode;

verus! {

/// A string literal: the text between its quotes, as written.
#[derive(Debug, Clone)]
pub struct String {
    pub value: std::string::String,
    pub location: InputLocation,
}

impl Value for String {
    type Item = std::string::String;

    open spec fn item(&self) -> std::string::String {
        self.value
    }

    fn value(self) -> (r: std::string::String) {
        self.value
    }

    fn value_ref(&self) -> (r: &std::string::String) {
        &self.value
    }
}

impl Location for String {
    open spec fn loc(&self) -> InputLocation {
        self.location
    }

    fn location(&self) -> (r: &InputLocation) {
        &self.location
    }
}

/// A `string` node whose first child is the content between the quotes.
pub open spec fn string_ok(n: ParseNode) -> bool {
    n.rule == Rule::string && n.children.len() > 0
}

impl String {
    /// Whichever quotes delimit it, the literal keeps the text of its content
    /// node unchanged, and the span of the whole literal.
    pub fn from_node(n: &ParseNode) -> (r: Result<String, ParseError>)
        ensures
            string_ok(*n) ==> (r matches Ok(s) && s.value@ == n.children@[0].text@ && s.location
                == n.loc()),
            !string_ok(*n) ==> r == Err::<String, ParseError>(ParseError::fault(n)),
    {
        if n.rule == Rule::string && n.children.len() > 0 {
            let value = n.children[0].text.as_str().to_owned();
            Ok(String { value, location: n.location() })
        } else {
            Err(ParseError::AstGeneration { rule: n.rule, location: n.location() })
        }
    }
}

} // verus!
