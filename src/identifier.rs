use vstd::prelude::*;
use vstd::string::*;

use crate::ast::{Location, Value};
use crate::error::ParseError;
use crate::location::InputLocation;
use crate::rule::Rule;
use crate::tree::ParseNode;

verus! {

/// A name, remembering whether it was written with a trailing predicate
/// marker.
#[derive(Debug, Clone)]
pub struct Identifier {
    pub value: String,
    pub location: InputLocation,
    pub has_predicate: bool,
}

impl Identifier {
    pub fn has_predicate(&self) -> (r: bool)
        ensures
            r == self.has_predicate,
    {
        self.has_predicate
    }
}

impl Value for Identifier {
    type Item = String;

    open spec fn item(&self) -> String {
        self.value
    }

    fn value(self) -> (r: String) {
        self.value
    }

    fn value_ref(&self) -> (r: &String) {
        &self.value
    }
}

impl Location for Identifier {
    open spec fn loc(&self) -> InputLocation {
        self.location
    }

    fn location(&self) -> (r: &InputLocation) {
        &self.location
    }
}

/// The name that a node of each identifier form spells, and whether it is a
/// predicate: a keyword loses its trailing marker, a property access its
/// leading one, the other forms are kept whole.
pub open spec fn identifier_text(rule: Rule, text: Seq<char>) -> Option<(Seq<char>, bool)> {
    match rule {
        Rule::ident => Some((text, false)),
        Rule::methodname => Some((text, false)),
        Rule::methodnamewithpredicate => Some((text, true)),
        Rule::keyword => if text.len() > 0 {
            Some((text.subrange(0, text.len() - 1), false))
        } else {
            None
        },
        Rule::property_get => if text.len() > 0 {
            Some((text.subrange(1, text.len() as int), false))
        } else {
            None
        },
        _ => None,
    }
}

/// `id` is the identifier that the node `n` spells.
pub open spec fn names_identifier(n: ParseNode, id: Identifier) -> bool {
    &&& identifier_text(n.rule, n.text@) == Some((id.value@, id.has_predicate))
    &&& id.location == n.loc()
}

impl Identifier {
    pub fn from_node(n: &ParseNode) -> (r: Result<Identifier, ParseError>)
        ensures
            identifier_text(n.rule, n.text@) is Some ==> (r matches Ok(id) && names_identifier(
                *n,
                id,
            )),
            identifier_text(n.rule, n.text@) is None ==> r == Err::<Identifier, ParseError>(
                ParseError::fault(n),
            ),
    {
        let text = n.text.as_str();
        let len = text.unicode_len();
        let location = n.location();
        match n.rule {
            Rule::ident | Rule::methodname => {
                Ok(Identifier { value: text.to_owned(), location, has_predicate: false })
            },
            Rule::methodnamewithpredicate => {
                Ok(Identifier { value: text.to_owned(), location, has_predicate: true })
            },
            Rule::keyword if len > 0 => {
                let value = text.substring_char(0, len - 1).to_owned();
                Ok(Identifier { value, location, has_predicate: false })
            },
            Rule::property_get if len > 0 => {
                let value = text.substring_char(1, len).to_owned();
                Ok(Identifier { value, location, has_predicate: false })
            },
            _ => Err(ParseError::AstGeneration { rule: n.rule, location }),
        }
    }
}

} // verus!
