use vstd::prelude::*;
use vstd::string::*;

use crate::ast::{Location, Value};
use crate::error::ParseError;
use crate::location::InputLocation;
use crate::rule::Rule;
use crate::tree::ParseNode;

verus! {

/// A symbol literal such as `:name`, or a bare key of a map.
#[derive(Debug, Clone)]
pub struct Atom {
    pub value: String,
    pub location: InputLocation,
}

impl Value for Atom {
    type Item = String;

    open spec fn item(&self) -> String {
        self.value
    }

    fn value(self) -> (r: String) {
        self.value
    }

    fn value_ref(&self) -> (r: &String) {
        &self.value
    }
}

impl Location for Atom {
    open spec fn loc(&self) -> InputLocation {
        self.location
    }

    fn location(&self) -> (r: &InputLocation) {
        &self.location
    }
}

/// The name that an atom-like node spells: `:name` loses its leading marker,
/// `name:` its trailing one, and a plain identifier is kept whole.
pub open spec fn atom_text(rule: Rule, text: Seq<char>) -> Option<Seq<char>> {
    match rule {
        Rule::atom => if text.len() > 0 { Some(text.subrange(1, text.len() as int)) } else { None },
        Rule::keyword => if text.len() > 0 { Some(text.subrange(0, text.len() - 1)) } else { None },
        Rule::ident => Some(text),
        _ => None,
    }
}

/// `a` is the atom that the node `n` spells.
pub open spec fn names_atom(n: ParseNode, a: Atom) -> bool {
    atom_text(n.rule, n.text@) == Some(a.value@) && a.location == n.loc()
}

impl Atom {
    pub fn from_node(n: &ParseNode) -> (r: Result<Atom, ParseError>)
        ensures
            atom_text(n.rule, n.text@) is Some ==> (r matches Ok(a) && names_atom(*n, a)),
            atom_text(n.rule, n.text@) is None ==> r == Err::<Atom, ParseError>(ParseError::fault(n)),
    {
        let len = n.text.as_str().unicode_len();
        match n.rule {
            Rule::atom if len > 0 => {
                let value = n.text.as_str().substring_char(1, len).to_owned();
                Ok(Atom { value, location: n.location() })
            },
            Rule::keyword if len > 0 => {
                let value = n.text.as_str().substring_char(0, len - 1).to_owned();
                Ok(Atom { value, location: n.location() })
            },
            Rule::ident => {
                let value = n.text.as_str().to_owned();
                Ok(Atom { value, location: n.location() })
            },
            _ => Err(ParseError::AstGeneration { rule: n.rule, location: n.location() }),
        }
    }
}

} // verus!
