use vstd::prelude::*;

use crate::ast::{Location, Value};
use crate::identifier::Identifier;
use crate::location::InputLocation;
use crate::term::Term;
use crate::typespec::TypeSpec;

verus! {

/// An anonymous function: one or more clauses, tried in order.
#[derive(Debug)]
pub struct Function {
    pub clauses: Vec<Clause>,
    pub location: InputLocation,
}

/// One clause of a function: its typed arguments and its body.
#[derive(Debug)]
pub struct Clause {
    pub arguments: Vec<(Identifier, TypeSpec)>,
    pub body: Vec<Term>,
    pub location: InputLocation,
}

impl Value for Function {
    type Item = Vec<Clause>;

    open spec fn item(&self) -> Vec<Clause> {
        self.clauses
    }

    fn value(self) -> (r: Vec<Clause>) {
        self.clauses
    }

    fn value_ref(&self) -> (r: &Vec<Clause>) {
        &self.clauses
    }
}

impl Location for Function {
    open spec fn loc(&self) -> InputLocation {
        self.location
    }

    fn location(&self) -> (r: &InputLocation) {
        &self.location
    }
}

impl Clause {
    pub fn arguments(&self) -> (r: &Vec<(Identifier, TypeSpec)>)
        ensures
            *r == self.arguments,
    {
        &self.arguments
    }

    pub fn body(&self) -> (r: &Vec<Term>)
        ensures
            *r == self.body,
    {
        &self.body
    }
}

impl Location for Clause {
    open spec fn loc(&self) -> InputLocation {
        self.location
    }

    fn location(&self) -> (r: &InputLocation) {
        &self.location
    }
}

} // verus!
