use vstd::prelude::*;

use crate::ast::{Location, Value};
use crate::error::ParseError;
use crate::location::InputLocation;
use crate::rule::Rule;
use crate::tree::ParseNode;

verus! {

/// A prefix operator together with the place it was written.
#[derive(Debug, Clone, Copy, PartialEq, Eq, Structural)]
pub struct Unary {
    pub value: Operator,
    pub location: InputLocation,
}

impl Unary {
    pub fn is_arithmetic(&self) -> (r: bool)
        ensures
            r == self.value.arithmetic(),
    {
        self.value.is_arithmetic()
    }

    pub fn is_logical(&self) -> (r: bool)
        ensures
            r == !self.value.arithmetic(),
    {
        self.value.is_logical()
    }
}

/// The prefix operators of the language.
#[derive(Debug, Clone, Copy, PartialEq, Eq, Structural)]
pub enum Operator {
    LogicalNot,
    Minus,
    Plus,
}

impl Operator {
    /// Sign operators are arithmetic; negation is logical.
    pub open spec fn arithmetic(self) -> bool {
        match self {
            Operator::LogicalNot => false,
            Operator::Minus => true,
            Operator::Plus => true,
        }
    }

    pub fn is_arithmetic(&self) -> (r: bool)
        ensures
            r == self.arithmetic(),
    {
        match self {
            Operator::Minus | Operator::Plus => true,
            _ => false,
        }
    }

    pub fn is_logical(&self) -> (r: bool)
        ensures
            r == !self.arithmetic(),
    {
        match self {
            Operator::LogicalNot => true,
            _ => false,
        }
    }

    /// The operator as it is written in source text.
    pub fn symbol(&self) -> &'static str {
        match self {
            Operator::LogicalNot => "!",
            Operator::Plus => "+",
            Operator::Minus => "-",
        }
    }
}

impl Value for Unary {
    type Item = Operator;

    open spec fn item(&self) -> Operator {
        self.value
    }

    fn value(self) -> (r: Operator) {
        self.value
    }

    fn value_ref(&self) -> (r: &Operator) {
        &self.value
    }
}

impl Location for Unary {
    open spec fn loc(&self) -> InputLocation {
        self.location
    }

    fn location(&self) -> (r: &InputLocation) {
        &self.location
    }
}

/// The operator that each prefix operator rule stands for.
pub open spec fn unary_operator_of(rule: Rule) -> Option<Operator> {
    match rule {
        Rule::logical_not => Some(Operator::LogicalNot),
        Rule::minus => Some(Operator::Minus),
        Rule::plus => Some(Operator::Plus),
        _ => None,
    }
}

/// The prefix operator that an operator node denotes, at the node's span.
pub open spec fn unary_of(n: ParseNode) -> Option<Unary> {
    match unary_operator_of(n.rule) {
        Some(op) => Some(Unary { value: op, location: n.loc() }),
        None => None,
    }
}

impl Unary {
    pub fn from_node(n: &ParseNode) -> (r: Result<Unary, ParseError>)
        ensures
            match unary_of(*n) {
                Some(u) => r == Ok::<Unary, ParseError>(u),
                None => r == Err::<Unary, ParseError>(ParseError::fault(n)),
            },
    {
        let value = match n.rule {
            Rule::logical_not => Operator::LogicalNot,
            Rule::minus => Operator::Minus,
            Rule::plus => Operator::Plus,
            _ => {
                return Err(ParseError::AstGeneration { rule: n.rule, location: n.location() });
            },
        };
        Ok(Unary { value, location: n.location() })
    }
}

} // verus!
