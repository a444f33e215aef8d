use vstd::prelude::*;

use crate::ast::{Location, Value};
use crate::error::ParseError;
use crate::location::InputLocation;
use crate::rule::Rule;
use crate::tree::ParseNode;

verus! {

/// An infix operator together with the place it was written.
#[derive(Debug, Clone, Copy, PartialEq, Eq, Structural)]
pub struct Binary {
    pub value: Operator,
    pub location: InputLocation,
}

impl Binary {
    pub fn is_arithmetic(&self) -> (r: bool)
        ensures
            r == self.value.arithmetic(),
    {
        self.value.is_arithmetic()
    }

    pub fn is_logical(&self) -> (r: bool)
        ensures
            r == !self.value.arithmetic(),
    {
        self.value.is_logical()
    }
}

/// The infix operators of the language.
#[derive(Debug, Clone, Copy, PartialEq, Eq, Structural)]
pub enum Operator {
    BitwiseAnd,
    BitwiseOr,
    BitwiseXor,
    Divide,
    Equal,
    Exponent,
    GreaterThan,
    GreaterThanOrEqual,
    LessThan,
    LessThanOrEqual,
    LogicalAnd,
    LogicalOr,
    Minus,
    Modulus,
    Multiply,
    NotEqual,
    Plus,
    ShiftLeft,
    ShiftRight,
}

impl Operator {
    /// Arithmetic operators compute a number; every other operator is logical.
    pub open spec fn arithmetic(self) -> bool {
        match self {
            Operator::BitwiseAnd => true,
            Operator::BitwiseOr => true,
            Operator::BitwiseXor => true,
            Operator::Divide => true,
            Operator::Equal => false,
            Operator::Exponent => true,
            Operator::GreaterThan => false,
            Operator::GreaterThanOrEqual => false,
            Operator::LessThan => false,
            Operator::LessThanOrEqual => false,
            Operator::LogicalAnd => false,
            Operator::LogicalOr => false,
            Operator::Minus => true,
            Operator::Modulus => true,
            Operator::Multiply => true,
            Operator::NotEqual => false,
            Operator::Plus => true,
            Operator::ShiftLeft => true,
            Operator::ShiftRight => true,
        }
    }

    /// Binding power, from 1 (loosest, `||`) to 10 (tightest, `**`).
    pub open spec fn tier(self) -> nat {
        match self {
            Operator::BitwiseAnd => 6,
            Operator::BitwiseOr => 5,
            Operator::BitwiseXor => 5,
            Operator::Divide => 9,
            Operator::Equal => 3,
            Operator::Exponent => 10,
            Operator::GreaterThan => 4,
            Operator::GreaterThanOrEqual => 4,
            Operator::LessThan => 4,
            Operator::LessThanOrEqual => 4,
            Operator::LogicalAnd => 2,
            Operator::LogicalOr => 1,
            Operator::Minus => 8,
            Operator::Modulus => 9,
            Operator::Multiply => 9,
            Operator::NotEqual => 3,
            Operator::Plus => 8,
            Operator::ShiftLeft => 7,
            Operator::ShiftRight => 7,
        }
    }

    /// Operators of tiers 3 (`==`, `!=`) and 10 (`**`) group to the right; all
    /// others group to the left.
    pub open spec fn groups_right(self) -> bool {
        self.tier() == 3 || self.tier() == 10
    }

    pub fn is_arithmetic(&self) -> (r: bool)
        ensures
            r == self.arithmetic(),
    {
        match self {
            Operator::BitwiseAnd | Operator::BitwiseOr | Operator::BitwiseXor | Operator::Divide
            | Operator::Exponent | Operator::Minus | Operator::Modulus | Operator::Multiply
            | Operator::Plus | Operator::ShiftLeft | Operator::ShiftRight => true,
            _ => false,
        }
    }

    pub fn is_logical(&self) -> (r: bool)
        ensures
            r == !self.arithmetic(),
    {
        match self {
            Operator::Equal | Operator::GreaterThan | Operator::GreaterThanOrEqual
            | Operator::LessThan | Operator::LessThanOrEqual | Operator::LogicalAnd
            | Operator::LogicalOr | Operator::NotEqual => true,
            _ => false,
        }
    }

    pub fn precedence(&self) -> (r: u8)
        ensures
            r == self.tier(),
    {
        match self {
            Operator::LogicalOr => 1,
            Operator::LogicalAnd => 2,
            Operator::Equal | Operator::NotEqual => 3,
            Operator::GreaterThanOrEqual | Operator::LessThanOrEqual | Operator::GreaterThan
            | Operator::LessThan => 4,
            Operator::BitwiseXor | Operator::BitwiseOr => 5,
            Operator::BitwiseAnd => 6,
            Operator::ShiftRight | Operator::ShiftLeft => 7,
            Operator::Plus | Operator::Minus => 8,
            Operator::Modulus | Operator::Divide | Operator::Multiply => 9,
            Operator::Exponent => 10,
        }
    }

    pub fn is_right_grouping(&self) -> (r: bool)
        ensures
            r == self.groups_right(),
    {
        let p = self.precedence();
        p == 3 || p == 10
    }

    /// The operator as it is written in source text.
    pub fn symbol(&self) -> &'static str {
        match self {
            Operator::BitwiseAnd => "&",
            Operator::BitwiseOr => "|",
            Operator::BitwiseXor => "^",
            Operator::Divide => "/",
            Operator::Equal => "==",
            Operator::Exponent => "**",
            Operator::GreaterThan => ">",
            Operator::GreaterThanOrEqual => ">=",
            Operator::LessThan => "<",
            Operator::LessThanOrEqual => "<=",
            Operator::LogicalAnd => "&&",
            Operator::LogicalOr => "||",
            Operator::Minus => "-",
            Operator::Modulus => "%",
            Operator::Multiply => "*",
            Operator::NotEqual => "!=",
            Operator::Plus => "+",
            Operator::ShiftLeft => "<<",
            Operator::ShiftRight => ">>",
        }
    }
}

/// The operator that each operator rule stands for.
pub open spec fn binary_operator_of(rule: Rule) -> Option<Operator> {
    match rule {
        Rule::bitwise_and => Some(Operator::BitwiseAnd),
        Rule::bitwise_or => Some(Operator::BitwiseOr),
        Rule::bitwise_xor => Some(Operator::BitwiseXor),
        Rule::divide => Some(Operator::Divide),
        Rule::equal => Some(Operator::Equal),
        Rule::exponent => Some(Operator::Exponent),
        Rule::greater_than => Some(Operator::GreaterThan),
        Rule::greater_than_or_equal => Some(Operator::GreaterThanOrEqual),
        Rule::less_than => Some(Operator::LessThan),
        Rule::less_than_or_equal => Some(Operator::LessThanOrEqual),
        Rule::logical_and => Some(Operator::LogicalAnd),
        Rule::logical_or => Some(Operator::LogicalOr),
        Rule::minus => Some(Operator::Minus),
        Rule::modulus => Some(Operator::Modulus),
        Rule::multiply => Some(Operator::Multiply),
        Rule::not_equal => Some(Operator::NotEqual),
        Rule::plus => Some(Operator::Plus),
        Rule::shift_left => Some(Operator::ShiftLeft),
        Rule::shift_right => Some(Operator::ShiftRight),
        _ => None,
    }
}

impl Value for Binary {
    type Item = Operator;

    open spec fn item(&self) -> Operator {
        self.value
    }

    fn value(self) -> (r: Operator) {
        self.value
    }

    fn value_ref(&self) -> (r: &Operator) {
        &self.value
    }
}

impl Location for Binary {
    open spec fn loc(&self) -> InputLocation {
        self.location
    }

    fn location(&self) -> (r: &InputLocation) {
        &self.location
    }
}

/// The operator that an operator node denotes, at the node's span.
pub open spec fn binary_of(n: ParseNode) -> Option<Binary> {
    match binary_operator_of(n.rule) {
        Some(op) => Some(Binary { value: op, location: n.loc() }),
        None => None,
    }
}

impl Binary {
    pub fn from_node(n: &ParseNode) -> (r: Result<Binary, ParseError>)
        ensures
            match binary_of(*n) {
                Some(b) => r == Ok::<Binary, ParseError>(b),
                None => r == Err::<Binary, ParseError>(ParseError::fault(n)),
            },
    {
        let value = match n.rule {
            Rule::bitwise_and => Operator::BitwiseAnd,
            Rule::bitwise_or => Operator::BitwiseOr,
            Rule::bitwise_xor => Operator::BitwiseXor,
            Rule::divide => Operator::Divide,
            Rule::equal => Operator::Equal,
            Rule::exponent => Operator::Exponent,
            Rule::greater_than => Operator::GreaterThan,
            Rule::greater_than_or_equal => Operator::GreaterThanOrEqual,
            Rule::less_than => Operator::LessThan,
            Rule::less_than_or_equal => Operator::LessThanOrEqual,
            Rule::logical_and => Operator::LogicalAnd,
            Rule::logical_or => Operator::LogicalOr,
            Rule::minus => Operator::Minus,
            Rule::modulus => Operator::Modulus,
            Rule::multiply => Operator::Multiply,
            Rule::not_equal => Operator::NotEqual,
            Rule::plus => Operator::Plus,
            Rule::shift_left => Operator::ShiftLeft,
            Rule::shift_right => Operator::ShiftRight,
            _ => {
                return Err(ParseError::AstGeneration { rule: n.rule, location: n.location() });
            },
        };
        Ok(Binary { value, location: n.location() })
    }
}

} // verus!
