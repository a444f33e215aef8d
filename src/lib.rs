//! Conversion of the parse tree of a small keyword-localized scripting
//! language into a typed, position-annotated syntax tree.

pub mod ast;
pub mod atom;
pub mod binary;
pub mod boolean;
pub mod convert;
pub mod error;
pub mod float;
pub mod function;
pub mod identifier;
pub mod integer;
pub mod local;
pub mod location;
pub mod precedence;
pub mod rule;
pub mod string;
pub mod term;
pub mod tree;
pub mod ty;
pub mod typespec;
pub mod unary;

pub use ast::{Location, Value};
pub use atom::Atom;
pub use binary::Binary;
pub use boolean::Boolean;
pub use convert::climb;
pub use error::ParseError;
pub use float::Float;
pub use function::{Clause, Function};
pub use identifier::Identifier;
pub use integer::Integer;
pub use local::Local;
pub use location::InputLocation;
pub use rule::Rule;
pub use term::{Inner, NodeType, Term};
pub use tree::ParseNode;
pub use ty::Ty;
pub use typespec::TypeSpec;
pub use unary::Unary;
