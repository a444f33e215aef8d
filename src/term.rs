//! The syntax tree node and the one accessor per kind through which it is
//! read.

use vstd::prelude::*;

use crate::ast::Location;
use crate::atom::Atom;
use crate::binary::Binary;
use crate::boolean::Boolean;
use crate::float::Float;
use crate::function::Function;
use crate::identifier::Identifier;
use crate::integer::Integer;
use crate::local::Local;
use crate::location::InputLocation;
use crate::string::String;
use crate::ty::Ty;
use crate::typespec::TypeSpec;
use crate::unary::Unary;

verus! {

/// A node of the syntax tree: what it is, and where in the source it stands.
#[derive(Debug)]
pub struct Term {
    pub location: InputLocation,
    pub inner: Inner,
}

/// The kind of a term.
#[derive(Debug, Clone, Copy, PartialEq, Eq, Structural)]
pub enum NodeType {
    Atom,
    Boolean,
    Float,
    Integer,
    String,
    Ty,
    Array,
    Dictionary,
    Binary,
    Constructor,
    Unary,
    Call,
    Declaration,
    Function,
    If,
    Local,
    MethodCall,
    PropertyGet,
    PropertySet,
    TypeDef,
    TraitDef,
    ImplDef,
    PublicMethod,
    PublicMethodSpec,
    PrivateMethod,
    StaticMethod,
    StaticMethodSpec,
}

/// What a term holds; each kind owns its children outright.
#[derive(Debug)]
pub enum Inner {
    Array(Vec<Term>),
    Atom(Atom),
    Binary(Binary, Box<Term>, Box<Term>),
    Boolean(Boolean),
    Call(Box<Term>, Vec<Term>),
    Constructor(Ty, Vec<(Identifier, Term)>),
    Declaration(Identifier, Box<Term>),
    Float(Float),
    Function(Function),
    If(Box<Term>, Vec<Term>, Vec<Term>),
    ImplDef(Ty, Vec<Term>),
    Integer(Integer),
    Local(Local),
    Dictionary(Vec<(Term, Term)>),
    MethodCall(Box<Term>, Identifier, Vec<Term>),
    PrivateMethod(Identifier, Vec<(Identifier, TypeSpec)>, Vec<Term>),
    PropertyGet(Identifier),
    PropertySet(Vec<(Identifier, Term)>),
    PublicMethod(Identifier, Vec<(Identifier, TypeSpec)>, Vec<Term>),
    PublicMethodSpec(Identifier, Vec<(Identifier, TypeSpec)>, Option<TypeSpec>),
    StaticMethod(Identifier, Vec<(Identifier, TypeSpec)>, Vec<Term>),
    StaticMethodSpec(Identifier, Vec<(Identifier, TypeSpec)>, Option<TypeSpec>),
    String(String),
    TraitDef(Ty, Option<TypeSpec>, Vec<Term>),
    Ty(Ty),
    TypeDef(Ty, Vec<(Identifier, TypeSpec)>, Vec<Term>),
    Unary(Unary, Box<Term>),
}

/// A reference to the value inside an option, as `Option::as_ref` gives it.
pub open spec fn opt_ref<T>(o: &Option<T>) -> Option<&T> {
    match o {
        Some(x) => Some(x),
        None => None,
    }
}

impl Term {
    /// The kind of term that a payload makes.
    pub open spec fn kind(&self) -> NodeType {
        match self.inner {
            Inner::Array(..) => NodeType::Array,
            Inner::Atom(..) => NodeType::Atom,
            Inner::Binary(..) => NodeType::Binary,
            Inner::Boolean(..) => NodeType::Boolean,
            Inner::Call(..) => NodeType::Call,
            Inner::Constructor(..) => NodeType::Constructor,
            Inner::Declaration(..) => NodeType::Declaration,
            Inner::Float(..) => NodeType::Float,
            Inner::Function(..) => NodeType::Function,
            Inner::If(..) => NodeType::If,
            Inner::ImplDef(..) => NodeType::ImplDef,
            Inner::Integer(..) => NodeType::Integer,
            Inner::Local(..) => NodeType::Local,
            Inner::Dictionary(..) => NodeType::Dictionary,
            Inner::MethodCall(..) => NodeType::MethodCall,
            Inner::PrivateMethod(..) => NodeType::PrivateMethod,
            Inner::PropertyGet(..) => NodeType::PropertyGet,
            Inner::PropertySet(..) => NodeType::PropertySet,
            Inner::PublicMethod(..) => NodeType::PublicMethod,
            Inner::PublicMethodSpec(..) => NodeType::PublicMethodSpec,
            Inner::StaticMethod(..) => NodeType::StaticMethod,
            Inner::StaticMethodSpec(..) => NodeType::StaticMethodSpec,
            Inner::String(..) => NodeType::String,
            Inner::TraitDef(..) => NodeType::TraitDef,
            Inner::Ty(..) => NodeType::Ty,
            Inner::TypeDef(..) => NodeType::TypeDef,
            Inner::Unary(..) => NodeType::Unary,
        }
    }

    /// The term that applies an infix operator to two operands; it stands
    /// where the operator was written.
    pub open spec fn infix(op: Binary, lhs: Term, rhs: Term) -> Term {
        Term { location: op.location, inner: Inner::Binary(op, Box::new(lhs), Box::new(rhs)) }
    }

    pub fn create_infix(op: Binary, lhs: Term, rhs: Term) -> (r: Term)
        ensures
            r == Term::infix(op, lhs, rhs),
    {
        Term { location: op.location, inner: Inner::Binary(op, Box::new(lhs), Box::new(rhs)) }
    }

    pub fn node_type(&self) -> (r: NodeType)
        ensures
            r == self.kind(),
    {
        match self.inner {
            Inner::Array(..) => NodeType::Array,
            Inner::Atom(..) => NodeType::Atom,
            Inner::Binary(..) => NodeType::Binary,
            Inner::Boolean(..) => NodeType::Boolean,
            Inner::Call(..) => NodeType::Call,
            Inner::Constructor(..) => NodeType::Constructor,
            Inner::Declaration(..) => NodeType::Declaration,
            Inner::Float(..) => NodeType::Float,
            Inner::Function(..) => NodeType::Function,
            Inner::If(..) => NodeType::If,
            Inner::ImplDef(..) => NodeType::ImplDef,
            Inner::Integer(..) => NodeType::Integer,
            Inner::Local(..) => NodeType::Local,
            Inner::Dictionary(..) => NodeType::Dictionary,
            Inner::MethodCall(..) => NodeType::MethodCall,
            Inner::PrivateMethod(..) => NodeType::PrivateMethod,
            Inner::PropertyGet(..) => NodeType::PropertyGet,
            Inner::PropertySet(..) => NodeType::PropertySet,
            Inner::PublicMethod(..) => NodeType::PublicMethod,
            Inner::PublicMethodSpec(..) => NodeType::PublicMethodSpec,
            Inner::StaticMethod(..) => NodeType::StaticMethod,
            Inner::StaticMethodSpec(..) => NodeType::StaticMethodSpec,
            Inner::String(..) => NodeType::String,
            Inner::TraitDef(..) => NodeType::TraitDef,
            Inner::Ty(..) => NodeType::Ty,
            Inner::TypeDef(..) => NodeType::TypeDef,
            Inner::Unary(..) => NodeType::Unary,
        }
    }

    pub fn array(&self) -> (r: Option<&Vec<Term>>)
        ensures
            r == match self.inner {
                Inner::Array(v) => Some(&v),
                _ => None,
            },
    {
        match self.inner {
            Inner::Array(ref v) => Some(v),
            _ => None,
        }
    }

    pub fn atom(&self) -> (r: Option<&Atom>)
        ensures
            r == match self.inner {
                Inner::Atom(a) => Some(&a),
                _ => None,
            },
    {
        match self.inner {
            Inner::Atom(ref a) => Some(a),
            _ => None,
        }
    }

    pub fn binary(&self) -> (r: Option<(&Binary, &Term, &Term)>)
        ensures
            r == match self.inner {
                Inner::Binary(op, lhs, rhs) => Some((&op, &*lhs, &*rhs)),
                _ => None,
            },
    {
        match self.inner {
            Inner::Binary(ref op, ref lhs, ref rhs) => Some((op, &**lhs, &**rhs)),
            _ => None,
        }
    }

    pub fn boolean(&self) -> (r: Option<&Boolean>)
        ensures
            r == match self.inner {
                Inner::Boolean(b) => Some(&b),
                _ => None,
            },
    {
        match self.inner {
            Inner::Boolean(ref b) => Some(b),
            _ => None,
        }
    }

    pub fn call(&self) -> (r: Option<(&Term, &Vec<Term>)>)
        ensures
            r == match self.inner {
                Inner::Call(callee, args) => Some((&*callee, &args)),
                _ => None,
            },
    {
        match self.inner {
            Inner::Call(ref callee, ref args) => Some((&**callee, args)),
            _ => None,
        }
    }

    pub fn constructor(&self) -> (r: Option<(&Ty, &Vec<(Identifier, Term)>)>)
        ensures
            r == match self.inner {
                Inner::Constructor(ty, props) => Some((&ty, &props)),
                _ => None,
            },
    {
        match self.inner {
            Inner::Constructor(ref ty, ref props) => Some((ty, props)),
            _ => None,
        }
    }

    pub fn declaration(&self) -> (r: Option<(&Identifier, &Term)>)
        ensures
            r == match self.inner {
                Inner::Declaration(name, value) => Some((&name, &*value)),
                _ => None,
            },
    {
        match self.inner {
            Inner::Declaration(ref name, ref value) => Some((name, &**value)),
            _ => None,
        }
    }

    pub fn float(&self) -> (r: Option<&Float>)
        ensures
            r == match self.inner {
                Inner::Float(f) => Some(&f),
                _ => None,
            },
    {
        match self.inner {
            Inner::Float(ref f) => Some(f),
            _ => None,
        }
    }

    pub fn function(&self) -> (r: Option<&Function>)
        ensures
            r == match self.inner {
                Inner::Function(f) => Some(&f),
                _ => None,
            },
    {
        match self.inner {
            Inner::Function(ref f) => Some(f),
            _ => None,
        }
    }

    pub fn if_expr(&self) -> (r: Option<(&Term, &Vec<Term>, &Vec<Term>)>)
        ensures
            r == match self.inner {
                Inner::If(test, pos, neg) => Some((&*test, &pos, &neg)),
                _ => None,
            },
    {
        match self.inner {
            Inner::If(ref test, ref pos, ref neg) => Some((&**test, pos, neg)),
            _ => None,
        }
    }

    pub fn impldef(&self) -> (r: Option<(&Ty, &Vec<Term>)>)
        ensures
            r == match self.inner {
                Inner::ImplDef(ty, body) => Some((&ty, &body)),
                _ => None,
            },
    {
        match self.inner {
            Inner::ImplDef(ref ty, ref body) => Some((ty, body)),
            _ => None,
        }
    }

    pub fn integer(&self) -> (r: Option<&Integer>)
        ensures
            r == match self.inner {
                Inner::Integer(i) => Some(&i),
                _ => None,
            },
    {
        match self.inner {
            Inner::Integer(ref i) => Some(i),
            _ => None,
        }
    }

    pub fn local(&self) -> (r: Option<&Local>)
        ensures
            r == match self.inner {
                Inner::Local(l) => Some(&l),
                _ => None,
            },
    {
        match self.inner {
            Inner::Local(ref l) => Some(l),
            _ => None,
        }
    }

    pub fn map(&self) -> (r: Option<&Vec<(Term, Term)>>)
        ensures
            r == match self.inner {
                Inner::Dictionary(m) => Some(&m),
                _ => None,
            },
    {
        match self.inner {
            Inner::Dictionary(ref m) => Some(m),
            _ => None,
        }
    }

    pub fn method_call(&self) -> (r: Option<(&Term, &Identifier, &Vec<Term>)>)
        ensures
            r == match self.inner {
                Inner::MethodCall(recv, name, args) => Some((&*recv, &name, &args)),
                _ => None,
            },
    {
        match self.inner {
            Inner::MethodCall(ref recv, ref name, ref args) => Some((&**recv, name, args)),
            _ => None,
        }
    }

    pub fn private_method(&self) -> (r: Option<(&Identifier, &Vec<(Identifier, TypeSpec)>, &Vec<Term>)>)
        ensures
            r == match self.inner {
                Inner::PrivateMethod(name, args, body) => Some((&name, &args, &body)),
                _ => None,
            },
    {
        match self.inner {
            Inner::PrivateMethod(ref name, ref args, ref body) => Some((name, args, body)),
            _ => None,
        }
    }

    pub fn property_get(&self) -> (r: Option<&Identifier>)
        ensures
            r == match self.inner {
                Inner::PropertyGet(name) => Some(&name),
                _ => None,
            },
    {
        match self.inner {
            Inner::PropertyGet(ref name) => Some(name),
            _ => None,
        }
    }

    pub fn property_set(&self) -> (r: Option<&Vec<(Identifier, Term)>>)
        ensures
            r == match self.inner {
                Inner::PropertySet(vals) => Some(&vals),
                _ => None,
            },
    {
        match self.inner {
            Inner::PropertySet(ref vals) => Some(vals),
            _ => None,
        }
    }

    pub fn public_method(&self) -> (r: Option<(&Identifier, &Vec<(Identifier, TypeSpec)>, &Vec<Term>)>)
        ensures
            r == match self.inner {
                Inner::PublicMethod(name, args, body) => Some((&name, &args, &body)),
                _ => None,
            },
    {
        match self.inner {
            Inner::PublicMethod(ref name, ref args, ref body) => Some((name, args, body)),
            _ => None,
        }
    }

    pub fn public_method_spec(&self) -> (r: Option<(&Identifier, &Vec<(Identifier, TypeSpec)>, Option<&TypeSpec>)>)
        ensures
            r == match self.inner {
                Inner::PublicMethodSpec(name, args, rval) => Some((&name, &args, opt_ref(&rval))),
                _ => None,
            },
    {
        match self.inner {
            Inner::PublicMethodSpec(ref name, ref args, ref rval) => Some((name, args, rval.as_ref())),
            _ => None,
        }
    }

    pub fn static_method(&self) -> (r: Option<(&Identifier, &Vec<(Identifier, TypeSpec)>, &Vec<Term>)>)
        ensures
            r == match self.inner {
                Inner::StaticMethod(name, args, body) => Some((&name, &args, &body)),
                _ => None,
            },
    {
        match self.inner {
            Inner::StaticMethod(ref name, ref args, ref body) => Some((name, args, body)),
            _ => None,
        }
    }

    pub fn static_method_spec(&self) -> (r: Option<(&Identifier, &Vec<(Identifier, TypeSpec)>, Option<&TypeSpec>)>)
        ensures
            r == match self.inner {
                Inner::StaticMethodSpec(name, args, rval) => Some((&name, &args, opt_ref(&rval))),
                _ => None,
            },
    {
        match self.inner {
            Inner::StaticMethodSpec(ref name, ref args, ref rval) => Some((name, args, rval.as_ref())),
            _ => None,
        }
    }

    pub fn string(&self) -> (r: Option<&String>)
        ensures
            r == match self.inner {
                Inner::String(s) => Some(&s),
                _ => None,
            },
    {
        match self.inner {
            Inner::String(ref s) => Some(s),
            _ => None,
        }
    }

    pub fn traitdef(&self) -> (r: Option<(&Ty, Option<&TypeSpec>, &Vec<Term>)>)
        ensures
            r == match self.inner {
                Inner::TraitDef(ty, reqs, body) => Some((&ty, opt_ref(&reqs), &body)),
                _ => None,
            },
    {
        match self.inner {
            Inner::TraitDef(ref ty, ref reqs, ref body) => Some((ty, reqs.as_ref(), body)),
            _ => None,
        }
    }

    pub fn ty(&self) -> (r: Option<&Ty>)
        ensures
            r == match self.inner {
                Inner::Ty(t) => Some(&t),
                _ => None,
            },
    {
        match self.inner {
            Inner::Ty(ref t) => Some(t),
            _ => None,
        }
    }

    pub fn typedef(&self) -> (r: Option<(&Ty, &Vec<(Identifier, TypeSpec)>, &Vec<Term>)>)
        ensures
            r == match self.inner {
                Inner::TypeDef(ty, props, body) => Some((&ty, &props, &body)),
                _ => None,
            },
    {
        match self.inner {
            Inner::TypeDef(ref ty, ref props, ref body) => Some((ty, props, body)),
            _ => None,
        }
    }

    pub fn unary(&self) -> (r: Option<(&Unary, &Term)>)
        ensures
            r == match self.inner {
                Inner::Unary(op, operand) => Some((&op, &*operand)),
                _ => None,
            },
    {
        match self.inner {
            Inner::Unary(ref op, ref operand) => Some((op, &**operand)),
            _ => None,
        }
    }
}

impl Location for Term {
    open spec fn loc(&self) -> InputLocation {
        self.location
    }

    fn location(&self) -> (r: &InputLocation) {
        &self.location
    }
}

} // verus!
