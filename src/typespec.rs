use vstd::prelude::*;

use crate::ast::{Location, Value};
use crate::error::ParseError;
use crate::location::InputLocation;
use crate::rule::Rule;
use crate::tree::ParseNode;
use crate::ty::{names_ty, Ty};

verus! {

/// A list of type names, as in a trait's bounds or an argument's annotation.
#[derive(Debug, Clone)]
pub struct TypeSpec {
    pub value: Vec<Ty>,
    pub location: InputLocation,
}

impl Value for TypeSpec {
    type Item = Vec<Ty>;

    open spec fn item(&self) -> Vec<Ty> {
        self.value
    }

    fn value(self) -> (r: Vec<Ty>) {
        self.value
    }

    fn value_ref(&self) -> (r: &Vec<Ty>) {
        &self.value
    }
}

impl Location for TypeSpec {
    open spec fn loc(&self) -> InputLocation {
        self.location
    }

    fn location(&self) -> (r: &InputLocation) {
        &self.location
    }
}

/// A `typespec` node whose children are all `typename` nodes.
pub open spec fn typespec_ok(n: ParseNode) -> bool {
    &&& n.rule == Rule::typespec
    &&& forall|i: int| 0 <= i < n.children.len() ==> (#[trigger] n.children@[i]).rule == Rule::typename
}

/// `s` lists, in order, the types that the children of `n` name.
pub open spec fn names_typespec(n: ParseNode, s: TypeSpec) -> bool {
    &&& s.location == n.loc()
    &&& s.value.len() == n.children.len()
    &&& forall|i: int| 0 <= i < n.children.len() ==> names_ty(n.children@[i], #[trigger] s.value@[i])
}

impl TypeSpec {
    pub fn from_node(n: &ParseNode) -> (r: Result<TypeSpec, ParseError>)
        ensures
            typespec_ok(*n) ==> (r matches Ok(s) && names_typespec(*n, s)),
            n.rule != Rule::typespec ==> r == Err::<TypeSpec, ParseError>(ParseError::fault(n)),
            !typespec_ok(*n) ==> r is Err,
            r matches Err(e) ==> e is AstGeneration,
    {
        if n.rule != Rule::typespec {
            return Err(ParseError::AstGeneration { rule: n.rule, location: n.location() });
        }
        let mut value: Vec<Ty> = Vec::new();
        let mut i: usize = 0;
        while i < n.children.len()
            invariant
                i <= n.children.len(),
                value.len() == i,
                n.rule == Rule::typespec,
                forall|j: int| 0 <= j < i ==> (#[trigger] n.children@[j]).rule == Rule::typename,
                forall|j: int| 0 <= j < i ==> names_ty(n.children@[j], #[trigger] value@[j]),
            decreases n.children.len() - i,
        {
            let t = Ty::from_node(&n.children[i])?;
            value.push(t);
            i += 1;
        }
        Ok(TypeSpec { value, location: n.location() })
    }
}

} // verus!
