//! The term builder: what each parse tree node denotes (`denotes`), and the
//! conversion that finds it, or reports that the node cannot be converted.

use vstd::prelude::*;

use crate::atom::{names_atom, Atom};
use crate::binary::{binary_of, Binary};
use crate::boolean::{boolean_of, Boolean};
use crate::error::ParseError;
use crate::float::Float;
use crate::function::{Clause, Function};
use crate::identifier::{identifier_text, names_identifier, Identifier};
use crate::integer::{integer_of, Integer};
use crate::local::Local;
use crate::precedence::{build_infix, climbed};
use crate::rule::Rule;
use crate::string::{string_ok, String};
use crate::term::{Inner, Term};
use crate::tree::ParseNode;
use crate::ty::{names_ty, Ty};
use crate::typespec::{names_typespec, typespec_ok, TypeSpec};
use crate::unary::{unary_of, Unary};

verus! {

broadcast use vstd::std_specs::vec::axiom_vec_decreases_to_view, vstd::seq::axiom_seq_index_decreases;

/// A child that wraps one argument of a call.
pub open spec fn is_argument(c: ParseNode) -> bool {
    c.rule == Rule::call_argument && c.children.len() > 0
}

/// The index of the first child at or after `i` that is not a call argument.
pub open spec fn arguments_end(n: ParseNode, i: int) -> int
    decreases n.children.len() - i,
{
    if 0 <= i < n.children.len() && n.children@[i].rule == Rule::call_argument {
        arguments_end(n, i + 1)
    } else {
        i
    }
}

proof fn lemma_arguments_end(n: ParseNode, i: int)
    requires
        0 <= i <= n.children.len(),
    ensures
        i <= arguments_end(n, i) <= n.children.len(),
        forall|q: int| i <= q < arguments_end(n, i) ==> (#[trigger] n.children@[q]).rule == Rule::call_argument,
        arguments_end(n, i) < n.children.len() ==> n.children@[arguments_end(n, i)].rule
            != Rule::call_argument,
    decreases n.children.len() - i,
{
    if i < n.children.len() && n.children@[i].rule == Rule::call_argument {
        lemma_arguments_end(n, i + 1);
    }
}

/// `p` is a typed argument, a name and its type list, that spells `a`.
pub open spec fn names_typed_argument(p: ParseNode, a: (Identifier, TypeSpec)) -> bool {
    &&& p.children.len() >= 2
    &&& names_identifier(p.children@[0], a.0)
    &&& typespec_ok(p.children@[1])
    &&& names_typespec(p.children@[1], a.1)
}

/// `args` are, in order, the typed arguments that the children of `list` spell.
pub open spec fn names_typed_arguments(list: ParseNode, args: Seq<(Identifier, TypeSpec)>) -> bool {
    &&& args.len() == list.children.len()
    &&& forall|i: int| #![trigger args[i]] 0 <= i < args.len() ==> names_typed_argument(list.children@[i], args[i])
}

/// `ts` are, in order, the terms that the children of `block` denote.
pub open spec fn denotes_all(block: ParseNode, ts: Seq<Term>) -> bool
    decreases block, 1nat, 0nat,
{
    &&& ts.len() == block.children.len()
    &&& forall|i: int| #![trigger ts[i]] 0 <= i < ts.len() ==> denotes(block.children@[i], ts[i])
}

/// `c` is a call argument whose content denotes `t`.
pub open spec fn denotes_argument(c: ParseNode, t: Term) -> bool
    decreases c, 5nat, 0nat,
{
    is_argument(c) && denotes(c.children@[0], t)
}

/// The children `from..to` of `n` are call arguments whose contents denote `args`.
pub open spec fn denotes_arguments(n: ParseNode, from: int, to: int, args: Seq<Term>) -> bool
    decreases n, 1nat, 0nat,
{
    &&& 0 <= from <= to <= n.children.len()
    &&& args.len() == to - from
    &&& forall|q: int| #![trigger args[q]]
        0 <= q < args.len() ==> denotes_argument(n.children@[from + q], args[q])
}

/// `p` is a name/value pair that denotes `prop`; when `tagged`, it is a
/// `constructor_property` node.
pub open spec fn denotes_property(p: ParseNode, prop: (Identifier, Term), tagged: bool) -> bool
    decreases p, 5nat, 0nat,
{
    &&& tagged ==> p.rule == Rule::constructor_property
    &&& p.children.len() >= 2
    &&& names_identifier(p.children@[0], prop.0)
    &&& denotes(p.children@[1], prop.1)
}

/// The children of `n` from `from` on are name/value pairs that denote
/// `props`.
pub open spec fn denotes_properties(
    n: ParseNode,
    from: int,
    props: Seq<(Identifier, Term)>,
    tagged: bool,
) -> bool
    decreases n, 1nat, 0nat,
{
    &&& 0 <= from <= n.children.len()
    &&& props.len() == n.children.len() - from
    &&& forall|q: int| #![trigger props[q]]
        0 <= q < props.len() ==> denotes_property(n.children@[from + q], props[q], tagged)
}

/// A map key: a bare keyword is read as an atom; any other key is a term.
pub open spec fn denotes_key(k: ParseNode, t: Term) -> bool
    decreases k, 5nat, 0nat,
{
    if k.rule == Rule::keyword {
        t.location == k.loc() && (t.inner matches Inner::Atom(a) && names_atom(k, a))
    } else {
        denotes(k, t)
    }
}

/// `p` is a key/value pair that denotes `entry`.
pub open spec fn denotes_entry(p: ParseNode, entry: (Term, Term)) -> bool
    decreases p, 6nat, 0nat,
{
    &&& p.children.len() >= 2
    &&& denotes_key(p.children@[0], entry.0)
    &&& denotes(p.children@[1], entry.1)
}

/// The children of a map node are key/value pairs that denote `entries`.
pub open spec fn denotes_entries(n: ParseNode, entries: Seq<(Term, Term)>) -> bool
    decreases n, 1nat, 0nat,
{
    &&& entries.len() == n.children.len()
    &&& forall|q: int| #![trigger entries[q]]
        0 <= q < entries.len() ==> denotes_entry(n.children@[q], entries[q])
}

/// `p` is a function clause node that denotes `clause`.
pub open spec fn denotes_clause(p: ParseNode, clause: Clause) -> bool
    decreases p, 5nat, 0nat,
{
    &&& p.rule == Rule::function_clause
    &&& p.children.len() >= 2
    &&& names_typed_arguments(p.children@[0], clause.arguments@)
    &&& denotes_all(p.children@[1], clause.body@)
    &&& clause.location == p.loc()
}

/// The children of a function node are the clauses `clauses`.
pub open spec fn denotes_clauses(n: ParseNode, clauses: Seq<Clause>) -> bool
    decreases n, 1nat, 0nat,
{
    &&& clauses.len() == n.children.len()
    &&& forall|q: int| #![trigger clauses[q]]
        0 <= q < clauses.len() ==> denotes_clause(n.children@[q], clauses[q])
}

/// `f` is the function that the `function` node `n` denotes: one clause per
/// child, and the node's span.
pub open spec fn denotes_function(n: ParseNode, f: Function) -> bool
    decreases n, 1nat, 1nat,
{
    n.rule == Rule::function && f.location == n.loc() && denotes_clauses(n, f.clauses@)
}

/// After the arguments that end at `j`, another method name follows.
pub open spec fn chain_goes_on(n: ParseNode, j: int) -> bool {
    0 <= j < n.children.len() && n.children@[j].rule == Rule::ident
}

/// The children at which the method names of a chain stand, from child `i`
/// on: each name is followed by its call arguments, and the chain goes on
/// while another plain identifier follows them.
pub open spec fn chain_starts(n: ParseNode, i: int) -> Seq<int>
    decreases n.children.len() - i,
    via chain_starts_decreases
{
    if 0 <= i < n.children.len() {
        let j = arguments_end(n, i + 1);
        if chain_goes_on(n, j) {
            seq![i] + chain_starts(n, j)
        } else {
            seq![i]
        }
    } else {
        Seq::empty()
    }
}

#[via_fn]
proof fn chain_starts_decreases(n: ParseNode, i: int) {
    if 0 <= i < n.children.len() {
        lemma_arguments_end(n, i + 1);
    }
}

/// `t` is what the first `k` method calls of a chain whose names stand at
/// `starts` make: the receiver, child 0, when `k` is 0, and otherwise the
/// `k`-th call made on what the calls before it make. Each call stands where
/// the receiver stands.
pub open spec fn chain_upto(n: ParseNode, starts: Seq<int>, k: int, t: Term) -> bool
    decreases n, 2nat, k,
{
    if k <= 0 {
        n.children.len() > 0 && denotes(n.children@[0], t)
    } else {
        let i = starts[k - 1];
        &&& 0 <= i < n.children.len()
        &&& t.inner matches Inner::MethodCall(r, name, args) && t.location == r.location
            && names_identifier(n.children@[i], name) && denotes_arguments(
            n,
            i + 1,
            arguments_end(n, i + 1),
            args@,
        ) && chain_upto(n, starts, k - 1, *r)
    }
}

/// The method segment whose name stands at child `i` can be converted.
pub open spec fn segment_ok(n: ParseNode, i: int) -> bool {
    &&& 0 <= i < n.children.len()
    &&& identifier_text(n.children@[i].rule, n.children@[i].text@) is Some
    &&& exists|args: Seq<Term>| #[trigger] denotes_arguments(n, i + 1, arguments_end(n, i + 1), args)
}

proof fn lemma_chain_starts(n: ParseNode, i: int, m: int)
    requires
        0 <= m < chain_starts(n, i).len(),
    ensures
        0 <= i,
        0 <= chain_starts(n, i)[m] < n.children.len(),
        m == 0 ==> chain_starts(n, i)[m] == i,
        chain_goes_on(n, arguments_end(n, chain_starts(n, i)[m] + 1)) <==> m + 1 < chain_starts(n, i).len(),
        m + 1 < chain_starts(n, i).len() ==> chain_starts(n, i)[m + 1] == arguments_end(
            n,
            chain_starts(n, i)[m] + 1,
        ),
    decreases n.children.len() - i,
{
    lemma_arguments_end(n, i + 1);
    let j = arguments_end(n, i + 1);
    if chain_goes_on(n, j) {
        let rest = chain_starts(n, j);
        assert(chain_starts(n, i) == seq![i] + rest);
        lemma_arguments_end(n, j + 1);
        assert(rest.len() > 0);
        if m > 0 {
            lemma_chain_starts(n, j, m - 1);
        } else {
            lemma_chain_starts(n, j, 0);
        }
    }
}

proof fn lemma_chain_valid(n: ParseNode, starts: Seq<int>, k: int, t: Term)
    requires
        chain_upto(n, starts, k, t),
    ensures
        n.children.len() > 0,
        exists|r: Term| denotes(n.children@[0], r),
        forall|m: int| 0 <= m < k ==> segment_ok(n, #[trigger] starts[m]),
    decreases k,
{
    if k <= 0 {
        assert(denotes(n.children@[0], t));
    } else {
        if let Inner::MethodCall(r, name, args) = t.inner {
            let i = starts[k - 1];
            assert(denotes_arguments(n, i + 1, arguments_end(n, i + 1), args@));
            lemma_chain_valid(n, starts, k - 1, *r);
            assert forall|m: int| 0 <= m < k implies segment_ok(n, #[trigger] starts[m]) by {
                if m == k - 1 {
                    assert(segment_ok(n, i));
                }
            }
        }
    }
}

/// The operators of an infix node: its children at odd positions.
pub open spec fn infix_ops(n: ParseNode) -> Seq<Binary> {
    Seq::new((n.children.len() / 2) as nat, |i: int| binary_of(n.children@[2 * i + 1])->Some_0)
}

/// An infix node alternates operands and operators, starting and ending with
/// an operand.
pub open spec fn infix_shape(n: ParseNode) -> bool {
    &&& n.children.len() % 2 == 1
    &&& forall|i: int| 0 <= i < n.children.len() / 2 ==> (#[trigger] binary_of(n.children@[2 * i + 1])) is Some
}

/// `t` is the term that the parse tree node `n` denotes.
pub open spec fn denotes(n: ParseNode, t: Term) -> bool
    decreases n, 4nat, 0nat,
{
    let c = n.children@;
    let here = t.location == n.loc();
    match n.rule {
        Rule::array => here && (t.inner matches Inner::Array(v) && denotes_all(n, v@)),
        Rule::atom => here && (t.inner matches Inner::Atom(a) && names_atom(n, a)),
        Rule::boolean => here && (t.inner matches Inner::Boolean(b) && boolean_of(n) == Ok::<
            Boolean,
            ParseError,
        >(b)),
        Rule::call_local => here && c.len() >= 1 && (t.inner matches Inner::Call(callee, args)
            && denotes(c[0], *callee) && denotes_arguments(n, 1, c.len() as int, args@)),
        Rule::call_method => chain_starts(n, 1).len() > 0 && chain_upto(
            n,
            chain_starts(n, 1),
            chain_starts(n, 1).len() as int,
            t,
        ),
        Rule::typename => here && (t.inner matches Inner::Ty(ty) && names_ty(n, ty)),
        Rule::constructor => here && c.len() >= 1 && (t.inner matches Inner::Constructor(ty, props)
            && names_ty(c[0], ty) && denotes_properties(n, 1, props@, true)),
        Rule::declaration => here && c.len() >= 3 && c[1].rule == Rule::assign && (
        t.inner matches Inner::Declaration(id, value) && names_identifier(c[0], id) && denotes(
            c[2],
            *value,
        )),
        Rule::defprivatemethod => here && c.len() >= 3 && (t.inner matches Inner::PrivateMethod(
            name,
            args,
            body,
        ) && names_identifier(c[0], name) && names_typed_arguments(c[1], args@) && denotes_all(
            c[2],
            body@,
        )),
        Rule::defpublicmethod => here && c.len() >= 3 && (t.inner matches Inner::PublicMethod(
            name,
            args,
            body,
        ) && names_identifier(c[0], name) && names_typed_arguments(c[1], args@) && denotes_all(
            c[2],
            body@,
        )),
        Rule::defstaticmethod => here && c.len() >= 3 && (t.inner matches Inner::StaticMethod(
            name,
            args,
            body,
        ) && names_identifier(c[0], name) && names_typed_arguments(c[1], args@) && denotes_all(
            c[2],
            body@,
        )),
        Rule::defpublicspec => here && c.len() >= 2 && (t.inner matches Inner::PublicMethodSpec(
            name,
            args,
            rval,
        ) && names_identifier(c[0], name) && names_typed_arguments(c[1], args@)
            && returns_spec(n, name, rval)),
        Rule::defstaticspec => here && c.len() >= 2 && (t.inner matches Inner::StaticMethodSpec(
            name,
            args,
            rval,
        ) && names_identifier(c[0], name) && names_typed_arguments(c[1], args@)
            && returns_spec(n, name, rval)),
        Rule::float => here && (t.inner matches Inner::Float(f) && f.value@ == n.text@
            && f.location == n.loc()),
        Rule::function => here && (t.inner matches Inner::Function(f) && denotes_function(n, f)),
        Rule::if_expression => here && c.len() >= 2 && (t.inner matches Inner::If(test, pos, neg)
            && denotes(c[0], *test) && denotes_all(c[1], pos@) && if c.len() >= 3 {
            denotes_all(c[2], neg@)
        } else {
            neg@.len() == 0
        }),
        Rule::impldef => here && c.len() >= 2 && (t.inner matches Inner::ImplDef(ty, body)
            && names_ty(c[0], ty) && denotes_all(c[1], body@)),
        Rule::infix | Rule::instance_infix => infix_shape(n) && exists|ts: Seq<Term>|
            #![trigger climbed(ts, infix_ops(n))]
            ts.len() == c.len() / 2 + 1 && (forall|i: int| #![trigger ts[i]]
                0 <= i < ts.len() ==> denotes(c[2 * i], ts[i])) && t == climbed(
                ts,
                infix_ops(n),
            ),
        Rule::integer => here && (t.inner matches Inner::Integer(i) && integer_of(n) == Some(i)),
        Rule::local => here && (t.inner matches Inner::Local(l) && l.value@ == n.text@
            && l.location == n.loc()),
        Rule::map => here && (t.inner matches Inner::Dictionary(m) && denotes_entries(n, m@)),
        Rule::property_get => here && (t.inner matches Inner::PropertyGet(id) && names_identifier(
            n,
            id,
        )),
        Rule::property_set => here && (t.inner matches Inner::PropertySet(vals)
            && denotes_properties(n, 0, vals@, false)),
        Rule::string => here && (t.inner matches Inner::String(s) && string_ok(n) && s.value@
            == c[0].text@ && s.location == n.loc()),
        Rule::unary => here && c.len() >= 2 && (t.inner matches Inner::Unary(u, operand)
            && unary_of(c[0]) == Some(u) && denotes(c[1], *operand)),
        Rule::traitdef => here && c.len() >= 3 && (t.inner matches Inner::TraitDef(ty, reqs, body)
            && names_ty(c[0], ty) && denotes_all(c[2], body@) && if c[1].children.len() > 0 {
            typespec_ok(c[1].children@[0]) && (reqs matches Some(ts) && names_typespec(
                c[1].children@[0],
                ts,
            ))
        } else {
            reqs is None
        }),
        Rule::typedef => here && c.len() >= 3 && (t.inner matches Inner::TypeDef(ty, props, body)
            && names_ty(c[0], ty) && names_typed_arguments(c[1], props@) && denotes_all(
            c[2],
            body@,
        )),
        _ => false,
    }
}

/// The declared result of a method signature: none for a predicate name,
/// otherwise the type list inside the third child.
pub open spec fn returns_spec(n: ParseNode, name: Identifier, rval: Option<TypeSpec>) -> bool {
    if name.has_predicate {
        rval is None
    } else {
        &&& n.children.len() >= 3
        &&& n.children@[2].children.len() > 0
        &&& typespec_ok(n.children@[2].children@[0])
        &&& rval matches Some(ts) && names_typespec(n.children@[2].children@[0], ts)
    }
}


impl Term {
    /// Converts a parse tree node into the term it denotes.
    #[verifier::spinoff_prover]
    pub fn from_node(n: &ParseNode) -> (r: Result<Term, ParseError>)
        ensures
            r matches Ok(t) ==> denotes(*n, t),
            r is Err ==> !exists|t: Term| denotes(*n, t),
            r matches Err(e) ==> e is AstGeneration,
        decreases *n, 4nat, 0nat,
    {
        let len = n.children.len();
        let here = n.location();
        match n.rule {
            Rule::array => {
                let v = match Term::from_children(n) {
                    Ok(x) => x,
                    Err(e) => {
                        proof {
                            assert forall|t: Term| !denotes(*n, t) by {
                                if denotes(*n, t) {
                                    if let Inner::Array(v) = t.inner { assert(denotes_all(*n, v@)); }
                                }
                            }
                        }
                        return Err(e);
                    },
                };
                Ok(Term { location: here, inner: Inner::Array(v) })
            },
            Rule::atom => {
                let a = Atom::from_node(n)?;
                Ok(Term { location: here, inner: Inner::Atom(a) })
            },
            Rule::boolean => {
                let b = Boolean::from_node(n)?;
                Ok(Term { location: here, inner: Inner::Boolean(b) })
            },
            Rule::call_local => {
                if len == 0 {
                    return Err(ParseError::at(n));
                }
                let callee = match Term::from_node(&n.children[0]) {
                    Ok(x) => x,
                    Err(e) => {
                        proof {
                            assert forall|t: Term| !denotes(*n, t) by {
                                if denotes(*n, t) {
                                    if let Inner::Call(callee, _) = t.inner { assert(denotes(n.children@[0], *callee)); }
                                }
                            }
                        }
                        return Err(e);
                    },
                };
                let args = match Term::arguments_from(n, 1, len) {
                    Ok(x) => x,
                    Err(e) => {
                        proof {
                            assert forall|t: Term| !denotes(*n, t) by {
                                if denotes(*n, t) {
                                    if let Inner::Call(_, args) = t.inner { assert(denotes_arguments(*n, 1, len as int, args@)); }
                                }
                            }
                        }
                        return Err(e);
                    },
                };
                Ok(Term { location: here, inner: Inner::Call(Box::new(callee), args) })
            },
            Rule::call_method => Term::unroll_method_call(n),
            Rule::typename => {
                let ty = Ty::from_node(n)?;
                Ok(Term { location: here, inner: Inner::Ty(ty) })
            },
            Rule::constructor => {
                if len == 0 {
                    return Err(ParseError::at(n));
                }
                let ty = Ty::from_node(&n.children[0])?;
                let props = match Term::properties_from(n, 1, true) {
                    Ok(x) => x,
                    Err(e) => {
                        proof {
                            assert forall|t: Term| !denotes(*n, t) by {
                                if denotes(*n, t) {
                                    if let Inner::Constructor(_, props) = t.inner { assert(denotes_properties(*n, 1, props@, true)); }
                                }
                            }
                        }
                        return Err(e);
                    },
                };
                Ok(Term { location: here, inner: Inner::Constructor(ty, props) })
            },
            Rule::declaration => {
                if len < 3 || n.children[1].rule != Rule::assign {
                    return Err(ParseError::at(n));
                }
                let id = Identifier::from_node(&n.children[0])?;
                let value = match Term::from_node(&n.children[2]) {
                    Ok(x) => x,
                    Err(e) => {
                        proof {
                            assert forall|t: Term| !denotes(*n, t) by {
                                if denotes(*n, t) {
                                    if let Inner::Declaration(_, value) = t.inner { assert(denotes(n.children@[2], *value)); }
                                }
                            }
                        }
                        return Err(e);
                    },
                };
                Ok(Term { location: here, inner: Inner::Declaration(id, Box::new(value)) })
            },
            Rule::defprivatemethod | Rule::defpublicmethod | Rule::defstaticmethod => {
                if len < 3 {
                    return Err(ParseError::at(n));
                }
                let name = Identifier::from_node(&n.children[0])?;
                let args = Term::typed_arguments(&n.children[1])?;
                let body = match Term::from_children(&n.children[2]) {
                    Ok(x) => x,
                    Err(e) => {
                        proof {
                            assert forall|t: Term| !denotes(*n, t) by {
                                if denotes(*n, t) {
                                    match t.inner {
                                        Inner::PrivateMethod(_, _, body) => { assert(denotes_all(n.children@[2], body@)); },
                                        Inner::PublicMethod(_, _, body) => { assert(denotes_all(n.children@[2], body@)); },
                                        Inner::StaticMethod(_, _, body) => { assert(denotes_all(n.children@[2], body@)); },
                                        _ => {},
                                    }
                                }
                            }
                        }
                        return Err(e);
                    },
                };
                let inner = match n.rule {
                    Rule::defprivatemethod => Inner::PrivateMethod(name, args, body),
                    Rule::defpublicmethod => Inner::PublicMethod(name, args, body),
                    _ => Inner::StaticMethod(name, args, body),
                };
                Ok(Term { location: here, inner })
            },
            Rule::defpublicspec | Rule::defstaticspec => {
                if len < 2 {
                    return Err(ParseError::at(n));
                }
                let name = Identifier::from_node(&n.children[0])?;
                let args = Term::typed_arguments(&n.children[1])?;
                let rval = if name.has_predicate() {
                    None
                } else {
                    if len < 3 || n.children[2].children.len() == 0 {
                        return Err(ParseError::at(n));
                    }
                    Some(TypeSpec::from_node(&n.children[2].children[0])?)
                };
                let inner = match n.rule {
                    Rule::defpublicspec => Inner::PublicMethodSpec(name, args, rval),
                    _ => Inner::StaticMethodSpec(name, args, rval),
                };
                Ok(Term { location: here, inner })
            },
            Rule::float => {
                let f = Float::from_node(n)?;
                Ok(Term { location: here, inner: Inner::Float(f) })
            },
            Rule::function => {
                let f = match Function::from_node(n) {
                    Ok(x) => x,
                    Err(e) => {
                        proof {
                            assert forall|t: Term| !denotes(*n, t) by {
                                if denotes(*n, t) {
                                    if let Inner::Function(f) = t.inner {
                                        assert(denotes_function(*n, f));
                                    }
                                }
                            }
                        }
                        return Err(e);
                    },
                };
                Ok(Term { location: here, inner: Inner::Function(f) })
            },
            Rule::if_expression => {
                if len < 2 {
                    return Err(ParseError::at(n));
                }
                let test = match Term::from_node(&n.children[0]) {
                    Ok(x) => x,
                    Err(e) => {
                        proof {
                            assert forall|t: Term| !denotes(*n, t) by {
                                if denotes(*n, t) {
                                    if let Inner::If(test, _, _) = t.inner { assert(denotes(n.children@[0], *test)); }
                                }
                            }
                        }
                        return Err(e);
                    },
                };
                let pos = match Term::from_children(&n.children[1]) {
                    Ok(x) => x,
                    Err(e) => {
                        proof {
                            assert forall|t: Term| !denotes(*n, t) by {
                                if denotes(*n, t) {
                                    if let Inner::If(_, pos, _) = t.inner { assert(denotes_all(n.children@[1], pos@)); }
                                }
                            }
                        }
                        return Err(e);
                    },
                };
                let neg = if len >= 3 {
                    match Term::from_children(&n.children[2]) {
                        Ok(x) => x,
                        Err(e) => {
                            proof {
                                assert forall|t: Term| !denotes(*n, t) by {
                                    if denotes(*n, t) {
                                        if let Inner::If(_, _, neg) = t.inner { assert(denotes_all(n.children@[2], neg@)); }
                                    }
                                }
                            }
                            return Err(e);
                        },
                    }
                } else {
                    Vec::new()
                };
                Ok(Term { location: here, inner: Inner::If(Box::new(test), pos, neg) })
            },
            Rule::impldef => {
                if len < 2 {
                    return Err(ParseError::at(n));
                }
                let ty = Ty::from_node(&n.children[0])?;
                let body = match Term::from_children(&n.children[1]) {
                    Ok(x) => x,
                    Err(e) => {
                        proof {
                            assert forall|t: Term| !denotes(*n, t) by {
                                if denotes(*n, t) {
                                    if let Inner::ImplDef(_, body) = t.inner { assert(denotes_all(n.children@[1], body@)); }
                                }
                            }
                        }
                        return Err(e);
                    },
                };
                Ok(Term { location: here, inner: Inner::ImplDef(ty, body) })
            },
            Rule::infix | Rule::instance_infix => climb(n),
            Rule::integer => {
                let i = Integer::from_node(n)?;
                Ok(Term { location: here, inner: Inner::Integer(i) })
            },
            Rule::local => {
                let l = Local::from_node(n)?;
                Ok(Term { location: here, inner: Inner::Local(l) })
            },
            Rule::map => {
                let entries = match Term::entries_from(n) {
                    Ok(x) => x,
                    Err(e) => {
                        proof {
                            assert forall|t: Term| !denotes(*n, t) by {
                                if denotes(*n, t) {
                                    if let Inner::Dictionary(m) = t.inner { assert(denotes_entries(*n, m@)); }
                                }
                            }
                        }
                        return Err(e);
                    },
                };
                Ok(Term { location: here, inner: Inner::Dictionary(entries) })
            },
            Rule::property_get => {
                let id = Identifier::from_node(n)?;
                Ok(Term { location: here, inner: Inner::PropertyGet(id) })
            },
            Rule::property_set => {
                let vals = match Term::properties_from(n, 0, false) {
                    Ok(x) => x,
                    Err(e) => {
                        proof {
                            assert forall|t: Term| !denotes(*n, t) by {
                                if denotes(*n, t) {
                                    if let Inner::PropertySet(vals) = t.inner { assert(denotes_properties(*n, 0, vals@, false)); }
                                }
                            }
                        }
                        return Err(e);
                    },
                };
                Ok(Term { location: here, inner: Inner::PropertySet(vals) })
            },
            Rule::string => {
                let s = String::from_node(n)?;
                Ok(Term { location: here, inner: Inner::String(s) })
            },
            Rule::unary => {
                if len < 2 {
                    return Err(ParseError::at(n));
                }
                let u = Unary::from_node(&n.children[0])?;
                let operand = match Term::from_node(&n.children[1]) {
                    Ok(x) => x,
                    Err(e) => {
                        proof {
                            assert forall|t: Term| !denotes(*n, t) by {
                                if denotes(*n, t) {
                                    if let Inner::Unary(_, operand) = t.inner { assert(denotes(n.children@[1], *operand)); }
                                }
                            }
                        }
                        return Err(e);
                    },
                };
                Ok(Term { location: here, inner: Inner::Unary(u, Box::new(operand)) })
            },
            Rule::traitdef => {
                if len < 3 {
                    return Err(ParseError::at(n));
                }
                let ty = Ty::from_node(&n.children[0])?;
                let reqs = if n.children[1].children.len() > 0 {
                    Some(TypeSpec::from_node(&n.children[1].children[0])?)
                } else {
                    None
                };
                let body = match Term::from_children(&n.children[2]) {
                    Ok(x) => x,
                    Err(e) => {
                        proof {
                            assert forall|t: Term| !denotes(*n, t) by {
                                if denotes(*n, t) {
                                    if let Inner::TraitDef(_, _, body) = t.inner { assert(denotes_all(n.children@[2], body@)); }
                                }
                            }
                        }
                        return Err(e);
                    },
                };
                Ok(Term { location: here, inner: Inner::TraitDef(ty, reqs, body) })
            },
            Rule::typedef => {
                if len < 3 {
                    return Err(ParseError::at(n));
                }
                let ty = Ty::from_node(&n.children[0])?;
                let props = Term::typed_arguments(&n.children[1])?;
                let body = match Term::from_children(&n.children[2]) {
                    Ok(x) => x,
                    Err(e) => {
                        proof {
                            assert forall|t: Term| !denotes(*n, t) by {
                                if denotes(*n, t) {
                                    if let Inner::TypeDef(_, _, body) = t.inner { assert(denotes_all(n.children@[2], body@)); }
                                }
                            }
                        }
                        return Err(e);
                    },
                };
                Ok(Term { location: here, inner: Inner::TypeDef(ty, props, body) })
            },
            _ => Err(ParseError::at(n)),
        }
    }

    /// Converts each child of `block` in order.
    #[verifier::spinoff_prover]
    pub fn from_children(block: &ParseNode) -> (r: Result<Vec<Term>, ParseError>)
        ensures
            r matches Ok(v) ==> denotes_all(*block, v@),
            r is Err ==> !exists|ts: Seq<Term>| denotes_all(*block, ts),
            r matches Err(e) ==> e is AstGeneration,
        decreases *block, 1nat, 0nat,
    {
        let mut v: Vec<Term> = Vec::new();
        let mut i: usize = 0;
        while i < block.children.len()
            invariant
                i <= block.children.len(),
                v.len() == i,
                forall|j: int| #![trigger v@[j]] 0 <= j < i ==> denotes(block.children@[j], v@[j]),
            decreases block.children.len() - i,
        {
            match Term::from_node(&block.children[i]) {
                Ok(t) => {
                    v.push(t);
                },
                Err(e) => {
                    proof {
                        assert forall|ts: Seq<Term>| !denotes_all(*block, ts) by {
                            if denotes_all(*block, ts) {
                                assert(denotes(block.children@[i as int], ts[i as int]));
                            }
                        }
                    }
                    return Err(e);
                },
            }
            i += 1;
        }
        assert(denotes_all(*block, v@));
        Ok(v)
    }

    /// Converts the call arguments among the children `from..to` of `n`.
    #[verifier::spinoff_prover]
    fn arguments_from(n: &ParseNode, from: usize, to: usize) -> (r: Result<Vec<Term>, ParseError>)
        requires
            from <= to <= n.children.len(),
        ensures
            r matches Ok(v) ==> denotes_arguments(*n, from as int, to as int, v@),
            r is Err ==> !exists|v: Seq<Term>| denotes_arguments(*n, from as int, to as int, v),
            r matches Err(e) ==> e is AstGeneration,
        decreases *n, 1nat, 0nat,
    {
        let mut v: Vec<Term> = Vec::new();
        let mut i: usize = from;
        while i < to
            invariant
                from <= i <= to <= n.children.len(),
                v.len() == i - from,
                forall|q: int| #![trigger v@[q]]
                    0 <= q < v.len() ==> denotes_argument(n.children@[from + q], v@[q]),
            decreases to - i,
        {
            let c = &n.children[i];
            let ghost q = i - from;
            if c.rule != Rule::call_argument || c.children.len() == 0 {
                proof {
                    assert forall|w: Seq<Term>| !denotes_arguments(*n, from as int, to as int, w) by {
                        if denotes_arguments(*n, from as int, to as int, w) {
                            assert(denotes_argument(n.children@[from + q], w[q]));
                        }
                    }
                }
                return Err(ParseError::at(c));
            }
            let t = match Term::from_node(&c.children[0]) {
                Ok(t) => t,
                Err(e) => {
                    proof {
                        assert forall|w: Seq<Term>| !denotes_arguments(*n, from as int, to as int, w) by {
                            if denotes_arguments(*n, from as int, to as int, w) {
                                assert(denotes_argument(n.children@[from + q], w[q]));
                                assert(denotes(c.children@[0], w[q]));
                            }
                        }
                    }
                    return Err(e);
                },
            };
            assert(denotes_argument(*c, t));
            let ghost v0 = v@;
            v.push(t);
            assert forall|k: int| #![trigger v@[k]] 0 <= k < v.len() implies denotes_argument(
                n.children@[from + k],
                v@[k],
            ) by {
                if k < v.len() - 1 {
                    assert(v@[k] == v0[k]);
                }
            }
            i += 1;
        }
        assert(denotes_arguments(*n, from as int, to as int, v@));
        Ok(v)
    }

    /// Converts the name/value pairs among the children of `n` from `from` on.
    #[verifier::spinoff_prover]
    fn properties_from(n: &ParseNode, from: usize, tagged: bool) -> (r: Result<
        Vec<(Identifier, Term)>,
        ParseError,
    >)
        requires
            from <= n.children.len(),
        ensures
            r matches Ok(v) ==> denotes_properties(*n, from as int, v@, tagged),
            r is Err ==> !exists|v: Seq<(Identifier, Term)>|
                denotes_properties(*n, from as int, v, tagged),
            r matches Err(e) ==> e is AstGeneration,
        decreases *n, 1nat, 0nat,
    {
        let mut v: Vec<(Identifier, Term)> = Vec::new();
        let mut i: usize = from;
        while i < n.children.len()
            invariant
                from <= i <= n.children.len(),
                v.len() == i - from,
                forall|q: int| #![trigger v@[q]]
                    0 <= q < v.len() ==> denotes_property(n.children@[from + q], v@[q], tagged),
            decreases n.children.len() - i,
        {
            let p = &n.children[i];
            let ghost q = i - from;
            if (tagged && p.rule != Rule::constructor_property) || p.children.len() < 2 {
                proof {
                    assert forall|w: Seq<(Identifier, Term)>| !denotes_properties(*n, from as int, w, tagged) by {
                        if denotes_properties(*n, from as int, w, tagged) {
                            assert(denotes_property(n.children@[from + q], w[q], tagged));
                        }
                    }
                }
                return Err(ParseError::at(p));
            }
            let name = match Identifier::from_node(&p.children[0]) {
                Ok(id) => id,
                Err(e) => {
                    proof {
                        assert forall|w: Seq<(Identifier, Term)>| !denotes_properties(*n, from as int, w, tagged) by {
                            if denotes_properties(*n, from as int, w, tagged) {
                                assert(denotes_property(n.children@[from + q], w[q], tagged));
                            }
                        }
                    }
                    return Err(e);
                },
            };
            let value = match Term::from_node(&p.children[1]) {
                Ok(t) => t,
                Err(e) => {
                    proof {
                        assert forall|w: Seq<(Identifier, Term)>| !denotes_properties(*n, from as int, w, tagged) by {
                            if denotes_properties(*n, from as int, w, tagged) {
                                assert(denotes_property(n.children@[from + q], w[q], tagged));
                                assert(denotes(p.children@[1], w[q].1));
                            }
                        }
                    }
                    return Err(e);
                },
            };
            let ghost item = (name, value);
            assert(denotes_property(*p, item, tagged));
            let ghost v0 = v@;
            v.push((name, value));
            assert(v@ == v0.push(item));
            assert forall|k: int| #![trigger v@[k]] 0 <= k < v.len() implies denotes_property(
                n.children@[from + k],
                v@[k],
                tagged,
            ) by {
                if k < v.len() - 1 {
                    assert(v@[k] == v0[k]);
                }
            }
            i += 1;
        }
        assert(denotes_properties(*n, from as int, v@, tagged));
        Ok(v)
    }

    /// Converts the key/value pairs that are the children of a map node.
    #[verifier::spinoff_prover]
    fn entries_from(n: &ParseNode) -> (r: Result<Vec<(Term, Term)>, ParseError>)
        ensures
            r matches Ok(v) ==> denotes_entries(*n, v@),
            r is Err ==> !exists|v: Seq<(Term, Term)>| denotes_entries(*n, v),
            r matches Err(e) ==> e is AstGeneration,
        decreases *n, 1nat, 0nat,
    {
        let mut v: Vec<(Term, Term)> = Vec::new();
        let mut i: usize = 0;
        while i < n.children.len()
            invariant
                i <= n.children.len(),
                v.len() == i,
                forall|q: int| #![trigger v@[q]] 0 <= q < v.len() ==> denotes_entry(n.children@[q], v@[q]),
            decreases n.children.len() - i,
        {
            let p = &n.children[i];
            let ghost q = i as int;
            if p.children.len() < 2 {
                proof {
                    assert forall|w: Seq<(Term, Term)>| !denotes_entries(*n, w) by {
                        if denotes_entries(*n, w) {
                            assert(denotes_entry(n.children@[q], w[q]));
                        }
                    }
                }
                return Err(ParseError::at(p));
            }
            let k = &p.children[0];
            let key = if k.rule == Rule::keyword {
                match Atom::from_node(k) {
                    Ok(a) => Term { location: k.location(), inner: Inner::Atom(a) },
                    Err(e) => {
                        proof {
                            assert forall|w: Seq<(Term, Term)>| !denotes_entries(*n, w) by {
                                if denotes_entries(*n, w) {
                                    assert(denotes_entry(n.children@[q], w[q]));
                                    assert(denotes_key(p.children@[0], w[q].0));
                                }
                            }
                        }
                        return Err(e);
                    },
                }
            } else {
                match Term::from_node(k) {
                    Ok(t) => t,
                    Err(e) => {
                        proof {
                            assert forall|w: Seq<(Term, Term)>| !denotes_entries(*n, w) by {
                                if denotes_entries(*n, w) {
                                    assert(denotes_entry(n.children@[q], w[q]));
                                    assert(denotes_key(p.children@[0], w[q].0));
                                    assert(denotes(p.children@[0], w[q].0));
                                }
                            }
                        }
                        return Err(e);
                    },
                }
            };
            assert(denotes_key(p.children@[0], key));
            let value = match Term::from_node(&p.children[1]) {
                Ok(t) => t,
                Err(e) => {
                    proof {
                        assert forall|w: Seq<(Term, Term)>| !denotes_entries(*n, w) by {
                            if denotes_entries(*n, w) {
                                assert(denotes_entry(n.children@[q], w[q]));
                                assert(denotes(p.children@[1], w[q].1));
                            }
                        }
                    }
                    return Err(e);
                },
            };
            let ghost item = (key, value);
            assert(denotes_entry(*p, item));
            let ghost v0 = v@;
            v.push((key, value));
            assert(v@ == v0.push(item));
            assert forall|k: int| #![trigger v@[k]] 0 <= k < v.len() implies denotes_entry(
                n.children@[k],
                v@[k],
            ) by {
                if k < v.len() - 1 {
                    assert(v@[k] == v0[k]);
                }
            }
            i += 1;
        }
        assert(denotes_entries(*n, v@));
        Ok(v)
    }

    /// Converts the typed arguments that are the children of `list`.
    #[verifier::spinoff_prover]
    fn typed_arguments(list: &ParseNode) -> (r: Result<Vec<(Identifier, TypeSpec)>, ParseError>)
        ensures
            r matches Ok(v) ==> names_typed_arguments(*list, v@),
            r is Err ==> !exists|v: Seq<(Identifier, TypeSpec)>| names_typed_arguments(*list, v),
            r matches Err(e) ==> e is AstGeneration,
    {
        let mut v: Vec<(Identifier, TypeSpec)> = Vec::new();
        let mut i: usize = 0;
        while i < list.children.len()
            invariant
                i <= list.children.len(),
                v.len() == i,
                forall|q: int| #![trigger v@[q]] 0 <= q < v.len() ==> names_typed_argument(list.children@[q], v@[q]),
            decreases list.children.len() - i,
        {
            let p = &list.children[i];
            let ghost q = i as int;
            if p.children.len() < 2 {
                proof {
                    assert forall|w: Seq<(Identifier, TypeSpec)>| !names_typed_arguments(*list, w) by {
                        if names_typed_arguments(*list, w) {
                            assert(names_typed_argument(list.children@[q], w[q]));
                        }
                    }
                }
                return Err(ParseError::at(p));
            }
            let name = match Identifier::from_node(&p.children[0]) {
                Ok(id) => id,
                Err(e) => {
                    proof {
                        assert forall|w: Seq<(Identifier, TypeSpec)>| !names_typed_arguments(*list, w) by {
                            if names_typed_arguments(*list, w) {
                                assert(names_typed_argument(list.children@[q], w[q]));
                            }
                        }
                    }
                    return Err(e);
                },
            };
            let ts = match TypeSpec::from_node(&p.children[1]) {
                Ok(ts) => ts,
                Err(e) => {
                    proof {
                        assert forall|w: Seq<(Identifier, TypeSpec)>| !names_typed_arguments(*list, w) by {
                            if names_typed_arguments(*list, w) {
                                assert(names_typed_argument(list.children@[q], w[q]));
                            }
                        }
                    }
                    return Err(e);
                },
            };
            v.push((name, ts));
            i += 1;
        }
        Ok(v)
    }

    /// Converts the clauses that are the children of a function node.
    #[verifier::spinoff_prover]
    fn clauses_from(n: &ParseNode) -> (r: Result<Vec<Clause>, ParseError>)
        ensures
            r matches Ok(v) ==> denotes_clauses(*n, v@),
            r is Err ==> !exists|v: Seq<Clause>| denotes_clauses(*n, v),
            r matches Err(e) ==> e is AstGeneration,
        decreases *n, 1nat, 0nat,
    {
        let mut v: Vec<Clause> = Vec::new();
        let mut i: usize = 0;
        while i < n.children.len()
            invariant
                i <= n.children.len(),
                v.len() == i,
                forall|q: int| #![trigger v@[q]] 0 <= q < v.len() ==> denotes_clause(n.children@[q], v@[q]),
            decreases n.children.len() - i,
        {
            let p = &n.children[i];
            let ghost q = i as int;
            let clause = match Clause::from_node(p) {
                Ok(c) => c,
                Err(e) => {
                    proof {
                        assert forall|w: Seq<Clause>| !denotes_clauses(*n, w) by {
                            if denotes_clauses(*n, w) {
                                assert(denotes_clause(n.children@[q], w[q]));
                            }
                        }
                    }
                    return Err(e);
                },
            };
            assert(denotes_clause(*p, clause));
            let ghost v0 = v@;
            v.push(clause);
            assert forall|k: int| #![trigger v@[k]] 0 <= k < v.len() implies denotes_clause(
                n.children@[k],
                v@[k],
            ) by {
                if k < v.len() - 1 {
                    assert(v@[k] == v0[k]);
                }
            }
            i += 1;
        }
        assert(denotes_clauses(*n, v@));
        Ok(v)
    }

    /// Converts a `call_method` node: its receiver, then each method name
    /// with the call arguments that follow it, each call becoming the
    /// receiver of the next, so that the last call written is the outermost.
    #[verifier::spinoff_prover]
    fn unroll_method_call(n: &ParseNode) -> (r: Result<Term, ParseError>)
        requires
            n.rule == Rule::call_method,
        ensures
            r matches Ok(t) ==> denotes(*n, t),
            r is Err ==> !exists|t: Term| denotes(*n, t),
            r matches Err(e) ==> e is AstGeneration,
        decreases *n, 3nat, 0nat,
    {
        let ghost starts = chain_starts(*n, 1);
        if n.children.len() < 2 {
            return Err(ParseError::at(n));
        }
        proof {
            lemma_arguments_end(*n, 2);
        }
        assert(starts.len() > 0);
        let mut acc = match Term::from_node(&n.children[0]) {
            Ok(t) => t,
            Err(e) => {
                proof {
                    assert forall|t: Term| !denotes(*n, t) by {
                        if denotes(*n, t) {
                            lemma_chain_valid(*n, starts, starts.len() as int, t);
                        }
                    }
                }
                return Err(e);
            },
        };
        assert(chain_upto(*n, starts, 0, acc));
        let mut i: usize = 1;
        let ghost mut m: int = 0;
        loop
            invariant
                n.rule == Rule::call_method,
                starts == chain_starts(*n, 1),
                0 <= m < starts.len(),
                starts[m] == i,
                1 <= i < n.children.len(),
                chain_upto(*n, starts, m, acc),
            decreases n.children.len() - i,
        {
            proof {
                lemma_chain_starts(*n, 1, m);
            }
            let name = match Identifier::from_node(&n.children[i]) {
                Ok(id) => id,
                Err(e) => {
                    proof {
                        assert forall|t: Term| !denotes(*n, t) by {
                            if denotes(*n, t) {
                                lemma_chain_valid(*n, starts, starts.len() as int, t);
                                assert(segment_ok(*n, starts[m]));
                            }
                        }
                    }
                    return Err(e);
                },
            };
            let mut j: usize = i + 1;
            proof {
                lemma_arguments_end(*n, i + 1);
            }
            while j < n.children.len() && n.children[j].rule == Rule::call_argument
                invariant
                    i + 1 <= j <= n.children.len(),
                    arguments_end(*n, j as int) == arguments_end(*n, i + 1),
                decreases n.children.len() - j,
            {
                j += 1;
            }
            assert(j == arguments_end(*n, i + 1));
            let args = match Term::arguments_from(n, i + 1, j) {
                Ok(a) => a,
                Err(e) => {
                    proof {
                        assert forall|t: Term| !denotes(*n, t) by {
                            if denotes(*n, t) {
                                lemma_chain_valid(*n, starts, starts.len() as int, t);
                                assert(segment_ok(*n, starts[m]));
                            }
                        }
                    }
                    return Err(e);
                },
            };
            let location = acc.location;
            acc = Term { location, inner: Inner::MethodCall(Box::new(acc), name, args) };
            assert(chain_upto(*n, starts, m + 1, acc));
            if j < n.children.len() && n.children[j].rule == Rule::ident {
                i = j;
                proof {
                    m = m + 1;
                }
            } else {
                assert(m + 1 == starts.len());
                return Ok(acc);
            }
        }
    }

    /// Converts the terms of a program, in order, up to the end-of-input
    /// marker if there is one.
    pub fn input(nodes: &Vec<ParseNode>) -> (r: Result<Vec<Term>, ParseError>)
        ensures
            r matches Ok(v) ==> denotes_program(nodes@, v@),
            r is Err ==> !exists|ts: Seq<Term>| denotes_program(nodes@, ts),
            r matches Err(e) ==> e is AstGeneration,
    {
        Term::program(nodes)
    }

    /// Converts the terms of a source file, in order, up to the end-of-input
    /// marker if there is one.
    pub fn file(nodes: &Vec<ParseNode>) -> (r: Result<Vec<Term>, ParseError>)
        ensures
            r matches Ok(v) ==> denotes_program(nodes@, v@),
            r is Err ==> !exists|ts: Seq<Term>| denotes_program(nodes@, ts),
            r matches Err(e) ==> e is AstGeneration,
    {
        Term::program(nodes)
    }

    #[verifier::spinoff_prover]
    fn program(nodes: &Vec<ParseNode>) -> (r: Result<Vec<Term>, ParseError>)
        ensures
            r matches Ok(v) ==> denotes_program(nodes@, v@),
            r is Err ==> !exists|ts: Seq<Term>| denotes_program(nodes@, ts),
            r matches Err(e) ==> e is AstGeneration,
    {
        let mut v: Vec<Term> = Vec::new();
        let mut i: usize = 0;
        while i < nodes.len() && nodes[i].rule != Rule::EOI
            invariant
                i <= nodes.len(),
                v.len() == i,
                forall|j: int| 0 <= j < i ==> nodes@[j].rule != Rule::EOI,
                forall|j: int| #![trigger v@[j]] 0 <= j < i ==> denotes(nodes@[j], v@[j]),
            decreases nodes.len() - i,
        {
            match Term::from_node(&nodes[i]) {
                Ok(t) => {
                    v.push(t);
                },
                Err(e) => {
                    proof {
                        assert forall|ts: Seq<Term>| !denotes_program(nodes@, ts) by {
                            if denotes_program(nodes@, ts) {
                                assert(program_end(nodes@, i as int) == program_end(nodes@, 0)) by {
                                    lemma_program_end(nodes@, 0, i as int);
                                }
                                lemma_program_end_bounds(nodes@, i + 1);
                                assert(denotes(nodes@[i as int], ts[i as int]));
                            }
                        }
                    }
                    return Err(e);
                },
            }
            i += 1;
        }
        proof {
            lemma_program_end(nodes@, 0, i as int);
            assert(program_end(nodes@, i as int) == i);
        }
        assert(denotes_program(nodes@, v@));
        Ok(v)
    }
}

impl Function {
    /// Converts a `function` node: each of its children is a clause.
    #[verifier::spinoff_prover]
    pub fn from_node(n: &ParseNode) -> (r: Result<Function, ParseError>)
        ensures
            r matches Ok(f) ==> denotes_function(*n, f),
            r is Err ==> !exists|f: Function| denotes_function(*n, f),
            r matches Err(e) ==> e is AstGeneration,
        decreases *n, 2nat, 0nat,
    {
        if n.rule != Rule::function {
            return Err(ParseError::at(n));
        }
        let clauses = match Term::clauses_from(n) {
            Ok(c) => c,
            Err(e) => {
                proof {
                    assert forall|f: Function| !denotes_function(*n, f) by {
                        if denotes_function(*n, f) {
                            assert(denotes_clauses(*n, f.clauses@));
                        }
                    }
                }
                return Err(e);
            },
        };
        Ok(Function { clauses, location: n.location() })
    }
}

impl Clause {
    /// Converts a `function_clause` node: its typed arguments, then its body.
    #[verifier::spinoff_prover]
    pub fn from_node(p: &ParseNode) -> (r: Result<Clause, ParseError>)
        ensures
            r matches Ok(c) ==> denotes_clause(*p, c),
            r is Err ==> !exists|c: Clause| denotes_clause(*p, c),
            r matches Err(e) ==> e is AstGeneration,
        decreases *p, 5nat, 0nat,
    {
        if p.rule != Rule::function_clause || p.children.len() < 2 {
            return Err(ParseError::at(p));
        }
        let arguments = Term::typed_arguments(&p.children[0])?;
        let body = match Term::from_children(&p.children[1]) {
            Ok(b) => b,
            Err(e) => {
                proof {
                    assert forall|c: Clause| !denotes_clause(*p, c) by {
                        if denotes_clause(*p, c) {
                            assert(denotes_all(p.children@[1], c.body@));
                        }
                    }
                }
                return Err(e);
            },
        };
        Ok(Clause { arguments, body, location: p.location() })
    }
}

/// The index of the first end-of-input marker at or after `i`, or the length.
pub open spec fn program_end(nodes: Seq<ParseNode>, i: int) -> int
    decreases nodes.len() - i,
{
    if 0 <= i < nodes.len() && nodes[i].rule != Rule::EOI {
        program_end(nodes, i + 1)
    } else {
        i
    }
}

proof fn lemma_program_end(nodes: Seq<ParseNode>, i: int, k: int)
    requires
        0 <= i <= k <= nodes.len(),
        forall|j: int| i <= j < k ==> nodes[j].rule != Rule::EOI,
    ensures
        program_end(nodes, i) == program_end(nodes, k),
    decreases k - i,
{
    if i < k {
        lemma_program_end(nodes, i + 1, k);
    }
}

proof fn lemma_program_end_bounds(nodes: Seq<ParseNode>, i: int)
    requires
        0 <= i <= nodes.len(),
    ensures
        i <= program_end(nodes, i) <= nodes.len(),
    decreases nodes.len() - i,
{
    if i < nodes.len() && nodes[i].rule != Rule::EOI {
        lemma_program_end_bounds(nodes, i + 1);
    }
}

/// `ts` are, in order, the terms that the top-level nodes denote, up to the
/// first end-of-input marker.
pub open spec fn denotes_program(nodes: Seq<ParseNode>, ts: Seq<Term>) -> bool {
    &&& ts.len() == program_end(nodes, 0)
    &&& forall|i: int| #![trigger ts[i]] 0 <= i < ts.len() ==> denotes(nodes[i], ts[i])
}

/// Converts an infix node: its operands in order, its operators in order,
/// then the tree that the precedence table gives them.
#[verifier::spinoff_prover]
pub fn climb(n: &ParseNode) -> (r: Result<Term, ParseError>)
    requires
        n.rule == Rule::infix || n.rule == Rule::instance_infix,
    ensures
        r matches Ok(t) ==> denotes(*n, t),
        r is Err ==> !exists|t: Term| denotes(*n, t),
        r matches Err(e) ==> e is AstGeneration,
    decreases *n, 2nat, 0nat,
{
    let len = n.children.len();
    if len % 2 == 0 {
        return Err(ParseError::at(n));
    }
    let mut operands: Vec<Term> = Vec::new();
    let mut ops: Vec<Binary> = Vec::new();
    let mut i: usize = 0;
    while i < len
        invariant
            len == n.children.len(),
            len % 2 == 1,
            n.rule == Rule::infix || n.rule == Rule::instance_infix,
            i <= len,
            operands.len() == (i + 1) / 2,
            ops.len() == i / 2,
            forall|j: int| #![trigger operands@[j]] 0 <= j < operands.len() ==> denotes(n.children@[2 * j], operands@[j]),
            forall|j: int| #![trigger ops@[j]] 0 <= j < ops.len() ==> binary_of(n.children@[2 * j + 1]) == Some(ops@[j]),
        decreases len - i,
    {
        if i % 2 == 0 {
            match Term::from_node(&n.children[i]) {
                Ok(t) => {
                    operands.push(t);
                },
                Err(e) => {
                    proof {
                        assert forall|t: Term| !denotes(*n, t) by {
                            if denotes(*n, t) {
                                let ts = choose|ts: Seq<Term>|
                                    #![trigger climbed(ts, infix_ops(*n))]
                                    ts.len() == n.children.len() / 2 + 1 && (forall|k: int|
                                        0 <= k < ts.len() ==> denotes(n.children@[2 * k], #[trigger] ts[k])) && t == climbed(ts, infix_ops(*n));
                                let k = i / 2;
                                assert(2 * k == i);
                                assert(denotes(n.children@[2 * k], ts[k as int]));
                            }
                        }
                    }
                    return Err(e);
                },
            }
        } else {
            match Binary::from_node(&n.children[i]) {
                Ok(b) => {
                    ops.push(b);
                },
                Err(e) => {
                    proof {
                        let k = i / 2;
                        assert(2 * k + 1 == i);
                        assert(binary_of(n.children@[2 * k + 1]) is None);
                        assert(!infix_shape(*n));
                    }
                    return Err(e);
                },
            }
        }
        i += 1;
    }
    assert(ops@ =~= infix_ops(*n));
    assert(infix_shape(*n)) by {
        assert forall|k: int| 0 <= k < n.children.len() / 2 implies (#[trigger] binary_of(n.children@[2 * k + 1])) is Some by {
            assert(binary_of(n.children@[2 * k + 1]) == Some(ops@[k]));
        }
    }
    let ghost ts = operands@;
    let t = build_infix(operands, ops);
    assert(t == climbed(ts, infix_ops(*n)));
    Ok(t)
}

/// An infix node that holds a single operand, as a redundant pair of
/// parentheses makes, denotes exactly what that operand denotes.
pub proof fn lemma_redundant_group(m: ParseNode, t: Term)
    requires
        m.rule == Rule::infix || m.rule == Rule::instance_infix,
        m.children.len() == 1,
    ensures
        denotes(m, t) <==> denotes(m.children@[0], t),
{
    let n = m.children@[0];
    assert(infix_ops(m) =~= Seq::<Binary>::empty());
    assert(infix_shape(m));
    if denotes(n, t) {
        let ts = seq![t];
        assert(ts[0] == t);
        assert(climbed(ts, infix_ops(m)) == t);
    }
    if denotes(m, t) {
        let ts = choose|ts: Seq<Term>|
            #![trigger climbed(ts, infix_ops(m))]
            ts.len() == m.children.len() / 2 + 1 && (forall|i: int| #![trigger ts[i]]
                0 <= i < ts.len() ==> denotes(m.children@[2 * i], ts[i])) && t == climbed(ts, infix_ops(m));
        assert(denotes(m.children@[0], ts[0]));
    }
}

} // verus!
