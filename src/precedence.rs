//! The precedence table of the infix operators and the tree it gives a flat
//! sequence of operands and operators.

use vstd::prelude::*;

use crate::binary::{Binary, Operator};
use crate::term::Term;

verus! {

/// An operator written after `current` is split on in its place when it binds
/// more loosely, or equally loosely in a tier that groups to the left.
pub open spec fn looser(later: Operator, current: Operator) -> bool {
    later.tier() < current.tier() || (later.tier() == current.tier() && !later.groups_right())
}

/// The index, among the first `i` operators, of the one that binds loosest:
/// the last of them in a left-grouping tier, the first in a right-grouping one.
pub open spec fn loosest_among(ops: Seq<Binary>, i: int) -> int
    decreases i,
{
    if i <= 1 {
        0
    } else {
        let b = loosest_among(ops, i - 1);
        if looser(ops[i - 1].value, ops[b].value) {
            i - 1
        } else {
            b
        }
    }
}

/// The operator at which an infix sequence splits into its two operands.
pub open spec fn loosest(ops: Seq<Binary>) -> int {
    loosest_among(ops, ops.len() as int)
}

/// The tree of an infix sequence `operands[0] ops[0] operands[1] ... operands[n]`:
/// the loosest operator at the root, each side built the same way.
pub open spec fn climbed(operands: Seq<Term>, ops: Seq<Binary>) -> Term
    decreases ops.len(),
    via climbed_decreases
{
    if ops.len() == 0 {
        operands[0]
    } else {
        let k = loosest(ops);
        Term::infix(
            ops[k],
            climbed(operands.subrange(0, k + 1), ops.subrange(0, k)),
            climbed(operands.subrange(k + 1, operands.len() as int), ops.subrange(k + 1, ops.len() as int)),
        )
    }
}

#[via_fn]
proof fn climbed_decreases(operands: Seq<Term>, ops: Seq<Binary>) {
    if ops.len() > 0 {
        lemma_loosest_among_bounds(ops, ops.len() as int);
    }
}

proof fn lemma_loosest_among_bounds(ops: Seq<Binary>, i: int)
    requires
        1 <= i,
    ensures
        0 <= loosest_among(ops, i) < i,
    decreases i,
{
    if i > 1 {
        lemma_loosest_among_bounds(ops, i - 1);
    }
}

/// The index of the loosest-binding operator, as `loosest` defines it.
fn loosest_index(ops: &Vec<Binary>) -> (k: usize)
    requires
        ops.len() > 0,
    ensures
        k == loosest(ops@),
        k < ops.len(),
{
    let mut best: usize = 0;
    let mut best_tier: u8 = ops[0].value.precedence();
    let mut i: usize = 1;
    while i < ops.len()
        invariant
            1 <= i <= ops.len(),
            best == loosest_among(ops@, i as int),
            best < i,
            best_tier == ops@[best as int].value.tier(),
        decreases ops.len() - i,
    {
        let t = ops[i].value.precedence();
        if t < best_tier || (t == best_tier && !ops[i].value.is_right_grouping()) {
            best = i;
            best_tier = t;
        }
        i += 1;
    }
    best
}

/// Builds the tree of an infix sequence, taking the operands and operators
/// in source order.
pub fn build_infix(operands: Vec<Term>, ops: Vec<Binary>) -> (r: Term)
    requires
        operands.len() == ops.len() + 1,
    ensures
        r == climbed(operands@, ops@),
    decreases ops.len(),
{
    let mut operands = operands;
    let mut ops = ops;
    if ops.len() == 0 {
        return operands.remove(0);
    }
    let ghost all_operands = operands@;
    let ghost all_ops = ops@;
    let k = loosest_index(&ops);
    let right_ops = ops.split_off(k + 1);
    let right_operands = operands.split_off(k + 1);
    let op = ops.remove(k);
    assert(ops@ =~= all_ops.subrange(0, k as int));
    assert(op == all_ops[k as int]);
    let lhs = build_infix(operands, ops);
    let rhs = build_infix(right_operands, right_ops);
    Term::create_infix(op, lhs, rhs)
}

/// The operator at which a sequence splits binds no tighter than any other;
/// among those of its tier it is the last when the tier groups to the left and
/// the first when it groups to the right.
pub proof fn lemma_loosest_binds_loosest(ops: Seq<Binary>)
    requires
        ops.len() > 0,
    ensures
        0 <= loosest(ops) < ops.len(),
        forall|j: int|
            0 <= j < ops.len() ==> ops[loosest(ops)].value.tier() <= (#[trigger] ops[j]).value.tier(),
        forall|j: int|
            0 <= j < loosest(ops) && (#[trigger] ops[j]).value.tier() == ops[loosest(ops)].value.tier()
                ==> !ops[loosest(ops)].value.groups_right(),
        forall|j: int|
            loosest(ops) < j < ops.len() && (#[trigger] ops[j]).value.tier() == ops[loosest(
                ops,
            )].value.tier() ==> ops[loosest(ops)].value.groups_right(),
{
    lemma_loosest_among_order(ops, ops.len() as int);
}

proof fn lemma_loosest_among_order(ops: Seq<Binary>, i: int)
    requires
        1 <= i <= ops.len(),
    ensures
        0 <= loosest_among(ops, i) < i,
        forall|j: int|
            0 <= j < i ==> ops[loosest_among(ops, i)].value.tier() <= (#[trigger] ops[j]).value.tier(),
        forall|j: int|
            0 <= j < loosest_among(ops, i) && (#[trigger] ops[j]).value.tier() == ops[loosest_among(
                ops,
                i,
            )].value.tier() ==> !ops[loosest_among(ops, i)].value.groups_right(),
        forall|j: int|
            loosest_among(ops, i) < j < i && (#[trigger] ops[j]).value.tier() == ops[loosest_among(
                ops,
                i,
            )].value.tier() ==> ops[loosest_among(ops, i)].value.groups_right(),
    decreases i,
{
    if i > 1 {
        lemma_loosest_among_order(ops, i - 1);
    }
}

/// Of three operands joined by two operators, the second operator stands at
/// the root exactly when it binds more loosely than the first, or as loosely in
/// a tier that groups to the left; the other pair is nested beneath it.
pub proof fn lemma_three_operands(a: Term, b: Term, c: Term, o1: Binary, o2: Binary)
    ensures
        climbed(seq![a, b, c], seq![o1, o2]) == if looser(o2.value, o1.value) {
            Term::infix(o2, Term::infix(o1, a, b), c)
        } else {
            Term::infix(o1, a, Term::infix(o2, b, c))
        },
{
    let operands = seq![a, b, c];
    let ops = seq![o1, o2];
    reveal_with_fuel(loosest_among, 3);
    reveal_with_fuel(climbed, 3);
    if looser(o2.value, o1.value) {
        assert(operands.subrange(0, 2) =~= seq![a, b]);
        assert(ops.subrange(0, 1) =~= seq![o1]);
        assert(seq![a, b].subrange(0, 1) =~= seq![a]);
        assert(seq![a, b].subrange(1, 2) =~= seq![b]);
        assert(seq![o1].subrange(0, 0) =~= Seq::<Binary>::empty());
        assert(seq![o1].subrange(1, 1) =~= Seq::<Binary>::empty());
        assert(operands.subrange(2, 3) =~= seq![c]);
        assert(ops.subrange(2, 2) =~= Seq::<Binary>::empty());
    } else {
        assert(operands.subrange(0, 1) =~= seq![a]);
        assert(ops.subrange(0, 0) =~= Seq::<Binary>::empty());
        assert(operands.subrange(1, 3) =~= seq![b, c]);
        assert(ops.subrange(1, 2) =~= seq![o2]);
        assert(seq![b, c].subrange(0, 1) =~= seq![b]);
        assert(seq![b, c].subrange(1, 2) =~= seq![c]);
        assert(seq![o2].subrange(0, 0) =~= Seq::<Binary>::empty());
        assert(seq![o2].subrange(1, 1) =~= Seq::<Binary>::empty());
    }
}

/// Two operators of one tier group to the left, `(a o1 b) o2 c`, unless the
/// tier is that of equality or of the exponent, which group to the right,
/// `a o1 (b o2 c)`.
pub proof fn lemma_same_tier_grouping(a: Term, b: Term, c: Term, o1: Binary, o2: Binary)
    requires
        o1.value.tier() == o2.value.tier(),
    ensures
        o1.value.groups_right() <==> (o1.value.tier() == 3 || o1.value.tier() == 10),
        !o1.value.groups_right() ==> climbed(seq![a, b, c], seq![o1, o2]) == Term::infix(
            o2,
            Term::infix(o1, a, b),
            c,
        ),
        o1.value.groups_right() ==> climbed(seq![a, b, c], seq![o1, o2]) == Term::infix(
            o1,
            a,
            Term::infix(o2, b, c),
        ),
{
    lemma_three_operands(a, b, c, o1, o2);
}

/// A lone operand, as inside a redundant pair of parentheses, is its own tree.
pub proof fn lemma_single_operand(t: Term)
    ensures
        climbed(seq![t], Seq::<Binary>::empty()) == t,
{
}

/// Parentheses around the pair that binds first change nothing: around the
/// left pair when the second operator is the looser one, around the right
/// pair otherwise.
pub proof fn lemma_redundant_parentheses(a: Term, b: Term, c: Term, o1: Binary, o2: Binary)
    ensures
        looser(o2.value, o1.value) ==> climbed(
            seq![climbed(seq![a, b], seq![o1]), c],
            seq![o2],
        ) == climbed(seq![a, b, c], seq![o1, o2]),
        !looser(o2.value, o1.value) ==> climbed(
            seq![a, climbed(seq![b, c], seq![o2])],
            seq![o1],
        ) == climbed(seq![a, b, c], seq![o1, o2]),
{
    lemma_three_operands(a, b, c, o1, o2);
    lemma_two_operands(a, b, o1);
    lemma_two_operands(b, c, o2);
    if looser(o2.value, o1.value) {
        lemma_two_operands(climbed(seq![a, b], seq![o1]), c, o2);
    } else {
        lemma_two_operands(a, climbed(seq![b, c], seq![o2]), o1);
    }
}

proof fn lemma_two_operands(a: Term, b: Term, o: Binary)
    ensures
        climbed(seq![a, b], seq![o]) == Term::infix(o, a, b),
{
    reveal_with_fuel(loosest_among, 2);
    reveal_with_fuel(climbed, 2);
    assert(seq![a, b].subrange(0, 1) =~= seq![a]);
    assert(seq![a, b].subrange(1, 2) =~= seq![b]);
    assert(seq![o].subrange(0, 0) =~= Seq::<Binary>::empty());
    assert(seq![o].subrange(1, 1) =~= Seq::<Binary>::empty());
}

} // verus!
