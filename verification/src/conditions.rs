//! The side conditions that guard the rules of arithmetic: tests on the
//! classes that a match binds its pattern variables to. Each takes the
//! canonical handles of those classes.
use crate::constant_fold::EGraph;
use crate::lambda::Id;
use crate::math::Math;
use crate::rational::Constant;
use vstd::prelude::*;

verus! {

/// The class holds a symbol.
pub open spec fn holds_symbol(nodes: Seq<Math>) -> bool {
    exists|i: int| 0 <= i < nodes.len() && #[trigger] nodes[i] is Symbol
}

/// The class holds the literal of the whole number `n`.
pub open spec fn holds_integer(nodes: Seq<Math>, n: i64) -> bool {
    exists|i: int| 0 <= i < nodes.len() && #[trigger] nodes[i] == Math::Constant(Constant::integer(n))
}

/// Whether two pattern variables are bound to different classes.
pub fn is_not_same_class(a: Id, b: Id) -> (r: bool)
    ensures
        r == (a != b),
{
    a != b
}

/// Whether the class has a known constant.
pub fn is_constant(egraph: &EGraph, a: Id) -> (r: bool)
    requires
        egraph.has(a),
    ensures
        r == egraph.constant(a) is Some,
{
    egraph.constant_at(a).is_some()
}

/// Whether the class holds at least one symbol.
pub fn is_symbol(egraph: &EGraph, a: Id) -> (r: bool)
    requires
        egraph.has(a),
    ensures
        r == holds_symbol(egraph.nodes(a)),
{
    let nodes = &egraph.get(a).nodes;
    let mut i: usize = 0;
    while i < nodes.len()
        invariant
            i <= nodes.len(),
            nodes@ == egraph.nodes(a),
            forall|j: int| 0 <= j < i ==> !(#[trigger] nodes@[j] is Symbol),
        decreases nodes.len() - i,
    {
        if nodes[i].is_symbol() {
            return true;
        }
        i += 1;
    }
    false
}

/// Whether the class holds the literal of the whole number `n`.
fn is_literal(egraph: &EGraph, a: Id, n: i64) -> (r: bool)
    requires
        egraph.has(a),
    ensures
        r == holds_integer(egraph.nodes(a), n),
{
    let nodes = &egraph.get(a).nodes;
    let mut i: usize = 0;
    while i < nodes.len()
        invariant
            i <= nodes.len(),
            nodes@ == egraph.nodes(a),
            forall|j: int| 0 <= j < i ==> #[trigger] nodes@[j] != Math::Constant(Constant::integer(n)),
        decreases nodes.len() - i,
    {
        if nodes[i].is_integer(n) {
            return true;
        }
        i += 1;
    }
    false
}

/// Whether `a` and `b` are different classes and `a` has a known constant
/// or holds a symbol: what makes the derivative of `a` by `b` zero.
pub fn is_distinct_or_constant(egraph: &EGraph, a: Id, b: Id) -> (r: bool)
    requires
        egraph.has(a),
    ensures
        r == (a != b && (egraph.constant(a) is Some || holds_symbol(egraph.nodes(a)))),
{
    a != b && (is_constant(egraph, a) || is_symbol(egraph, a))
}

/// Whether the class is known not to be zero: it has a known constant, and
/// that constant is not zero. A class of which nothing is known fails the
/// test, so a rule that divides by it does not fire.
pub fn is_nonzero_sound(egraph: &EGraph, a: Id) -> (r: bool)
    requires
        egraph.has(a),
    ensures
        r == (egraph.constant(a) matches Some(c) && !c.spec_is_zero()),
{
    match egraph.constant_at(a) {
        Some(c) => !c.is_zero(),
        None => false,
    }
}

/// Whether the class is any but the class of the literal zero. A class of
/// which nothing is known passes the test: it only keeps a rule from adding
/// zero to zero.
pub fn is_nonzero_soft(egraph: &EGraph, a: Id) -> (r: bool)
    requires
        egraph.has(a),
    ensures
        r == !holds_integer(egraph.nodes(a), 0),
{
    !is_literal(egraph, a, 0)
}

/// Whether the class is any but the class of the literal one. A class of
/// which nothing is known passes the test: it only keeps a rule from
/// multiplying one by one.
pub fn is_nonone_soft(egraph: &EGraph, a: Id) -> (r: bool)
    requires
        egraph.has(a),
    ensures
        r == !holds_integer(egraph.nodes(a), 1),
{
    !is_literal(egraph, a, 1)
}

/// The two tests for zero never disagree on a class whose constant is the
/// one its literal says: a class that is known not to be zero is not the
/// class of the literal zero.
pub proof fn lemma_sound_implies_soft(egraph: EGraph, a: Id)
    requires
        egraph.has(a),
        forall|i: int|
            0 <= i < egraph.nodes(a).len() ==> (#[trigger] egraph.nodes(a)[i] matches Math::Constant(
                c,
            ) ==> egraph.constant(a) == Some(c)),
        egraph.constant(a) matches Some(c) && !c.spec_is_zero(),
    ensures
        !holds_integer(egraph.nodes(a), 0),
{
}

} // verus!
