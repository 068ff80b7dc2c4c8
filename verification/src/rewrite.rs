//! What a rewrite rule is made of: a pattern to search for, what to put in
//! its place, and the side conditions that guard it. Patterns are written as
//! s-expressions in which a name that begins with `?` is a pattern variable.
use crate::analysis::EGraph;
use crate::lambda::{Id, Lambda};
use vstd::prelude::*;

verus! {

/// A side condition of a rule, over the classes that its pattern variables
/// are bound to.
#[derive(Clone, Copy, Debug, PartialEq, Eq)]
pub enum Condition {
    /// The two patterns, instantiated, lie in one class.
    Equal { left: &'static str, right: &'static str },
    /// The class bound to the variable has a known constant.
    IsConst { var: &'static str },
    /// The two variables are bound to different classes.
    IsNotSameVar { v1: &'static str, v2: &'static str },
    /// The class bound to the variable holds a symbol.
    IsSymbol { var: &'static str },
    /// The classes bound to `a` and `b` differ, and that of `a` has a known
    /// constant or holds a symbol.
    IsDistinctOrConstant { a: &'static str, b: &'static str },
    /// The class bound to the variable has a known constant other than zero.
    IsNonzeroSound { var: &'static str },
    /// The class bound to the variable is not the class of the literal zero.
    IsNonzeroSoft { var: &'static str },
    /// The class bound to the variable is not the class of the literal one.
    IsNononeSoft { var: &'static str },
}

/// Pushes `(let ?v1 ?e (lam ?v2 ?body))` through the binder without
/// capturing `?v2`: which pattern replaces the match depends on whether the
/// class bound to `v2` is free in the class bound to `e`.
#[derive(Clone, Copy, Debug, PartialEq, Eq)]
pub struct CaptureAvoid {
    pub v2: &'static str,
    pub e: &'static str,
    pub if_not_free: &'static str,
    pub if_free: &'static str,
}

/// What a rule puts in the place of a match.
#[derive(Clone, Copy, Debug, PartialEq, Eq)]
pub enum Applier {
    /// The pattern, instantiated with the match.
    Pattern(&'static str),
    /// One of two patterns, chosen by the analysis.
    CaptureAvoid(CaptureAvoid),
}

/// A named rewrite rule. It fires on a match of `searcher` for which every
/// condition holds, asked in the order in which they are listed.
#[derive(Clone, Debug, PartialEq, Eq)]
pub struct Rewrite {
    pub name: &'static str,
    pub searcher: &'static str,
    pub applier: Applier,
    pub conditions: Vec<Condition>,
}

/// A rule as a mathematical value: the rule with its conditions as a
/// sequence.
pub struct RewriteView {
    pub name: &'static str,
    pub searcher: &'static str,
    pub applier: Applier,
    pub conditions: Seq<Condition>,
}

impl View for Rewrite {
    type V = RewriteView;

    open spec fn view(&self) -> RewriteView {
        RewriteView {
            name: self.name,
            searcher: self.searcher,
            applier: self.applier,
            conditions: self.conditions@,
        }
    }
}

/// The rules of a catalog as mathematical values, in order.
pub open spec fn views(rules: Seq<Rewrite>) -> Seq<RewriteView> {
    rules.map_values(|r: Rewrite| r@)
}

impl Rewrite {
    /// A rule without conditions.
    pub fn new(name: &'static str, searcher: &'static str, applier: Applier) -> (r: Rewrite)
        ensures
            r@ == (RewriteView { name, searcher, applier, conditions: seq![] }),
    {
        Rewrite { name, searcher, applier, conditions: Vec::new() }
    }

    /// The rule with one more condition, asked after those it has.
    pub fn when(self, condition: Condition) -> (r: Rewrite)
        ensures
            r@ == (RewriteView { conditions: self@.conditions.push(condition), ..self@ }),
    {
        let mut conditions = self.conditions;
        conditions.push(condition);
        Rewrite { name: self.name, searcher: self.searcher, applier: self.applier, conditions }
    }
}

/// Whether two pattern variables are bound to different classes; `a` and `b`
/// are the canonical handles of the classes they are bound to.
pub fn is_not_same_var(a: Id, b: Id) -> (r: bool)
    ensures
        r == (a != b),
{
    a != b
}

/// Whether the class `id` has a known constant.
pub fn is_const(egraph: &EGraph, id: Id) -> (r: bool)
    requires
        egraph.has(id),
    ensures
        r == egraph.literal(id) is Some,
{
    egraph.get(id).constant.is_some()
}

impl CaptureAvoid {
    /// The pattern to instantiate for a match that binds `self.e` to the
    /// class `e` and `self.v2` to the class `v2`: `if_free` where `v2` is
    /// among the free variables of `e`, `if_not_free` where it is not.
    pub fn apply_one(&self, egraph: &EGraph, e: Id, v2: Id) -> (r: &'static str)
        requires
            egraph.has(e),
        ensures
            r == if egraph.free(e).contains(v2) {
                self.if_free
            } else {
                self.if_not_free
            },
    {
        broadcast use vstd::std_specs::hash::group_hash_axioms;

        let v2_free_in_e = egraph.get(e).free.contains(&v2);
        if v2_free_in_e {
            self.if_free
        } else {
            self.if_not_free
        }
    }
}

/// Where the binder is not free in the bound value, pushing the `let` under
/// the `lam` keeps the free variables: `(lam v2 (let v1 e body))` has those of
/// `(let v1 e (lam v2 body))`. Here `lam` is the class of `(lam v2 body)` and
/// `inner` the class of `(let v1 e body)`.
pub proof fn lemma_push_keeps_free(
    egraph: EGraph,
    v1: Id,
    v2: Id,
    e: Id,
    body: Id,
    lam: Id,
    inner: Id,
)
    requires
        egraph.free(lam) == egraph.free_of(Lambda::Lambda(v2, body)),
        egraph.free(inner) == egraph.free_of(Lambda::Let(v1, e, body)),
        !egraph.free(e).contains(v2),
    ensures
        egraph.free_of(Lambda::Lambda(v2, inner)) == egraph.free_of(Lambda::Let(v1, e, lam)),
{
    assert(egraph.free_of(Lambda::Lambda(v2, inner)) =~= egraph.free_of(Lambda::Let(v1, e, lam)));
}

/// Capture avoidance loses no free variable and captures none. Where `v2`
/// is free in `e`, the rule rewrites to
/// `(lam fresh (let v1 e (let v2 (var fresh) body)))`. The free variables of
/// that term are those of `e` and those of `body` other than `v1`, without
/// the fresh name; the `v2` of `e` is still among them, and that is all that
/// keeps `v2` there. Here `renamed` is the class of `(var fresh)`, `inner` the
/// class of `(let v2 (var fresh) body)`, and `outer` the class of
/// `(let v1 e inner)`.
pub proof fn lemma_capture_avoidance_free(
    egraph: EGraph,
    v1: Id,
    v2: Id,
    e: Id,
    body: Id,
    fresh: Id,
    renamed: Id,
    inner: Id,
    outer: Id,
)
    requires
        egraph.free(renamed) == egraph.free_of(Lambda::Var(fresh)),
        egraph.free(inner) == egraph.free_of(Lambda::Let(v2, renamed, body)),
        egraph.free(outer) == egraph.free_of(Lambda::Let(v1, e, inner)),
        egraph.free(e).contains(v2),
    ensures
        egraph.free_of(Lambda::Lambda(fresh, outer)) == egraph.free(e).union(
            egraph.free(body).remove(v1),
        ).remove(fresh),
        egraph.free_of(Lambda::Lambda(fresh, outer)) == egraph.free(e).union(
            egraph.free(body).remove(v2).remove(v1),
        ).remove(fresh),
        fresh != v2 ==> egraph.free_of(Lambda::Lambda(fresh, outer)).contains(v2),
{
    let result = egraph.free_of(Lambda::Lambda(fresh, outer));
    assert(result =~= egraph.free(e).union(egraph.free(body).remove(v1)).remove(fresh));
    assert(result =~= egraph.free(e).union(egraph.free(body).remove(v2).remove(v1)).remove(fresh));
}

} // verus!
