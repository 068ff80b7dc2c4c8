//! The analysis that every equivalence class of lambda terms carries: the
//! variables that are free in it, and the literal it folds to, if any.
use crate::lambda::{Id, Lambda};
use std::collections::{HashMap, HashSet};
use vstd::prelude::*;
use vstd::string::*;
use vstd::set_lib::*;
use vstd::std_specs::iter::IteratorSpec;

verus! {

broadcast use vstd::std_specs::hash::group_hash_axioms;

/// A folded constant: a boolean or a number.
#[derive(Clone, Copy, Debug, PartialEq, Eq, Structural, Hash)]
pub enum Literal {
    Bool(bool),
    Num(i32),
}

impl Literal {
    /// The literal as a node of the term grammar.
    pub open spec fn spec_node(self) -> Lambda {
        match self {
            Literal::Bool(b) => Lambda::Bool(b),
            Literal::Num(n) => Lambda::Num(n),
        }
    }

    /// The text that the literal is written as.
    pub open spec fn spec_text(self) -> Seq<char> {
        self.spec_node().spec_op()
    }

    /// The text that the literal is written as.
    pub fn text(self) -> (r: String)
        ensures
            r@ == self.spec_text(),
    {
        self.node().op()
    }

    /// The literal as a node of the term grammar.
    pub fn node(self) -> (r: Lambda)
        ensures
            r == self.spec_node(),
    {
        match self {
            Literal::Bool(b) => Lambda::Bool(b),
            Literal::Num(n) => Lambda::Num(n),
        }
    }
}

/// The pattern of an operator applied to two operands: `(op a b)`.
pub open spec fn binary(op: Seq<char>, a: Seq<char>, b: Seq<char>) -> Seq<char> {
    seq!['('] + op + seq![' '] + a + seq![' '] + b + seq![')']
}

/// The pattern of an operator applied to two operands.
pub fn binary_pattern(op: &str, a: &str, b: &str) -> (r: String)
    ensures
        r@ == binary(op@, a@, b@),
{
    proof {
        reveal_strlit("(");
        reveal_strlit(" ");
        reveal_strlit(")");
    }
    let r = String::from_str("(").concat(op).concat(" ").concat(a).concat(" ").concat(b).concat(
        ")",
    );
    assert(r@ =~= binary(op@, a@, b@));
    r
}

/// Why a class folds to its constant: the term over literals that was
/// evaluated. `Add(a, b)` stands for `(+ a b)`, `Eq(a, b)` for `(= a b)`.
#[derive(Clone, Copy, Debug, PartialEq, Eq, Structural, Hash)]
pub enum Proof {
    Literal(Literal),
    Add(Literal, Literal),
    Eq(Literal, Literal),
}

impl Proof {
    /// The term as a pattern.
    pub open spec fn spec_pattern(self) -> Seq<char> {
        match self {
            Proof::Literal(c) => c.spec_text(),
            Proof::Add(a, b) => binary("+"@, a.spec_text(), b.spec_text()),
            Proof::Eq(a, b) => binary("="@, a.spec_text(), b.spec_text()),
        }
    }

    /// The term as a pattern.
    pub fn pattern(self) -> (r: String)
        ensures
            r@ == self.spec_pattern(),
    {
        match self {
            Proof::Literal(c) => c.text(),
            Proof::Add(a, b) => binary_pattern("+", a.text().as_str(), b.text().as_str()),
            Proof::Eq(a, b) => binary_pattern("=", a.text().as_str(), b.text().as_str()),
        }
    }

    /// The literal that the term evaluates to, where it has one in range.
    pub open spec fn value(self) -> Option<Literal> {
        match self {
            Proof::Literal(c) => Some(c),
            Proof::Add(Literal::Num(x), Literal::Num(y)) => if i32::MIN <= x + y <= i32::MAX {
                Some(Literal::Num((x + y) as i32))
            } else {
                None
            },
            Proof::Add(_, _) => None,
            Proof::Eq(a, b) => Some(Literal::Bool(a == b)),
        }
    }
}

/// Which of the two arguments of a merge differ from its result: the first
/// field speaks of the data merged into, the second of the data merged from.
#[derive(Clone, Copy, Debug, PartialEq, Eq, Structural)]
pub struct DidMerge(pub bool, pub bool);

/// The analysis data of one equivalence class.
#[derive(Debug)]
pub struct Data {
    /// The variables considered free in the class.
    pub free: HashSet<Id>,
    /// The literal that the class folds to, with the term that shows it.
    pub constant: Option<(Literal, Proof)>,
}

impl Data {
    /// The constant is the value of the term that justifies it.
    pub open spec fn wf(&self) -> bool {
        self.constant matches Some((c, p)) ==> p.value() == Some(c)
    }

    /// The literal that the class folds to, without its justification.
    pub open spec fn literal(&self) -> Option<Literal> {
        match self.constant {
            Some((c, _)) => Some(c),
            None => None,
        }
    }
}

/// The free variables of a class that arises from merging two classes whose
/// free variables are `to` and `from`: those that both agree on.
pub open spec fn merged_free(to: Set<Id>, from: Set<Id>) -> Set<Id> {
    to.intersect(from)
}

/// The constant of a class that arises from merging two classes: the one
/// already known wins, else the one merged in.
pub open spec fn merged_constant(
    to: Option<(Literal, Proof)>,
    from: Option<(Literal, Proof)>,
) -> Option<(Literal, Proof)> {
    merged_option(to, from)
}

/// What the analysis reads of an e-graph: the data of its classes by handle,
/// and whether unions have to be explained.
pub struct EGraph {
    pub classes: HashMap<Id, Data>,
    pub explanations: bool,
}

impl EGraph {
    /// The graph holds a class under this handle.
    pub open spec fn has(&self, id: Id) -> bool {
        self.classes@.contains_key(id)
    }

    /// The classes whose data the analysis of a node reads: those of its
    /// children that are terms. The name in a variable reference or in a
    /// binder is a class too, of which nothing is read.
    pub open spec fn reads(enode: Lambda) -> Seq<Id> {
        match enode {
            Lambda::Var(_) => seq![],
            Lambda::Let(_, a, b) => seq![a, b],
            Lambda::Lambda(_, a) | Lambda::Fix(_, a) => seq![a],
            _ => enode.spec_children(),
        }
    }

    /// The graph holds every class that the analysis of the node reads.
    pub open spec fn has_operands(&self, enode: Lambda) -> bool {
        forall|i: int|
            0 <= i < Self::reads(enode).len() ==> self.has(#[trigger] Self::reads(enode)[i])
    }

    /// The free variables recorded for a class.
    pub open spec fn free(&self, id: Id) -> Set<Id> {
        self.classes@[id].free@
    }

    /// The literal recorded for a class.
    pub open spec fn literal(&self, id: Id) -> Option<Literal> {
        self.classes@[id].literal()
    }

    /// The free variables of a node, from those of the classes it refers to:
    /// a variable is free in its own reference; a binder removes its name from
    /// the body; `let` adds what is free in the bound value, which lies
    /// outside the binder's scope; every other operator unites its children.
    pub open spec fn free_of(&self, enode: Lambda) -> Set<Id> {
        match enode {
            Lambda::Var(v) => set![v],
            Lambda::Let(v, a, b) => self.free(b).remove(v).union(self.free(a)),
            Lambda::Lambda(v, a) | Lambda::Fix(v, a) => self.free(a).remove(v),
            Lambda::Add(a, b) | Lambda::Eq(a, b) | Lambda::App(a, b) => self.free(a).union(
                self.free(b),
            ),
            Lambda::If(a, b, c) => self.free(a).union(self.free(b)).union(self.free(c)),
            Lambda::Fresh(a) => self.free(a),
            Lambda::Bool(_) | Lambda::Num(_) | Lambda::Symbol(_) => Set::empty(),
        }
    }

    /// The term over literals that a node amounts to, where the classes it
    /// refers to are known constants of the kind the operator takes.
    pub open spec fn proof_of(&self, enode: Lambda) -> Option<Proof> {
        match enode {
            Lambda::Num(n) => Some(Proof::Literal(Literal::Num(n))),
            Lambda::Bool(b) => Some(Proof::Literal(Literal::Bool(b))),
            Lambda::Add(a, b) => match (self.literal(a), self.literal(b)) {
                (Some(Literal::Num(x)), Some(Literal::Num(y))) => Some(
                    Proof::Add(Literal::Num(x), Literal::Num(y)),
                ),
                _ => None,
            },
            Lambda::Eq(a, b) => match (self.literal(a), self.literal(b)) {
                (Some(x), Some(y)) => Some(Proof::Eq(x, y)),
                _ => None,
            },
            _ => None,
        }
    }

    /// The sum that folding the node would compute fits the machine's
    /// numbers.
    pub open spec fn in_range(&self, enode: Lambda) -> bool {
        self.proof_of(enode) matches Some(p) ==> p.value() is Some
    }

    /// The constant of a node: the value of the term it amounts to, with
    /// that term.
    pub open spec fn fold(&self, enode: Lambda) -> Option<(Literal, Proof)> {
        match self.proof_of(enode) {
            Some(p) => match p.value() {
                Some(c) => Some((c, p)),
                None => None,
            },
            None => None,
        }
    }

    /// A graph without classes.
    pub fn new(explanations: bool) -> (r: EGraph)
        ensures
            r.classes@ == Map::<Id, Data>::empty(),
            r.explanations == explanations,
    {
        EGraph { classes: HashMap::new(), explanations }
    }

    /// Records the data of a class, in place of what was recorded for it.
    pub fn insert(&mut self, id: Id, data: Data)
        ensures
            final(self).classes@ == old(self).classes@.insert(id, data),
            final(self).explanations == old(self).explanations,
    {
        self.classes.insert(id, data);
    }

    /// The data of a class.
    pub fn get(&self, id: Id) -> (r: &Data)
        requires
            self.has(id),
        ensures
            *r == self.classes@[id],
    {
        let found = self.classes.get(&id);
        found.unwrap()
    }

    /// Whether unions have to be explained.
    pub fn are_explanations_enabled(&self) -> (r: bool)
        ensures
            r == self.explanations,
    {
        self.explanations
    }
}

/// What remains to be done to the e-graph once a class has a constant.
#[derive(Clone, Copy, Debug, PartialEq, Eq, Structural)]
pub enum Action {
    /// The class has no constant: nothing to do.
    Nothing,
    /// Unite the literal with the term that evaluates to it, as an
    /// instantiation of the rule `"analysis"` under the empty substitution.
    UnionInstantiations { from: Literal, to: Proof },
    /// Add the literal as a node and unite its class with the class `id`.
    AddAndUnion { id: Id, node: Literal },
}

/// A hash set holds finitely many members.
proof fn lemma_finite(s: &HashSet<Id>)
    ensures
        s@.finite(),
{
    let keys = vstd::std_specs::hash::spec_hash_keys_iter(s).remaining().unref();
    assert(keys.to_set() == s@);
    vstd::seq_lib::seq_to_set_is_finite(keys);
}

/// Adds to `free` every member of `other`.
fn extend(free: &mut HashSet<Id>, other: &HashSet<Id>)
    ensures
        final(free)@ == old(free)@.union(other@),
{
    for x in it: other.iter()
        invariant
            it.seq().unref().to_set() == other@,
            forall|k: Id| #[trigger]
                free@.contains(k) <==> (old(free)@.contains(k) || exists|j: int|
                    0 <= j < it.index() && #[trigger] it.seq().unref()[j] == k),
    {
        free.insert(*x);
    }
    assert(free@ =~= old(free)@.union(other@));
}

/// The members of `to` that `from` holds too.
fn retain_common(to: &HashSet<Id>, from: &HashSet<Id>) -> (kept: HashSet<Id>)
    ensures
        kept@ == to@.intersect(from@),
{
    let mut kept: HashSet<Id> = HashSet::new();
    for x in it: to.iter()
        invariant
            it.seq().unref().to_set() == to@,
            forall|k: Id| #[trigger]
                kept@.contains(k) <==> (from@.contains(k) && exists|j: int|
                    0 <= j < it.index() && #[trigger] it.seq().unref()[j] == k),
    {
        if from.contains(x) {
            kept.insert(*x);
        }
    }
    assert(kept@ =~= to@.intersect(from@));
    kept
}

/// Leaves the constant that a class already has in place: two constants of
/// one class are equal, so neither side learns anything.
pub(crate) fn keep<T>(to: &mut T, from: T) -> (r: DidMerge)
    ensures
        *final(to) == *old(to),
        r == DidMerge(false, false),
{
    DidMerge(false, false)
}

/// What merging two optional constants leaves in the first: the one already
/// known wins, else the one merged in.
pub open spec fn merged_option<T>(to: Option<T>, from: Option<T>) -> Option<T> {
    if to is Some {
        to
    } else {
        from
    }
}

/// `egg::merge_option`, with `keep` to merge two constants. A constant wins
/// over none: where only `from` has one, `to` takes it and is reported as
/// changed; where only `to` has one, `from` is reported as differing; where
/// both or neither have one, `to` stays and nothing is reported.
#[verifier::external_body]
pub(crate) fn merge_option<T>(to: &mut Option<T>, from: Option<T>) -> (r: DidMerge)
    ensures
        *final(to) == merged_option(*old(to), from),
        r.0 == (*old(to) is None && from is Some),
        r.1 == (*old(to) is Some && from is None),
{
    let did = egg::merge_option(
        to,
        from,
        |a, b| {
            let kept = keep(a, b);
            egg::DidMerge(kept.0, kept.1)
        },
    );
    DidMerge(did.0, did.1)
}

/// The constant of a node, from the constants of the classes it refers to.
///
/// A literal folds to itself. A sum folds where both operands are known
/// numbers, an equality test where both operands are known constants. Every
/// other node, and every node with an operand that is not known, has no
/// constant. The sum must fit the machine's numbers.
pub fn eval(egraph: &EGraph, enode: &Lambda) -> (r: Option<(Literal, Proof)>)
    requires
        *enode matches Lambda::Add(a, b) ==> egraph.has(a) && egraph.has(b),
        *enode matches Lambda::Eq(a, b) ==> egraph.has(a) && egraph.has(b),
        egraph.in_range(*enode),
    ensures
        r == egraph.fold(*enode),
{
    match enode {
        Lambda::Num(n) => Some((Literal::Num(*n), Proof::Literal(Literal::Num(*n)))),
        Lambda::Bool(b) => Some((Literal::Bool(*b), Proof::Literal(Literal::Bool(*b)))),
        Lambda::Add(a, b) => {
            match (egraph.get(*a).constant, egraph.get(*b).constant) {
                (Some((Literal::Num(x), _)), Some((Literal::Num(y), _))) => Some(
                    (Literal::Num(x + y), Proof::Add(Literal::Num(x), Literal::Num(y))),
                ),
                _ => None,
            }
        },
        Lambda::Eq(a, b) => {
            match (egraph.get(*a).constant, egraph.get(*b).constant) {
                (Some((x, _)), Some((y, _))) => Some((Literal::Bool(x == y), Proof::Eq(x, y))),
                _ => None,
            }
        },
        _ => None,
    }
}

/// The analysis of lambda terms: free variables and constant folding.
#[derive(Default)]
pub struct LambdaAnalysis;

impl LambdaAnalysis {
    /// The data of a class that holds just this node.
    pub fn make(egraph: &EGraph, enode: &Lambda) -> (data: Data)
        requires
            egraph.has_operands(*enode),
            egraph.in_range(*enode),
        ensures
            data.free@ == egraph.free_of(*enode),
            data.constant == egraph.fold(*enode),
            data.wf(),
    {
        let mut free: HashSet<Id> = HashSet::new();
        proof {
            let ch = EGraph::reads(*enode);
            if ch.len() > 0 {
                assert(egraph.has(ch[0]));
            }
            if ch.len() > 1 {
                assert(egraph.has(ch[1]));
            }
            if ch.len() > 2 {
                assert(egraph.has(ch[2]));
            }
        }
        match enode {
            Lambda::Var(v) => {
                free.insert(*v);
            },
            Lambda::Let(v, a, b) => {
                extend(&mut free, &egraph.get(*b).free);
                free.remove(v);
                extend(&mut free, &egraph.get(*a).free);
            },
            Lambda::Lambda(v, a) | Lambda::Fix(v, a) => {
                extend(&mut free, &egraph.get(*a).free);
                free.remove(v);
            },
            Lambda::Add(a, b) | Lambda::Eq(a, b) | Lambda::App(a, b) => {
                extend(&mut free, &egraph.get(*a).free);
                extend(&mut free, &egraph.get(*b).free);
            },
            Lambda::If(a, b, c) => {
                extend(&mut free, &egraph.get(*a).free);
                extend(&mut free, &egraph.get(*b).free);
                extend(&mut free, &egraph.get(*c).free);
            },
            Lambda::Fresh(a) => {
                extend(&mut free, &egraph.get(*a).free);
            },
            Lambda::Bool(_) | Lambda::Num(_) | Lambda::Symbol(_) => {},
        }
        assert(free@ =~= egraph.free_of(*enode));
        let constant = eval(egraph, enode);
        Data { constant, free }
    }

    /// Merges the data of a class into the data of the class that absorbs
    /// it. The free variables narrow to those that both classes agree on. A
    /// known constant is kept, and one that only `from` knows is taken over.
    /// The result says which of the two inputs differs from what `to` is in
    /// the end. Two classes with different constants must never be merged.
    pub fn merge(&mut self, to: &mut Data, from: Data) -> (r: DidMerge)
        requires
            old(to).constant is Some && from.constant is Some ==> old(to).literal()
                == from.literal(),
        ensures
            final(to).free@ == merged_free(old(to).free@, from.free@),
            final(to).constant == merged_constant(old(to).constant, from.constant),
            r.0 == (final(to).free@ != old(to).free@ || final(to).literal() != old(to).literal()),
            r.1 == (final(to).free@ != from.free@ || final(to).literal() != from.literal()),
            old(to).wf() && from.wf() ==> final(to).wf(),
    {
        let before_len = to.free.len();
        let kept = retain_common(&to.free, &from.free);
        proof {
            let a = old(to).free@;
            let b = from.free@;
            lemma_finite(&old(to).free);
            lemma_finite(&from.free);
            lemma_len_intersect::<Id>(a, b);
            lemma_len_intersect::<Id>(b, a);
            assert(b.intersect(a) =~= a.intersect(b));
            if a.intersect(b).len() == a.len() {
                lemma_subset_equality(a.intersect(b), a);
            }
            if a.intersect(b).len() == b.len() {
                lemma_subset_equality(a.intersect(b), b);
            }
        }
        to.free = kept;
        let free_changed = DidMerge(
            before_len != to.free.len(),
            to.free.len() != from.free.len(),
        );
        let constant_changed = merge_option(&mut to.constant, from.constant);
        DidMerge(free_changed.0 || constant_changed.0, free_changed.1 || constant_changed.1)
    }

    /// What to do to the e-graph for the class `id`: nothing while it has no
    /// constant; once it has one, make the literal a member of the class, by
    /// an explained union where explanations are on, else by adding the
    /// literal node and uniting the two classes.
    pub fn modify(egraph: &EGraph, id: Id) -> (r: Action)
        requires
            egraph.has(id),
        ensures
            r == match egraph.classes@[id].constant {
                None => Action::Nothing,
                Some((c, p)) => if egraph.explanations {
                    Action::UnionInstantiations { from: c, to: p }
                } else {
                    Action::AddAndUnion { id, node: c }
                },
            },
    {
        match egraph.get(id).constant {
            None => Action::Nothing,
            Some((c, p)) => {
                if egraph.are_explanations_enabled() {
                    Action::UnionInstantiations { from: c, to: p }
                } else {
                    Action::AddAndUnion { id, node: c }
                }
            },
        }
    }
}

/// A closed arithmetic term over literals.
pub enum Expr {
    Lit(Literal),
    Add(Box<Expr>, Box<Expr>),
    Eq(Box<Expr>, Box<Expr>),
}

impl Expr {
    /// The literal that the term evaluates to, computed on the term itself:
    /// a sum of two numbers is their sum where it is in range, an equality
    /// test of two values says whether they are the same literal.
    pub open spec fn value(self) -> Option<Literal>
        decreases self,
    {
        match self {
            Expr::Lit(c) => Some(c),
            Expr::Add(a, b) => match (a.value(), b.value()) {
                (Some(Literal::Num(x)), Some(Literal::Num(y))) => if i32::MIN <= x + y <= i32::MAX {
                    Some(Literal::Num((x + y) as i32))
                } else {
                    None
                },
                _ => None,
            },
            Expr::Eq(a, b) => match (a.value(), b.value()) {
                (Some(x), Some(y)) => Some(Literal::Bool(x == y)),
                _ => None,
            },
        }
    }

    /// The node at the root of the term, where `ids` names the class of each
    /// subterm.
    pub open spec fn root(self, ids: spec_fn(Expr) -> Id) -> Lambda {
        match self {
            Expr::Lit(c) => c.spec_node(),
            Expr::Add(a, b) => Lambda::Add(ids(*a), ids(*b)),
            Expr::Eq(a, b) => Lambda::Eq(ids(*a), ids(*b)),
        }
    }

    /// The graph holds the term: each subterm has a class, named by `ids`,
    /// and the constant of that class is the one that folding the subterm's
    /// root node gives. Nothing is said of the order in which the classes
    /// got their constants.
    pub open spec fn folded_in(self, egraph: EGraph, ids: spec_fn(Expr) -> Id) -> bool
        decreases self,
    {
        &&& egraph.has(ids(self))
        &&& egraph.classes@[ids(self)].constant == egraph.fold(self.root(ids))
        &&& match self {
            Expr::Lit(_) => true,
            Expr::Add(a, b) | Expr::Eq(a, b) => a.folded_in(egraph, ids) && b.folded_in(
                egraph,
                ids,
            ),
        }
    }
}

/// Constant folding is confluent: however a graph came to hold a term over
/// literals, the constant of the term's class is the value of the term.
pub proof fn lemma_folding_is_evaluation(egraph: EGraph, e: Expr, ids: spec_fn(Expr) -> Id)
    requires
        e.folded_in(egraph, ids),
    ensures
        egraph.literal(ids(e)) == e.value(),
    decreases e,
{
    match e {
        Expr::Lit(_) => {},
        Expr::Add(a, b) | Expr::Eq(a, b) => {
            lemma_folding_is_evaluation(egraph, *a, ids);
            lemma_folding_is_evaluation(egraph, *b, ids);
        },
    }
}

/// Merging is commutative on free variables.
pub proof fn lemma_merged_free_commutative(a: Set<Id>, b: Set<Id>)
    ensures
        merged_free(a, b) == merged_free(b, a),
{
    assert(merged_free(a, b) =~= merged_free(b, a));
}

/// Merging is idempotent on free variables: merging the same data in a
/// second time changes nothing, and neither does merging a class with itself.
pub proof fn lemma_merged_free_idempotent(a: Set<Id>, b: Set<Id>)
    ensures
        merged_free(merged_free(a, b), b) == merged_free(a, b),
        merged_free(a, a) == a,
{
    assert(merged_free(merged_free(a, b), b) =~= merged_free(a, b));
    assert(merged_free(a, a) =~= a);
}

} // verus!
