//! Constant folding for arithmetic: the analysis that records, for every
//! equivalence class, the rational constant it is known to equal.
use crate::analysis::{binary, binary_pattern, merge_option, merged_option, DidMerge};
use crate::lambda::Id;
use crate::math::Math;
use crate::rational::{difference, product, quotient, representable, sum, Constant};
use std::collections::HashMap;
use vstd::prelude::*;

verus! {

broadcast use vstd::std_specs::hash::group_hash_axioms;

/// Why a class folds to its constant: the operation on two constants that
/// was evaluated, or the literal itself.
#[derive(Clone, Copy, Debug, PartialEq, Eq, Structural, Hash)]
pub enum Proof {
    Literal(Constant),
    Add(Constant, Constant),
    Sub(Constant, Constant),
    Mul(Constant, Constant),
    Div(Constant, Constant),
}

impl Proof {
    /// The term as a pattern.
    pub open spec fn spec_pattern(self) -> Seq<char> {
        match self {
            Proof::Literal(c) => c.spec_text(),
            Proof::Add(a, b) => binary("+"@, a.spec_text(), b.spec_text()),
            Proof::Sub(a, b) => binary("-"@, a.spec_text(), b.spec_text()),
            Proof::Mul(a, b) => binary("*"@, a.spec_text(), b.spec_text()),
            Proof::Div(a, b) => binary("/"@, a.spec_text(), b.spec_text()),
        }
    }

    /// The term as a pattern.
    pub fn pattern(self) -> (r: String)
        ensures
            r@ == self.spec_pattern(),
    {
        match self {
            Proof::Literal(c) => c.text(),
            Proof::Add(a, b) => binary_pattern("+", a.text().as_str(), b.text().as_str()),
            Proof::Sub(a, b) => binary_pattern("-", a.text().as_str(), b.text().as_str()),
            Proof::Mul(a, b) => binary_pattern("*", a.text().as_str(), b.text().as_str()),
            Proof::Div(a, b) => binary_pattern("/", a.text().as_str(), b.text().as_str()),
        }
    }

    /// Every constant in the term is well formed.
    pub open spec fn wf(self) -> bool {
        match self {
            Proof::Literal(c) => c.wf(),
            Proof::Add(a, b) | Proof::Sub(a, b) | Proof::Mul(a, b) | Proof::Div(a, b) => a.wf()
                && b.wf(),
        }
    }

    /// The constant that the term evaluates to, in exact rational
    /// arithmetic: none where the divisor is zero, and none where the result
    /// does not fit the machine's numbers.
    pub open spec fn value(self) -> Option<Constant> {
        match self {
            Proof::Literal(c) => Some(c),
            Proof::Add(a, b) => representable(sum(a, b)),
            Proof::Sub(a, b) => representable(difference(a, b)),
            Proof::Mul(a, b) => representable(product(a, b)),
            Proof::Div(a, b) => if b.numer == 0 {
                None
            } else {
                representable(quotient(a, b))
            },
        }
    }

    /// Evaluates the term.
    pub fn evaluate(self) -> (r: Option<Constant>)
        requires
            self.wf(),
        ensures
            r == self.value(),
            r matches Some(c) ==> c.wf(),
    {
        match self {
            Proof::Literal(c) => Some(c),
            Proof::Add(a, b) => a.checked_add(b),
            Proof::Sub(a, b) => a.checked_sub(b),
            Proof::Mul(a, b) => a.checked_mul(b),
            Proof::Div(a, b) => {
                if b.is_zero() {
                    None
                } else {
                    a.checked_div(b)
                }
            },
        }
    }
}

/// The analysis data of a class: the constant it is known to equal, with the
/// term that shows it.
pub type Data = Option<(Constant, Proof)>;

/// The data is well formed: its constant is the value of a well-formed term.
pub open spec fn data_wf(data: Data) -> bool {
    data matches Some((c, p)) ==> c.wf() && p.wf() && p.value() == Some(c)
}

/// The constant of the data, without its justification.
pub open spec fn constant_of(data: Data) -> Option<Constant> {
    match data {
        Some((c, _)) => Some(c),
        None => None,
    }
}

/// What the analysis and the side conditions read of a class: its nodes and
/// its data.
#[derive(Debug)]
pub struct EClass {
    pub nodes: Vec<Math>,
    pub data: Data,
}

/// What the analysis and the side conditions read of an e-graph: its classes
/// by canonical handle, and whether unions have to be explained.
pub struct EGraph {
    pub classes: HashMap<Id, EClass>,
    pub explanations: bool,
}

impl EGraph {
    /// The graph holds a class under this handle.
    pub open spec fn has(&self, id: Id) -> bool {
        self.classes@.contains_key(id)
    }

    /// The graph holds every class that the node refers to.
    pub open spec fn has_children(&self, enode: Math) -> bool {
        forall|i: int|
            0 <= i < enode.spec_children().len() ==> self.has(#[trigger] enode.spec_children()[i])
    }

    /// The constant recorded for a class.
    pub open spec fn constant(&self, id: Id) -> Option<Constant> {
        constant_of(self.classes@[id].data)
    }

    /// The nodes recorded for a class.
    pub open spec fn nodes(&self, id: Id) -> Seq<Math> {
        self.classes@[id].nodes@
    }

    /// The data of every class is well formed.
    pub open spec fn wf(&self) -> bool {
        forall|id: Id| self.has(id) ==> data_wf((#[trigger] self.classes@[id]).data)
    }

    /// The term over constants that a node amounts to, where the classes it
    /// refers to are known constants and the operator is one of the four
    /// that fold.
    pub open spec fn proof_of(&self, enode: Math) -> Option<Proof> {
        match enode {
            Math::Constant(c) => Some(Proof::Literal(c)),
            Math::Add(a, b) => match (self.constant(a), self.constant(b)) {
                (Some(x), Some(y)) => Some(Proof::Add(x, y)),
                _ => None,
            },
            Math::Sub(a, b) => match (self.constant(a), self.constant(b)) {
                (Some(x), Some(y)) => Some(Proof::Sub(x, y)),
                _ => None,
            },
            Math::Mul(a, b) => match (self.constant(a), self.constant(b)) {
                (Some(x), Some(y)) => Some(Proof::Mul(x, y)),
                _ => None,
            },
            Math::Div(a, b) => match (self.constant(a), self.constant(b)) {
                (Some(x), Some(y)) => Some(Proof::Div(x, y)),
                _ => None,
            },
            _ => None,
        }
    }

    /// The constant of a node: the value of the term it amounts to, with
    /// that term. A node has none where an operand is not known, where it
    /// divides by zero, where its operator does not fold, and where the
    /// result does not fit the machine's numbers.
    pub open spec fn fold(&self, enode: Math) -> Data {
        match self.proof_of(enode) {
            Some(p) => match p.value() {
                Some(c) => Some((c, p)),
                None => None,
            },
            None => None,
        }
    }

    /// A graph without classes.
    pub fn new(explanations: bool) -> (r: EGraph)
        ensures
            r.classes@ == Map::<Id, EClass>::empty(),
            r.explanations == explanations,
    {
        EGraph { classes: HashMap::new(), explanations }
    }

    /// Records a class, in place of what was recorded under its handle.
    pub fn insert(&mut self, id: Id, class: EClass)
        ensures
            final(self).classes@ == old(self).classes@.insert(id, class),
            final(self).explanations == old(self).explanations,
    {
        self.classes.insert(id, class);
    }

    /// The class under a handle.
    pub fn get(&self, id: Id) -> (r: &EClass)
        requires
            self.has(id),
        ensures
            *r == self.classes@[id],
    {
        let found = self.classes.get(&id);
        found.unwrap()
    }

    /// The constant recorded for a class.
    pub fn constant_at(&self, id: Id) -> (r: Option<Constant>)
        requires
            self.has(id),
        ensures
            r == self.constant(id),
    {
        match self.get(id).data {
            Some((c, _)) => Some(c),
            None => None,
        }
    }
}

/// What remains to be done to the e-graph once a class has a constant. After
/// either union the class is pruned: of its nodes only the leaves stay, since
/// a class that is a known constant needs no other member.
#[derive(Clone, Copy, Debug, PartialEq, Eq, Structural)]
pub enum Action {
    /// The class has no constant: nothing to do.
    Nothing,
    /// Unite the term that was evaluated with the literal, as an
    /// instantiation of the rule `"constant_fold"` under the empty
    /// substitution; then prune the class.
    UnionInstantiations { from: Proof, to: Constant },
    /// Add the literal as a node and unite its class with the class `id`;
    /// then prune the class.
    AddAndUnion { id: Id, node: Constant },
}

/// The term over constants that a node amounts to.
fn proof_of(egraph: &EGraph, enode: &Math) -> (r: Option<Proof>)
    requires
        egraph.has_children(*enode),
    ensures
        r == egraph.proof_of(*enode),
{
    proof {
        let ch = enode.spec_children();
        if ch.len() > 0 {
            assert(egraph.has(ch[0]));
        }
        if ch.len() > 1 {
            assert(egraph.has(ch[1]));
        }
    }
    match enode {
        Math::Constant(c) => Some(Proof::Literal(*c)),
        Math::Add(a, b) => match (egraph.constant_at(*a), egraph.constant_at(*b)) {
            (Some(x), Some(y)) => Some(Proof::Add(x, y)),
            _ => None,
        },
        Math::Sub(a, b) => match (egraph.constant_at(*a), egraph.constant_at(*b)) {
            (Some(x), Some(y)) => Some(Proof::Sub(x, y)),
            _ => None,
        },
        Math::Mul(a, b) => match (egraph.constant_at(*a), egraph.constant_at(*b)) {
            (Some(x), Some(y)) => Some(Proof::Mul(x, y)),
            _ => None,
        },
        Math::Div(a, b) => match (egraph.constant_at(*a), egraph.constant_at(*b)) {
            (Some(x), Some(y)) => Some(Proof::Div(x, y)),
            _ => None,
        },
        _ => None,
    }
}

/// The analysis of arithmetic terms: constant folding.
#[derive(Default)]
pub struct ConstantFold;

impl ConstantFold {
    /// The data of a class that holds just this node: the constant that the
    /// node folds to, from the constants of the classes it refers to.
    pub fn make(egraph: &EGraph, enode: &Math) -> (data: Data)
        requires
            egraph.has_children(*enode),
            egraph.wf(),
            enode.wf(),
        ensures
            data == egraph.fold(*enode),
            data_wf(data),
    {
        match proof_of(egraph, enode) {
            Some(p) => {
                proof {
                    let ch = enode.spec_children();
                    if ch.len() > 1 {
                        assert(egraph.has(ch[0]) && egraph.has(ch[1]));
                        assert(data_wf(egraph.classes@[ch[0]].data));
                        assert(data_wf(egraph.classes@[ch[1]].data));
                    }
                }
                match p.evaluate() {
                    Some(c) => Some((c, p)),
                    None => None,
                }
            },
            None => None,
        }
    }

    /// Merges the data of a class into the data of the class that absorbs
    /// it: a known constant is kept, and one that only `from` knows is taken
    /// over. The result says which of the two inputs differs from what `to`
    /// is in the end. Two classes with different constants must never be
    /// merged.
    pub fn merge(&mut self, to: &mut Data, from: Data) -> (r: DidMerge)
        requires
            *old(to) is Some && from is Some ==> constant_of(*old(to)) == constant_of(from),
        ensures
            *final(to) == merged_option(*old(to), from),
            r.0 == (constant_of(*final(to)) != constant_of(*old(to))),
            r.1 == (constant_of(*final(to)) != constant_of(from)),
            data_wf(*old(to)) && data_wf(from) ==> data_wf(*final(to)),
    {
        merge_option(to, from)
    }

    /// Whether pruning keeps a node: it keeps the leaves.
    pub fn keeps(enode: &Math) -> (r: bool)
        ensures
            r == (enode.spec_children().len() == 0),
    {
        match enode {
            Math::Constant(_) | Math::Symbol(_) => true,
            _ => false,
        }
    }

    /// What to do to the e-graph for the class `id`: nothing while it has no
    /// constant; once it has one, make the literal a member of the class, by
    /// an explained union where explanations are on, else by adding the
    /// literal node and uniting the two classes, and prune the class.
    pub fn modify(egraph: &EGraph, id: Id) -> (r: Action)
        requires
            egraph.has(id),
        ensures
            r == match egraph.classes@[id].data {
                None => Action::Nothing,
                Some((c, p)) => if egraph.explanations {
                    Action::UnionInstantiations { from: p, to: c }
                } else {
                    Action::AddAndUnion { id, node: c }
                },
            },
    {
        match egraph.get(id).data {
            None => Action::Nothing,
            Some((c, p)) => {
                if egraph.explanations {
                    Action::UnionInstantiations { from: p, to: c }
                } else {
                    Action::AddAndUnion { id, node: c }
                }
            },
        }
    }
}

/// A closed arithmetic term over constants.
pub enum Expr {
    Lit(Constant),
    Add(Box<Expr>, Box<Expr>),
    Sub(Box<Expr>, Box<Expr>),
    Mul(Box<Expr>, Box<Expr>),
    Div(Box<Expr>, Box<Expr>),
}

impl Expr {
    /// The constant that the term evaluates to, computed on the term itself
    /// in exact rational arithmetic. A term has no value where it divides by
    /// zero, and where a number on the way does not fit the machine's
    /// numbers.
    pub open spec fn value(self) -> Option<Constant>
        decreases self,
    {
        match self {
            Expr::Lit(c) => Some(c),
            Expr::Add(a, b) => match (a.value(), b.value()) {
                (Some(x), Some(y)) => representable(sum(x, y)),
                _ => None,
            },
            Expr::Sub(a, b) => match (a.value(), b.value()) {
                (Some(x), Some(y)) => representable(difference(x, y)),
                _ => None,
            },
            Expr::Mul(a, b) => match (a.value(), b.value()) {
                (Some(x), Some(y)) => representable(product(x, y)),
                _ => None,
            },
            Expr::Div(a, b) => match (a.value(), b.value()) {
                (Some(x), Some(y)) => if y.numer == 0 {
                    None
                } else {
                    representable(quotient(x, y))
                },
                _ => None,
            },
        }
    }

    /// The node at the root of the term, where `ids` names the class of each
    /// subterm.
    pub open spec fn root(self, ids: spec_fn(Expr) -> Id) -> Math {
        match self {
            Expr::Lit(c) => Math::Constant(c),
            Expr::Add(a, b) => Math::Add(ids(*a), ids(*b)),
            Expr::Sub(a, b) => Math::Sub(ids(*a), ids(*b)),
            Expr::Mul(a, b) => Math::Mul(ids(*a), ids(*b)),
            Expr::Div(a, b) => Math::Div(ids(*a), ids(*b)),
        }
    }

    /// The graph holds the term: each subterm has a class, named by `ids`,
    /// and the constant of that class is the one that folding the subterm's
    /// root node gives. Nothing is said of the order in which the classes
    /// got their constants.
    pub open spec fn folded_in(self, egraph: EGraph, ids: spec_fn(Expr) -> Id) -> bool
        decreases self,
    {
        &&& egraph.has(ids(self))
        &&& egraph.classes@[ids(self)].data == egraph.fold(self.root(ids))
        &&& match self {
            Expr::Lit(_) => true,
            Expr::Add(a, b) | Expr::Sub(a, b) | Expr::Mul(a, b) | Expr::Div(a, b) => a.folded_in(
                egraph,
                ids,
            ) && b.folded_in(egraph, ids),
        }
    }
}

/// Constant folding is confluent: however a graph came to hold a term over
/// constants, the constant of the term's class is the value of the term.
pub proof fn lemma_folding_is_evaluation(egraph: EGraph, e: Expr, ids: spec_fn(Expr) -> Id)
    requires
        e.folded_in(egraph, ids),
    ensures
        egraph.constant(ids(e)) == e.value(),
    decreases e,
{
    match e {
        Expr::Lit(_) => {},
        Expr::Add(a, b) | Expr::Sub(a, b) | Expr::Mul(a, b) | Expr::Div(a, b) => {
            lemma_folding_is_evaluation(egraph, *a, ids);
            lemma_folding_is_evaluation(egraph, *b, ids);
        },
    }
}

} // verus!
