//! The term grammar of arithmetic and calculus, and its rewrite rules.
use crate::lambda::Id;
use crate::lambda::FromOpError;
use crate::rational::{reduced, Constant};
use crate::rewrite::{views, Applier, Condition, Rewrite, RewriteView};
use crate::text::same;
use vstd::prelude::*;
use vstd::string::*;

pub mod run_n;

verus! {

/// One node of a term of arithmetic or calculus. The children of an operator
/// are class handles: `d` takes the variable, then the term; `i` takes the
/// term, then the variable.
#[derive(Clone, Debug, PartialEq, Eq, Hash)]
pub enum Math {
    Diff(Id, Id),
    Integral(Id, Id),
    Add(Id, Id),
    Sub(Id, Id),
    Mul(Id, Id),
    Div(Id, Id),
    Pow(Id, Id),
    Ln(Id),
    Sqrt(Id),
    Sin(Id),
    Cos(Id),
    Constant(Constant),
    Symbol(String),
}

impl Math {
    /// The grammar has a node for the operator `op` with `n` children: every
    /// text stands for a leaf, and each operator has its one arity.
    pub open spec fn accepts(op: Seq<char>, n: nat) -> bool {
        ||| n == 0
        ||| n == 1 && (op == "ln"@ || op == "sqrt"@ || op == "sin"@ || op == "cos"@)
        ||| n == 2 && (op == "d"@ || op == "i"@ || op == "+"@ || op == "-"@ || op == "*"@ || op
            == "/"@ || op == "pow"@)
    }

    /// `node` is the node that the operator `op` stands for, given its
    /// children. Without children, a text that stands for a constant is that
    /// constant, and any other text is a symbol.
    pub open spec fn denotes(op: Seq<char>, children: Seq<Id>, node: Math) -> bool {
        if children.len() == 0 {
            match Constant::spec_parse(op) {
                Some(c) => node == Math::Constant(c),
                None => node matches Math::Symbol(name) && name@ == op,
            }
        } else if children.len() == 1 {
            if op == "ln"@ {
                node == Math::Ln(children[0])
            } else if op == "sqrt"@ {
                node == Math::Sqrt(children[0])
            } else if op == "sin"@ {
                node == Math::Sin(children[0])
            } else {
                op == "cos"@ && node == Math::Cos(children[0])
            }
        } else if children.len() == 2 {
            if op == "d"@ {
                node == Math::Diff(children[0], children[1])
            } else if op == "i"@ {
                node == Math::Integral(children[0], children[1])
            } else if op == "+"@ {
                node == Math::Add(children[0], children[1])
            } else if op == "-"@ {
                node == Math::Sub(children[0], children[1])
            } else if op == "*"@ {
                node == Math::Mul(children[0], children[1])
            } else if op == "/"@ {
                node == Math::Div(children[0], children[1])
            } else {
                op == "pow"@ && node == Math::Pow(children[0], children[1])
            }
        } else {
            false
        }
    }

    /// The text that the node is written as: the name of its operator, the
    /// text of a constant, the name of a symbol.
    pub open spec fn spec_op(self) -> Seq<char> {
        match self {
            Math::Diff(_, _) => "d"@,
            Math::Integral(_, _) => "i"@,
            Math::Add(_, _) => "+"@,
            Math::Sub(_, _) => "-"@,
            Math::Mul(_, _) => "*"@,
            Math::Div(_, _) => "/"@,
            Math::Pow(_, _) => "pow"@,
            Math::Ln(_) => "ln"@,
            Math::Sqrt(_) => "sqrt"@,
            Math::Sin(_) => "sin"@,
            Math::Cos(_) => "cos"@,
            Math::Constant(c) => c.spec_text(),
            Math::Symbol(name) => name@,
        }
    }

    /// The node that the operator `op` stands for, given its children; an
    /// error, which holds both, where the grammar has no such node.
    pub fn from_op(op: &str, children: Vec<Id>) -> (r: Result<Math, FromOpError>)
        ensures
            r is Ok == Self::accepts(op@, children@.len()),
            r matches Ok(node) ==> Self::denotes(op@, children@, node) && node.wf(),
            r matches Err(e) ==> e.op@ == op@ && e.children@ == children@,
    {
        let n = children.len();
        if n == 0 {
            match Constant::parse(op) {
                Some(c) => Ok(Math::Constant(c)),
                None => Ok(Math::Symbol(String::from_str(op))),
            }
        } else if n == 1 && same(op, "ln") {
            Ok(Math::Ln(children[0]))
        } else if n == 1 && same(op, "sqrt") {
            Ok(Math::Sqrt(children[0]))
        } else if n == 1 && same(op, "sin") {
            Ok(Math::Sin(children[0]))
        } else if n == 1 && same(op, "cos") {
            Ok(Math::Cos(children[0]))
        } else if n == 2 && same(op, "d") {
            Ok(Math::Diff(children[0], children[1]))
        } else if n == 2 && same(op, "i") {
            Ok(Math::Integral(children[0], children[1]))
        } else if n == 2 && same(op, "+") {
            Ok(Math::Add(children[0], children[1]))
        } else if n == 2 && same(op, "-") {
            Ok(Math::Sub(children[0], children[1]))
        } else if n == 2 && same(op, "*") {
            Ok(Math::Mul(children[0], children[1]))
        } else if n == 2 && same(op, "/") {
            Ok(Math::Div(children[0], children[1]))
        } else if n == 2 && same(op, "pow") {
            Ok(Math::Pow(children[0], children[1]))
        } else {
            Err(FromOpError { op: String::from_str(op), children })
        }
    }

    /// The text that the node is written as.
    pub fn op(&self) -> (r: String)
        ensures
            r@ == self.spec_op(),
    {
        match self {
            Math::Diff(_, _) => String::from_str("d"),
            Math::Integral(_, _) => String::from_str("i"),
            Math::Add(_, _) => String::from_str("+"),
            Math::Sub(_, _) => String::from_str("-"),
            Math::Mul(_, _) => String::from_str("*"),
            Math::Div(_, _) => String::from_str("/"),
            Math::Pow(_, _) => String::from_str("pow"),
            Math::Ln(_) => String::from_str("ln"),
            Math::Sqrt(_) => String::from_str("sqrt"),
            Math::Sin(_) => String::from_str("sin"),
            Math::Cos(_) => String::from_str("cos"),
            Math::Constant(c) => c.text(),
            Math::Symbol(name) => name.clone(),
        }
    }

    /// The class handles that a node refers to, in order.
    pub open spec fn spec_children(self) -> Seq<Id> {
        match self {
            Math::Constant(_) | Math::Symbol(_) => seq![],
            Math::Ln(a) | Math::Sqrt(a) | Math::Sin(a) | Math::Cos(a) => seq![a],
            Math::Diff(a, b)
            | Math::Integral(a, b)
            | Math::Add(a, b)
            | Math::Sub(a, b)
            | Math::Mul(a, b)
            | Math::Div(a, b)
            | Math::Pow(a, b) => seq![a, b],
        }
    }

    /// A literal node holds a well-formed constant.
    pub open spec fn wf(self) -> bool {
        self matches Math::Constant(c) ==> c.wf()
    }

    /// The class handles that the node refers to, in order.
    pub fn children(&self) -> (r: Vec<Id>)
        ensures
            r@ == self.spec_children(),
    {
        let mut r: Vec<Id> = Vec::new();
        match self {
            Math::Constant(_) | Math::Symbol(_) => {},
            Math::Ln(a) | Math::Sqrt(a) | Math::Sin(a) | Math::Cos(a) => {
                r.push(*a);
            },
            Math::Diff(a, b)
            | Math::Integral(a, b)
            | Math::Add(a, b)
            | Math::Sub(a, b)
            | Math::Mul(a, b)
            | Math::Div(a, b)
            | Math::Pow(a, b) => {
                r.push(*a);
                r.push(*b);
            },
        }
        assert(r@ =~= self.spec_children());
        r
    }

    /// Whether the node is a symbol.
    pub fn is_symbol(&self) -> (r: bool)
        ensures
            r == (*self is Symbol),
    {
        match self {
            Math::Symbol(_) => true,
            _ => false,
        }
    }

    /// Whether the node is the literal of the whole number `n`.
    pub fn is_integer(&self, n: i64) -> (r: bool)
        ensures
            r == (*self == Math::Constant(Constant::integer(n))),
    {
        match self {
            Math::Constant(c) => c.numer == n && c.denom == 1,
            _ => false,
        }
    }
}

/// Reading what was written gives the node back: the text of a node, with
/// the node's children, stands for that node. For a literal this holds where
/// its constant is in lowest terms with a positive denominator, and for a
/// symbol where its name stands for no constant.
pub proof fn lemma_read_what_was_written(node: Math)
    requires
        node matches Math::Constant(c) ==> c.wf() && reduced(c.numer as int, c.denom as int) == (
            c.numer as int,
            c.denom as int,
        ),
        node matches Math::Symbol(name) ==> Constant::spec_parse(name@) is None,
    ensures
        Math::accepts(node.spec_op(), node.spec_children().len()),
        Math::denotes(node.spec_op(), node.spec_children(), node),
{
    reveal_strlit("d");
    reveal_strlit("i");
    reveal_strlit("+");
    reveal_strlit("-");
    reveal_strlit("*");
    reveal_strlit("/");
    reveal_strlit("pow");
    reveal_strlit("ln");
    reveal_strlit("sqrt");
    reveal_strlit("sin");
    reveal_strlit("cos");
    assert("d"@[0] == 'd' && "i"@[0] == 'i' && "+"@[0] == '+' && "-"@[0] == '-' && "*"@[0] == '*'
        && "/"@[0] == '/' && "sin"@[0] == 's' && "cos"@[0] == 'c');
    match node {
        Math::Constant(c) => {
            crate::rational::lemma_read_what_was_written(c);
            assert(node.spec_op() == c.spec_text());
        },
        _ => {},
    }
}

/// The rules of arithmetic and calculus, in the order in which they are
/// tried: the ring laws, powers, derivatives, integrals. A rule that divides,
/// or that drops a factor, fires only where the class it divides by is known
/// not to be zero; a rule that adds a neutral element fires on every class
/// but that of the element itself.
pub open spec fn catalog() -> Seq<RewriteView> {
    seq![
        RewriteView {
            name: "comm-add",
            searcher: "(+ ?a ?b)",
            applier: Applier::Pattern("(+ ?b ?a)"),
            conditions: seq![],
        },
        RewriteView {
            name: "comm-mul",
            searcher: "(* ?a ?b)",
            applier: Applier::Pattern("(* ?b ?a)"),
            conditions: seq![],
        },
        RewriteView {
            name: "assoc-add",
            searcher: "(+ ?a (+ ?b ?c))",
            applier: Applier::Pattern("(+ (+ ?a ?b) ?c)"),
            conditions: seq![],
        },
        RewriteView {
            name: "assoc-mul",
            searcher: "(* ?a (* ?b ?c))",
            applier: Applier::Pattern("(* (* ?a ?b) ?c)"),
            conditions: seq![],
        },
        RewriteView {
            name: "sub-canon",
            searcher: "(- ?a ?b)",
            applier: Applier::Pattern("(+ ?a (* -1 ?b))"),
            conditions: seq![],
        },
        RewriteView {
            name: "div-canon",
            searcher: "(/ ?a ?b)",
            applier: Applier::Pattern("(* ?a (pow ?b -1))"),
            conditions: seq![Condition::IsNonzeroSound { var: "?b" }],
        },
        RewriteView {
            name: "zero-add",
            searcher: "(+ ?a 0)",
            applier: Applier::Pattern("?a"),
            conditions: seq![],
        },
        RewriteView {
            name: "zero-mul",
            searcher: "(* ?a 0)",
            applier: Applier::Pattern("0"),
            conditions: seq![],
        },
        RewriteView {
            name: "one-mul",
            searcher: "(* ?a 1)",
            applier: Applier::Pattern("?a"),
            conditions: seq![],
        },
        RewriteView {
            name: "add-zero",
            searcher: "?a",
            applier: Applier::Pattern("(+ ?a 0)"),
            conditions: seq![Condition::IsNonzeroSoft { var: "?a" }],
        },
        RewriteView {
            name: "mul-one",
            searcher: "?a",
            applier: Applier::Pattern("(* ?a 1)"),
            conditions: seq![Condition::IsNononeSoft { var: "?a" }],
        },
        RewriteView {
            name: "cancel-sub",
            searcher: "(- ?a ?a)",
            applier: Applier::Pattern("0"),
            conditions: seq![],
        },
        RewriteView {
            name: "cancel-div",
            searcher: "(/ ?a ?a)",
            applier: Applier::Pattern("1"),
            conditions: seq![Condition::IsNonzeroSound { var: "?a" }],
        },
        RewriteView {
            name: "distribute",
            searcher: "(* ?a (+ ?b ?c))",
            applier: Applier::Pattern("(+ (* ?a ?b) (* ?a ?c))"),
            conditions: seq![],
        },
        RewriteView {
            name: "factor",
            searcher: "(+ (* ?a ?b) (* ?a ?c))",
            applier: Applier::Pattern("(* ?a (+ ?b ?c))"),
            conditions: seq![],
        },
        RewriteView {
            name: "pow-mul",
            searcher: "(* (pow ?a ?b) (pow ?a ?c))",
            applier: Applier::Pattern("(pow ?a (+ ?b ?c))"),
            conditions: seq![],
        },
        RewriteView {
            name: "pow0",
            searcher: "(pow ?x 0)",
            applier: Applier::Pattern("1"),
            conditions: seq![Condition::IsNonzeroSound { var: "?x" }],
        },
        RewriteView {
            name: "pow1",
            searcher: "(pow ?x 1)",
            applier: Applier::Pattern("?x"),
            conditions: seq![],
        },
        RewriteView {
            name: "pow2",
            searcher: "(pow ?x 2)",
            applier: Applier::Pattern("(* ?x ?x)"),
            conditions: seq![],
        },
        RewriteView {
            name: "pow-recip",
            searcher: "(pow ?x -1)",
            applier: Applier::Pattern("(/ 1 ?x)"),
            conditions: seq![Condition::IsNonzeroSound { var: "?x" }],
        },
        RewriteView {
            name: "recip-mul-div",
            searcher: "(* ?x (/ 1 ?x))",
            applier: Applier::Pattern("1"),
            conditions: seq![Condition::IsNonzeroSound { var: "?x" }],
        },
        RewriteView {
            name: "d-variable",
            searcher: "(d ?x ?x)",
            applier: Applier::Pattern("1"),
            conditions: seq![Condition::IsSymbol { var: "?x" }],
        },
        RewriteView {
            name: "d-constant",
            searcher: "(d ?x ?c)",
            applier: Applier::Pattern("0"),
            conditions: seq![Condition::IsSymbol { var: "?x" }, Condition::IsDistinctOrConstant { a: "?c", b: "?x" }],
        },
        RewriteView {
            name: "d-add",
            searcher: "(d ?x (+ ?a ?b))",
            applier: Applier::Pattern("(+ (d ?x ?a) (d ?x ?b))"),
            conditions: seq![],
        },
        RewriteView {
            name: "d-mul",
            searcher: "(d ?x (* ?a ?b))",
            applier: Applier::Pattern("(+ (* ?a (d ?x ?b)) (* ?b (d ?x ?a)))"),
            conditions: seq![],
        },
        RewriteView {
            name: "d-sin",
            searcher: "(d ?x (sin ?x))",
            applier: Applier::Pattern("(cos ?x)"),
            conditions: seq![],
        },
        RewriteView {
            name: "d-cos",
            searcher: "(d ?x (cos ?x))",
            applier: Applier::Pattern("(* -1 (sin ?x))"),
            conditions: seq![],
        },
        RewriteView {
            name: "d-ln",
            searcher: "(d ?x (ln ?x))",
            applier: Applier::Pattern("(/ 1 ?x)"),
            conditions: seq![Condition::IsNonzeroSound { var: "?x" }],
        },
        RewriteView {
            name: "d-power",
            searcher: "(d ?x (pow ?f ?g))",
            applier: Applier::Pattern("(* (pow ?f ?g) (+ (* (d ?x ?f) (/ ?g ?f)) (* (d ?x ?g) (ln ?f))))"),
            conditions: seq![Condition::IsNonzeroSound { var: "?f" }, Condition::IsNonzeroSound { var: "?g" }],
        },
        RewriteView {
            name: "i-one",
            searcher: "(i 1 ?x)",
            applier: Applier::Pattern("?x"),
            conditions: seq![],
        },
        RewriteView {
            name: "i-power-const",
            searcher: "(i (pow ?x ?c) ?x)",
            applier: Applier::Pattern("(/ (pow ?x (+ ?c 1)) (+ ?c 1))"),
            conditions: seq![Condition::IsConst { var: "?c" }],
        },
        RewriteView {
            name: "i-cos",
            searcher: "(i (cos ?x) ?x)",
            applier: Applier::Pattern("(sin ?x)"),
            conditions: seq![],
        },
        RewriteView {
            name: "i-sin",
            searcher: "(i (sin ?x) ?x)",
            applier: Applier::Pattern("(* -1 (cos ?x))"),
            conditions: seq![],
        },
        RewriteView {
            name: "i-sum",
            searcher: "(i (+ ?f ?g) ?x)",
            applier: Applier::Pattern("(+ (i ?f ?x) (i ?g ?x))"),
            conditions: seq![],
        },
        RewriteView {
            name: "i-dif",
            searcher: "(i (- ?f ?g) ?x)",
            applier: Applier::Pattern("(- (i ?f ?x) (i ?g ?x))"),
            conditions: seq![],
        },
        RewriteView {
            name: "i-parts",
            searcher: "(i (* ?a ?b) ?x)",
            applier: Applier::Pattern("(- (* ?a (i ?b ?x)) (i (* (d ?x ?a) (i ?b ?x)) ?x))"),
            conditions: seq![],
        },
    ]
}

/// The rules of arithmetic and calculus.
pub fn rules() -> (rules: Vec<Rewrite>)
    ensures
        views(rules@) == catalog(),
{
    let mut rules: Vec<Rewrite> = Vec::new();
    rules.push(Rewrite::new("comm-add", "(+ ?a ?b)", Applier::Pattern("(+ ?b ?a)")));
    rules.push(Rewrite::new("comm-mul", "(* ?a ?b)", Applier::Pattern("(* ?b ?a)")));
    rules.push(Rewrite::new("assoc-add", "(+ ?a (+ ?b ?c))", Applier::Pattern("(+ (+ ?a ?b) ?c)")));
    rules.push(Rewrite::new("assoc-mul", "(* ?a (* ?b ?c))", Applier::Pattern("(* (* ?a ?b) ?c)")));
    rules.push(Rewrite::new("sub-canon", "(- ?a ?b)", Applier::Pattern("(+ ?a (* -1 ?b))")));
    rules.push(Rewrite::new("div-canon", "(/ ?a ?b)", Applier::Pattern("(* ?a (pow ?b -1))")).when(Condition::IsNonzeroSound { var: "?b" }));
    rules.push(Rewrite::new("zero-add", "(+ ?a 0)", Applier::Pattern("?a")));
    rules.push(Rewrite::new("zero-mul", "(* ?a 0)", Applier::Pattern("0")));
    rules.push(Rewrite::new("one-mul", "(* ?a 1)", Applier::Pattern("?a")));
    rules.push(Rewrite::new("add-zero", "?a", Applier::Pattern("(+ ?a 0)")).when(Condition::IsNonzeroSoft { var: "?a" }));
    rules.push(Rewrite::new("mul-one", "?a", Applier::Pattern("(* ?a 1)")).when(Condition::IsNononeSoft { var: "?a" }));
    rules.push(Rewrite::new("cancel-sub", "(- ?a ?a)", Applier::Pattern("0")));
    rules.push(Rewrite::new("cancel-div", "(/ ?a ?a)", Applier::Pattern("1")).when(Condition::IsNonzeroSound { var: "?a" }));
    rules.push(Rewrite::new("distribute", "(* ?a (+ ?b ?c))", Applier::Pattern("(+ (* ?a ?b) (* ?a ?c))")));
    rules.push(Rewrite::new("factor", "(+ (* ?a ?b) (* ?a ?c))", Applier::Pattern("(* ?a (+ ?b ?c))")));
    rules.push(Rewrite::new("pow-mul", "(* (pow ?a ?b) (pow ?a ?c))", Applier::Pattern("(pow ?a (+ ?b ?c))")));
    rules.push(Rewrite::new("pow0", "(pow ?x 0)", Applier::Pattern("1")).when(Condition::IsNonzeroSound { var: "?x" }));
    rules.push(Rewrite::new("pow1", "(pow ?x 1)", Applier::Pattern("?x")));
    rules.push(Rewrite::new("pow2", "(pow ?x 2)", Applier::Pattern("(* ?x ?x)")));
    rules.push(Rewrite::new("pow-recip", "(pow ?x -1)", Applier::Pattern("(/ 1 ?x)")).when(Condition::IsNonzeroSound { var: "?x" }));
    rules.push(Rewrite::new("recip-mul-div", "(* ?x (/ 1 ?x))", Applier::Pattern("1")).when(Condition::IsNonzeroSound { var: "?x" }));
    rules.push(Rewrite::new("d-variable", "(d ?x ?x)", Applier::Pattern("1")).when(Condition::IsSymbol { var: "?x" }));
    rules.push(Rewrite::new("d-constant", "(d ?x ?c)", Applier::Pattern("0")).when(Condition::IsSymbol { var: "?x" }).when(Condition::IsDistinctOrConstant { a: "?c", b: "?x" }));
    rules.push(Rewrite::new("d-add", "(d ?x (+ ?a ?b))", Applier::Pattern("(+ (d ?x ?a) (d ?x ?b))")));
    rules.push(Rewrite::new("d-mul", "(d ?x (* ?a ?b))", Applier::Pattern("(+ (* ?a (d ?x ?b)) (* ?b (d ?x ?a)))")));
    rules.push(Rewrite::new("d-sin", "(d ?x (sin ?x))", Applier::Pattern("(cos ?x)")));
    rules.push(Rewrite::new("d-cos", "(d ?x (cos ?x))", Applier::Pattern("(* -1 (sin ?x))")));
    rules.push(Rewrite::new("d-ln", "(d ?x (ln ?x))", Applier::Pattern("(/ 1 ?x)")).when(Condition::IsNonzeroSound { var: "?x" }));
    rules.push(Rewrite::new("d-power", "(d ?x (pow ?f ?g))", Applier::Pattern("(* (pow ?f ?g) (+ (* (d ?x ?f) (/ ?g ?f)) (* (d ?x ?g) (ln ?f))))")).when(Condition::IsNonzeroSound { var: "?f" }).when(Condition::IsNonzeroSound { var: "?g" }));
    rules.push(Rewrite::new("i-one", "(i 1 ?x)", Applier::Pattern("?x")));
    rules.push(Rewrite::new("i-power-const", "(i (pow ?x ?c) ?x)", Applier::Pattern("(/ (pow ?x (+ ?c 1)) (+ ?c 1))")).when(Condition::IsConst { var: "?c" }));
    rules.push(Rewrite::new("i-cos", "(i (cos ?x) ?x)", Applier::Pattern("(sin ?x)")));
    rules.push(Rewrite::new("i-sin", "(i (sin ?x) ?x)", Applier::Pattern("(* -1 (cos ?x))")));
    rules.push(Rewrite::new("i-sum", "(i (+ ?f ?g) ?x)", Applier::Pattern("(+ (i ?f ?x) (i ?g ?x))")));
    rules.push(Rewrite::new("i-dif", "(i (- ?f ?g) ?x)", Applier::Pattern("(- (i ?f ?x) (i ?g ?x))")));
    rules.push(Rewrite::new("i-parts", "(i (* ?a ?b) ?x)", Applier::Pattern("(- (* ?a (i ?b ?x)) (i (* (d ?x ?a) (i ?b ?x)) ?x))")));
    assert(views(rules@)[22].conditions =~= catalog()[22].conditions);
    assert(views(rules@)[28].conditions =~= catalog()[28].conditions);
    assert(views(rules@) =~= catalog());
    rules
}

} // verus!
