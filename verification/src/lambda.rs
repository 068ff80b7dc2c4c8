//! The term grammar of the lambda calculus: booleans, numbers, variables,
//! addition, equality, application, abstraction, `let`, `fix`, `if`, and the
//! marker that names a fresh binder.
use crate::rewrite::{views, Applier, CaptureAvoid, Condition, Rewrite, RewriteView};
use crate::text::{
    integer, lemma_integer_of_signed_decimal, parse_integer, same, signed_decimal, to_signed_decimal,
};
use vstd::prelude::*;
use vstd::string::*;

pub mod run_n;

verus! {

/// The handle of an equivalence class.
pub type Id = u32;

/// One node of a lambda term. The children of an operator are class handles,
/// in the order in which the operator takes them: a binder first, then the
/// bound value (for `let`), then the body.
#[derive(Clone, Debug, PartialEq, Eq, Hash)]
pub enum Lambda {
    Bool(bool),
    Num(i32),
    Var(Id),
    Add(Id, Id),
    Eq(Id, Id),
    App(Id, Id),
    Lambda(Id, Id),
    Let(Id, Id, Id),
    Fix(Id, Id),
    If(Id, Id, Id),
    Fresh(Id),
    Symbol(String),
}

/// An operator with a number of children that the grammar does not know.
#[derive(Clone, Debug, PartialEq, Eq)]
pub struct FromOpError {
    pub op: String,
    pub children: Vec<Id>,
}

impl Lambda {
    /// The grammar has a node for the operator `op` with `n` children: every
    /// text stands for a leaf, and each operator has its one arity.
    pub open spec fn accepts(op: Seq<char>, n: nat) -> bool {
        ||| n == 0
        ||| n == 1 && (op == "var"@ || op == "fresh"@)
        ||| n == 2 && (op == "+"@ || op == "="@ || op == "app"@ || op == "lam"@ || op == "fix"@)
        ||| n == 3 && (op == "let"@ || op == "if"@)
    }

    /// `node` is the node that the operator `op` stands for, given its
    /// children. Without children, `true` and `false` are the booleans, a
    /// numeral in the range of the machine's numbers is a number, and any
    /// other text is a symbol.
    pub open spec fn denotes(op: Seq<char>, children: Seq<Id>, node: Lambda) -> bool {
        if children.len() == 0 {
            if op == "true"@ {
                node == Lambda::Bool(true)
            } else if op == "false"@ {
                node == Lambda::Bool(false)
            } else if integer(op) is Some && i32::MIN <= integer(op)->0 <= i32::MAX {
                node == Lambda::Num(integer(op)->0 as i32)
            } else {
                node matches Lambda::Symbol(name) && name@ == op
            }
        } else if children.len() == 1 {
            if op == "var"@ {
                node == Lambda::Var(children[0])
            } else {
                op == "fresh"@ && node == Lambda::Fresh(children[0])
            }
        } else if children.len() == 2 {
            if op == "+"@ {
                node == Lambda::Add(children[0], children[1])
            } else if op == "="@ {
                node == Lambda::Eq(children[0], children[1])
            } else if op == "app"@ {
                node == Lambda::App(children[0], children[1])
            } else if op == "lam"@ {
                node == Lambda::Lambda(children[0], children[1])
            } else {
                op == "fix"@ && node == Lambda::Fix(children[0], children[1])
            }
        } else if children.len() == 3 {
            if op == "let"@ {
                node == Lambda::Let(children[0], children[1], children[2])
            } else {
                op == "if"@ && node == Lambda::If(children[0], children[1], children[2])
            }
        } else {
            false
        }
    }

    /// The text can name a symbol: it is neither a boolean nor a number.
    pub open spec fn is_name(op: Seq<char>) -> bool {
        &&& op != "true"@
        &&& op != "false"@
        &&& !(integer(op) is Some && i32::MIN <= integer(op)->0 <= i32::MAX)
    }

    /// The text that the node is written as: the name of its operator, the
    /// numeral of a number, the name of a symbol.
    pub open spec fn spec_op(self) -> Seq<char> {
        match self {
            Lambda::Bool(b) => if b {
                "true"@
            } else {
                "false"@
            },
            Lambda::Num(n) => signed_decimal(n as int),
            Lambda::Var(_) => "var"@,
            Lambda::Add(_, _) => "+"@,
            Lambda::Eq(_, _) => "="@,
            Lambda::App(_, _) => "app"@,
            Lambda::Lambda(_, _) => "lam"@,
            Lambda::Let(_, _, _) => "let"@,
            Lambda::Fix(_, _) => "fix"@,
            Lambda::If(_, _, _) => "if"@,
            Lambda::Fresh(_) => "fresh"@,
            Lambda::Symbol(name) => name@,
        }
    }

    /// The node that the operator `op` stands for, given its children; an
    /// error, which holds both, where the grammar has no such node.
    pub fn from_op(op: &str, children: Vec<Id>) -> (r: Result<Lambda, FromOpError>)
        ensures
            r is Ok == Self::accepts(op@, children@.len()),
            r matches Ok(node) ==> Self::denotes(op@, children@, node),
            r matches Err(e) ==> e.op@ == op@ && e.children@ == children@,
    {
        let n = children.len();
        if n == 0 {
            if same(op, "true") {
                Ok(Lambda::Bool(true))
            } else if same(op, "false") {
                Ok(Lambda::Bool(false))
            } else {
                match parse_integer(op, 0x7fff_ffff) {
                    Some(v) => Ok(Lambda::Num(v as i32)),
                    None => Ok(Lambda::Symbol(String::from_str(op))),
                }
            }
        } else if n == 1 && same(op, "var") {
            Ok(Lambda::Var(children[0]))
        } else if n == 1 && same(op, "fresh") {
            Ok(Lambda::Fresh(children[0]))
        } else if n == 2 && same(op, "+") {
            Ok(Lambda::Add(children[0], children[1]))
        } else if n == 2 && same(op, "=") {
            Ok(Lambda::Eq(children[0], children[1]))
        } else if n == 2 && same(op, "app") {
            Ok(Lambda::App(children[0], children[1]))
        } else if n == 2 && same(op, "lam") {
            Ok(Lambda::Lambda(children[0], children[1]))
        } else if n == 2 && same(op, "fix") {
            Ok(Lambda::Fix(children[0], children[1]))
        } else if n == 3 && same(op, "let") {
            Ok(Lambda::Let(children[0], children[1], children[2]))
        } else if n == 3 && same(op, "if") {
            Ok(Lambda::If(children[0], children[1], children[2]))
        } else {
            Err(FromOpError { op: String::from_str(op), children })
        }
    }

    /// The text that the node is written as.
    pub fn op(&self) -> (r: String)
        ensures
            r@ == self.spec_op(),
    {
        match self {
            Lambda::Bool(b) => if *b {
                String::from_str("true")
            } else {
                String::from_str("false")
            },
            Lambda::Num(n) => to_signed_decimal(*n as i64),
            Lambda::Var(_) => String::from_str("var"),
            Lambda::Add(_, _) => String::from_str("+"),
            Lambda::Eq(_, _) => String::from_str("="),
            Lambda::App(_, _) => String::from_str("app"),
            Lambda::Lambda(_, _) => String::from_str("lam"),
            Lambda::Let(_, _, _) => String::from_str("let"),
            Lambda::Fix(_, _) => String::from_str("fix"),
            Lambda::If(_, _, _) => String::from_str("if"),
            Lambda::Fresh(_) => String::from_str("fresh"),
            Lambda::Symbol(name) => name.clone(),
        }
    }

    /// The number that a numeric literal holds.
    pub open spec fn spec_num(self) -> Option<i32> {
        match self {
            Lambda::Num(n) => Some(n),
            _ => None,
        }
    }

    /// The class handles that a node refers to, in order.
    pub open spec fn spec_children(self) -> Seq<Id> {
        match self {
            Lambda::Bool(_) | Lambda::Num(_) | Lambda::Symbol(_) => seq![],
            Lambda::Var(a) | Lambda::Fresh(a) => seq![a],
            Lambda::Add(a, b)
            | Lambda::Eq(a, b)
            | Lambda::App(a, b)
            | Lambda::Lambda(a, b)
            | Lambda::Fix(a, b) => seq![a, b],
            Lambda::Let(a, b, c) | Lambda::If(a, b, c) => seq![a, b, c],
        }
    }

    /// The number that a numeric literal holds; `None` for every other node.
    pub fn num(&self) -> (r: Option<i32>)
        ensures
            r == self.spec_num(),
    {
        match self {
            Lambda::Num(n) => Some(*n),
            _ => None,
        }
    }

    /// The class handles that the node refers to, in order.
    pub fn children(&self) -> (r: Vec<Id>)
        ensures
            r@ == self.spec_children(),
    {
        let mut r: Vec<Id> = Vec::new();
        match self {
            Lambda::Bool(_) | Lambda::Num(_) | Lambda::Symbol(_) => {},
            Lambda::Var(a) | Lambda::Fresh(a) => {
                r.push(*a);
            },
            Lambda::Add(a, b)
            | Lambda::Eq(a, b)
            | Lambda::App(a, b)
            | Lambda::Lambda(a, b)
            | Lambda::Fix(a, b) => {
                r.push(*a);
                r.push(*b);
            },
            Lambda::Let(a, b, c) | Lambda::If(a, b, c) => {
                r.push(*a);
                r.push(*b);
                r.push(*c);
            },
        }
        assert(r@ =~= self.spec_children());
        r
    }
}

/// Reading what was written gives the node back: the text of a node, with
/// the node's children, stands for that node. For a symbol this holds where
/// its name can name a symbol.
pub proof fn lemma_read_what_was_written(node: Lambda)
    requires
        node matches Lambda::Symbol(name) ==> Lambda::is_name(name@),
    ensures
        Lambda::accepts(node.spec_op(), node.spec_children().len()),
        Lambda::denotes(node.spec_op(), node.spec_children(), node),
{
    reveal_strlit("true");
    reveal_strlit("false");
    reveal_strlit("var");
    reveal_strlit("fresh");
    reveal_strlit("+");
    reveal_strlit("=");
    reveal_strlit("app");
    reveal_strlit("lam");
    reveal_strlit("fix");
    reveal_strlit("let");
    reveal_strlit("if");
    match node {
        Lambda::Num(n) => {
            lemma_integer_of_signed_decimal(n as int);
        },
        _ => {},
    }
}

/// The applier of `let-lam-diff`. Where the binder `?v2` is not free in `?e`,
/// the `let` moves under the `lam`. Where it is, the binder is first renamed
/// to a fresh name, which is a function of the matched term: the same match
/// always gets the same name.
pub open spec fn capture_avoid() -> CaptureAvoid {
    CaptureAvoid {
        v2: "?v2",
        e: "?e",
        if_not_free: "(lam ?v2 (let ?v1 ?e ?body))",
        if_free: "(lam (fresh (let ?v1 ?e (lam ?v2 ?body))) (let ?v1 ?e (let ?v2 (var (fresh (let ?v1 ?e (lam ?v2 ?body)))) ?body)))",
    }
}

/// The rules of the lambda calculus, in the order in which they are tried:
/// the rules for open terms, then the rules that push a substitution inward.
pub open spec fn catalog() -> Seq<RewriteView> {
    seq![
        RewriteView {
            name: "if-true",
            searcher: "(if  true ?then ?else)",
            applier: Applier::Pattern("?then"),
            conditions: seq![],
        },
        RewriteView {
            name: "if-false",
            searcher: "(if false ?then ?else)",
            applier: Applier::Pattern("?else"),
            conditions: seq![],
        },
        RewriteView {
            name: "if-elim",
            searcher: "(if (= (var ?x) ?e) ?then ?else)",
            applier: Applier::Pattern("?else"),
            conditions: seq![Condition::Equal { left: "(let ?x ?e ?then)", right: "(let ?x ?e ?else)" }],
        },
        RewriteView {
            name: "add-comm",
            searcher: "(+ ?a ?b)",
            applier: Applier::Pattern("(+ ?b ?a)"),
            conditions: seq![],
        },
        RewriteView {
            name: "add-assoc",
            searcher: "(+ (+ ?a ?b) ?c)",
            applier: Applier::Pattern("(+ ?a (+ ?b ?c))"),
            conditions: seq![],
        },
        RewriteView {
            name: "eq-comm",
            searcher: "(= ?a ?b)",
            applier: Applier::Pattern("(= ?b ?a)"),
            conditions: seq![],
        },
        RewriteView {
            name: "fix",
            searcher: "(fix ?v ?e)",
            applier: Applier::Pattern("(let ?v (fix ?v ?e) ?e)"),
            conditions: seq![],
        },
        RewriteView {
            name: "beta",
            searcher: "(app (lam ?v ?body) ?e)",
            applier: Applier::Pattern("(let ?v ?e ?body)"),
            conditions: seq![],
        },
        RewriteView {
            name: "let-app",
            searcher: "(let ?v ?e (app ?a ?b))",
            applier: Applier::Pattern("(app (let ?v ?e ?a) (let ?v ?e ?b))"),
            conditions: seq![],
        },
        RewriteView {
            name: "let-add",
            searcher: "(let ?v ?e (+   ?a ?b))",
            applier: Applier::Pattern("(+   (let ?v ?e ?a) (let ?v ?e ?b))"),
            conditions: seq![],
        },
        RewriteView {
            name: "let-eq",
            searcher: "(let ?v ?e (=   ?a ?b))",
            applier: Applier::Pattern("(=   (let ?v ?e ?a) (let ?v ?e ?b))"),
            conditions: seq![],
        },
        RewriteView {
            name: "let-const",
            searcher: "(let ?v ?e ?c)",
            applier: Applier::Pattern("?c"),
            conditions: seq![Condition::IsConst { var: "?c" }],
        },
        RewriteView {
            name: "let-if",
            searcher: "(let ?v ?e (if ?cond ?then ?else))",
            applier: Applier::Pattern("(if (let ?v ?e ?cond) (let ?v ?e ?then) (let ?v ?e ?else))"),
            conditions: seq![],
        },
        RewriteView {
            name: "let-var-same",
            searcher: "(let ?v1 ?e (var ?v1))",
            applier: Applier::Pattern("?e"),
            conditions: seq![],
        },
        RewriteView {
            name: "let-var-diff",
            searcher: "(let ?v1 ?e (var ?v2))",
            applier: Applier::Pattern("(var ?v2)"),
            conditions: seq![Condition::IsNotSameVar { v1: "?v1", v2: "?v2" }],
        },
        RewriteView {
            name: "let-lam-same",
            searcher: "(let ?v1 ?e (lam ?v1 ?body))",
            applier: Applier::Pattern("(lam ?v1 ?body)"),
            conditions: seq![],
        },
        RewriteView {
            name: "let-lam-diff",
            searcher: "(let ?v1 ?e (lam ?v2 ?body))",
            applier: Applier::CaptureAvoid(capture_avoid()),
            conditions: seq![Condition::IsNotSameVar { v1: "?v1", v2: "?v2" }],
        },
    ]
}

/// The rules of the lambda calculus.
pub fn rules() -> (rules: Vec<Rewrite>)
    ensures
        views(rules@) == catalog(),
{
    let capture_avoid = CaptureAvoid {
        v2: "?v2",
        e: "?e",
        if_not_free: "(lam ?v2 (let ?v1 ?e ?body))",
        if_free: "(lam (fresh (let ?v1 ?e (lam ?v2 ?body))) (let ?v1 ?e (let ?v2 (var (fresh (let ?v1 ?e (lam ?v2 ?body)))) ?body)))",
    };
    let mut rules: Vec<Rewrite> = Vec::new();
    rules.push(Rewrite::new("if-true", "(if  true ?then ?else)", Applier::Pattern("?then")));
    rules.push(Rewrite::new("if-false", "(if false ?then ?else)", Applier::Pattern("?else")));
    rules.push(
        Rewrite::new("if-elim", "(if (= (var ?x) ?e) ?then ?else)", Applier::Pattern("?else")).when(
            Condition::Equal { left: "(let ?x ?e ?then)", right: "(let ?x ?e ?else)" },
        ),
    );
    rules.push(Rewrite::new("add-comm", "(+ ?a ?b)", Applier::Pattern("(+ ?b ?a)")));
    rules.push(Rewrite::new("add-assoc", "(+ (+ ?a ?b) ?c)", Applier::Pattern("(+ ?a (+ ?b ?c))")));
    rules.push(Rewrite::new("eq-comm", "(= ?a ?b)", Applier::Pattern("(= ?b ?a)")));
    rules.push(Rewrite::new("fix", "(fix ?v ?e)", Applier::Pattern("(let ?v (fix ?v ?e) ?e)")));
    rules.push(Rewrite::new("beta", "(app (lam ?v ?body) ?e)", Applier::Pattern("(let ?v ?e ?body)")));
    rules.push(Rewrite::new("let-app", "(let ?v ?e (app ?a ?b))", Applier::Pattern("(app (let ?v ?e ?a) (let ?v ?e ?b))")));
    rules.push(Rewrite::new("let-add", "(let ?v ?e (+   ?a ?b))", Applier::Pattern("(+   (let ?v ?e ?a) (let ?v ?e ?b))")));
    rules.push(Rewrite::new("let-eq", "(let ?v ?e (=   ?a ?b))", Applier::Pattern("(=   (let ?v ?e ?a) (let ?v ?e ?b))")));
    rules.push(
        Rewrite::new("let-const", "(let ?v ?e ?c)", Applier::Pattern("?c")).when(
            Condition::IsConst { var: "?c" },
        ),
    );
    rules.push(Rewrite::new("let-if", "(let ?v ?e (if ?cond ?then ?else))", Applier::Pattern("(if (let ?v ?e ?cond) (let ?v ?e ?then) (let ?v ?e ?else))")));
    rules.push(Rewrite::new("let-var-same", "(let ?v1 ?e (var ?v1))", Applier::Pattern("?e")));
    rules.push(
        Rewrite::new("let-var-diff", "(let ?v1 ?e (var ?v2))", Applier::Pattern("(var ?v2)")).when(
            Condition::IsNotSameVar { v1: "?v1", v2: "?v2" },
        ),
    );
    rules.push(Rewrite::new("let-lam-same", "(let ?v1 ?e (lam ?v1 ?body))", Applier::Pattern("(lam ?v1 ?body)")));
    rules.push(
        Rewrite::new("let-lam-diff", "(let ?v1 ?e (lam ?v2 ?body))", Applier::CaptureAvoid(capture_avoid)).when(
            Condition::IsNotSameVar { v1: "?v1", v2: "?v2" },
        ),
    );
    assert(views(rules@) =~= catalog());
    rules
}

} // verus!
