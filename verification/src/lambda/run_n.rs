//! The run of the lambda calculus that is measured: three programs,
//! saturated for a given number of iterations.
use crate::runner::{default_runner, size_at_iteration_limit, BackoffScheduler, Egglog, Runner, RunnerView, Scheduler, StopReason};
use crate::text::{decimal, to_decimal};
use vstd::prelude::*;
use vstd::string::*;

verus! {

/// A function that tells zero from the other numbers, applied twice.
pub const ZEROONE: &'static str = r#"(let zeroone (lam x
                    (if (= (var x) 0)
                        0
                        1))
                    (+ (app (var zeroone) 0)
                    (app (var zeroone) 10)))"#;

/// Function composition, repeated by a fixed point.
pub const REPEAT: &'static str = r#"(let compose (lam f (lam g (lam x (app (var f)
                                                (app (var g) (var x))))))
                (let repeat (fix repeat (lam fun (lam n
                    (if (= (var n) 0)
                        (lam i (var i))
                        (app (app (var compose) (var fun))
                            (app (app (var repeat)
                                    (var fun))
                                (+ (var n) -1)))))))
                (let add1 (lam y (+ (var y) 1))
                (app (app (var repeat)
                        (var add1))
                    2))))"#;

/// The Fibonacci numbers by a fixed point.
pub const FIB: &'static str = r#"(let fib (fix fib (lam n
                    (if (= (var n) 0)
                        0
                    (if (= (var n) 1)
                        1
                    (+ (app (var fib)
                            (+ (var n) -1))
                        (app (var fib)
                            (+ (var n) -2)))))))
                    (app (var fib) 4))"#;

/// The terms of the run as a program for the relational engine, up to the
/// number of iterations.
pub const PROGRAM_HEAD: &'static str = r#"

                (Let (V "zeroone") (Lam (V "x")
                    (If (Eq (Var (V "x")) (Val (Num 0)))
                        (Val (Num 0))
                        (Val (Num 1))))
                    (Add (App (Var (V "zeroone")) (Val (Num 0)))
                    (App (Var (V "zeroone")) (Val (Num 10)))))
                (Let (V "compose") (Lam (V "f") (Lam (V "g") (Lam (V "x") (App (Var (V "f"))
                                                (App (Var (V "g")) (Var (V "x")))))))
                (Let (V "repeat") (Fix (V "repeat") (Lam (V "fun") (Lam (V "n")
                    (If (Eq (Var (V "n")) (Val (Num 0)))
                        (Lam (V "i") (Var (V "i")))
                        (App (App (Var (V "compose")) (Var (V "fun")))
                            (App (App (Var (V "repeat"))
                                    (Var (V "fun")))
                                (Add (Var (V "n")) (Val (Num -1)))))))))
                (Let (V "add1") (Lam (V "y") (Add (Var (V "y")) (Val (Num 1))))
                (App (App (Var (V "repeat"))
                        (Var (V "add1")))
                    (Val (Num 2))))))
                (Let (V "fib") (Fix (V "fib") (Lam (V "n")
                    (If (Eq (Var (V "n")) (Val (Num 0)))
                        (Val (Num 0))
                    (If (Eq (Var (V "n")) (Val (Num 1)))
                        (Val (Num 1))
                    (Add (App (Var (V "fib"))
                            (Add (Var (V "n")) (Val (Num -1))))
                        (App (Var (V "fib"))
                            (Add (Var (V "n")) (Val (Num -2)))))))))
                    (App (Var (V "fib")) (Val (Num 4))))
                (run "#;

/// The rest of the program: the sizes to report.
pub const PROGRAM_TAIL: &'static str = r#")
                (print-size V)
                (print-size From)
                (print-size Val)
                (print-size Var)
                (print-size Add)
                (print-size Eq)
                (print-size App)
                (print-size Lam)
                (print-size Let)
                (print-size Fix)
                (print-size If)
                "#;

/// The run of `n` iterations.
#[derive(Clone, Copy, Debug, PartialEq, Eq, Structural)]
pub struct RunN {
    pub n: usize,
}

impl RunN {
    /// The run of `n` iterations.
    pub fn new(n: usize) -> (r: RunN)
        ensures
            r.n == n,
    {
        RunN { n }
    }

    /// The name of the run: `lamb-run-` and the number of iterations.
    pub fn name(&self) -> (r: String)
        ensures
            r@ == "lamb-run-"@ + decimal(self.n as nat),
    {
        let number = to_decimal(self.n as u128);
        String::from_str("lamb-run-").concat(number.as_str())
    }

    /// The run as the engine is to perform it: the three programs as seeds,
    /// `n` iterations and no other limit, and the backoff scheduler with a
    /// limit of 1000 matches.
    pub open spec fn spec_runner(&self) -> RunnerView {
        RunnerView {
            iter_limit: self.n,
            scheduler: Scheduler::Backoff(BackoffScheduler { match_limit: 1000, ban_length: 5 }),
            exprs: seq![ZEROONE, REPEAT, FIB],
            ..crate::runner::spec_default_runner()
        }
    }

    /// The run as the engine is to perform it.
    pub fn runner(&self) -> (r: Runner)
        ensures
            r@ == self.spec_runner(),
    {
        let scheduler = Scheduler::Backoff(BackoffScheduler::default().with_initial_match_limit(1000));
        let r = default_runner().with_scheduler(scheduler).with_iter_limit(self.n).with_expr(
            ZEROONE,
        ).with_expr(REPEAT).with_expr(FIB);
        assert(r@.exprs =~= self.spec_runner().exprs);
        r
    }

    /// The size that the run reports, once the engine has performed
    /// `self.runner()` with the rules of the lambda calculus: the number of
    /// nodes, provided that the run ended at its iteration limit.
    pub fn run_egg(&self, stop_reason: &StopReason, egraph_nodes: usize) -> (r: Option<usize>)
        ensures
            r == if *stop_reason is IterationLimit {
                Some(egraph_nodes)
            } else {
                None
            },
    {
        size_at_iteration_limit(stop_reason, egraph_nodes)
    }

    /// The program for the relational engine: the rules, which the caller
    /// has read, then the terms, the command to run `n` iterations and the
    /// sizes to report. Without the rules there is no program.
    pub fn egglog_text(&self, rules: Option<String>) -> (r: Option<String>)
        ensures
            rules is None ==> r is None,
            rules matches Some(src) ==> r matches Some(text) && text@ == src@ + PROGRAM_HEAD@
                + decimal(self.n as nat) + PROGRAM_TAIL@,
    {
        match rules {
            None => None,
            Some(src) => {
                let number = to_decimal(self.n as u128);
                Some(src.concat(PROGRAM_HEAD).concat(number.as_str()).concat(PROGRAM_TAIL))
            },
        }
    }

    /// The engine for the semi-naive run: a limit of 1000 matches.
    pub fn run_egglog(&self) -> (r: Egglog)
        ensures
            r == (Egglog { match_limit: Some(1000), seminaive: None }),
    {
        Egglog { match_limit: Some(1000), seminaive: None }
    }

    /// The engine for the naive run: a limit of 1000 matches, and naive
    /// evaluation.
    pub fn run_egglognaive(&self) -> (r: Egglog)
        ensures
            r == (Egglog { match_limit: Some(1000), seminaive: Some(false) }),
    {
        Egglog { match_limit: Some(1000), seminaive: Some(false) }
    }
}

} // verus!
