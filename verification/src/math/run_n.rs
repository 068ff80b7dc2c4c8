//! The run of arithmetic that is measured: seven terms, saturated for a
//! given number of iterations.
use crate::runner::{default_runner, size_at_iteration_limit, BackoffScheduler, Egglog, Runner, RunnerView, Scheduler, StopReason};
use crate::text::{decimal, to_decimal};
use vstd::prelude::*;
use vstd::string::*;

verus! {

/// The integral of the logarithm.
pub const INTEGRAL_LN: &'static str = r#"(i (ln x) x)"#;

/// The integral of a sum.
pub const INTEGRAL_SUM: &'static str = r#"(i (+ x (cos x)) x)"#;

/// The integral of a product.
pub const INTEGRAL_PRODUCT: &'static str = r#"(i (* (cos x) x) x)"#;

/// The derivative of a linear term.
pub const DIFF_LINEAR: &'static str = r#"(d x (+ 1 (* 2 x)))"#;

/// The derivative of a difference of powers.
pub const DIFF_POWERS: &'static str = r#"(d x (- (pow x 3) (* 7 (pow x 2))))"#;

/// A polynomial in two variables.
pub const POLYNOMIAL: &'static str = r#"(+ (* y (+ x y)) (- (+ x 2) (+ x x)))"#;

/// A quotient of roots.
pub const ROOT_OF_FIVE: &'static str = r#"(/ 1 (- (/ (+ 1 (sqrt five)) 2) (/ (- 1 (sqrt five)) 2)))"#;

/// The terms of the run as a program for the relational engine, up to the
/// number of iterations.
pub const PROGRAM_HEAD: &'static str = r#"
            (Integral (Ln (Var "x")) (Var "x"))
            (Integral (Add (Var "x") (Cos (Var "x"))) (Var "x"))
            (Integral (Mul (Cos (Var "x")) (Var "x")) (Var "x"))
            (Diff (Var "x") (Add (Const (rational 1 1)) (Mul (Const (rational 2 1)) (Var "x"))))
            (Diff (Var "x") (Sub (Pow (Var "x") (Const (rational 3 1))) (Mul (Const (rational 7 1)) (Pow (Var "x") (Const (rational 2 1))))))
            (Add (Mul (Var "y") (Add (Var "x") (Var "y"))) (Sub (Add (Var "x") (Const (rational 2 1))) (Add (Var "x") (Var "x"))))
            (Div (Const (rational 1 1))
                                    (Sub (Div (Add (Const (rational 1 1))
                                                (Sqrt (Var "five")))
                                            (Const (rational 2 1)))
                                        (Div (Sub (Const (rational 1 1))
                                                (Sqrt (Var "five")))
                                            (Const (rational 2 1)))))
            (run "#;

/// The rest of the program: the sizes to report.
pub const PROGRAM_TAIL: &'static str = r#")
            (print-size Diff)
            (print-size Integral)
            (print-size Add)
            (print-size Sub)
            (print-size Mul)
            (print-size Div)
            (print-size Pow)
            (print-size Ln)
            (print-size Sqrt)
            (print-size Sin)
            (print-size Cos)
            (print-size Const)
            (print-size Var)
            "#;

/// The run of `n` iterations.
#[derive(Clone, Copy, Debug, PartialEq, Eq, Structural)]
pub struct RunN {
    pub n: usize,
}

impl RunN {
    /// The run of `n` iterations.
    pub fn new(n: usize) -> (r: RunN)
        ensures
            r.n == n,
    {
        RunN { n }
    }

    /// The name of the run: `math-run-` and the number of iterations.
    pub fn name(&self) -> (r: String)
        ensures
            r@ == "math-run-"@ + decimal(self.n as nat),
    {
        let number = to_decimal(self.n as u128);
        String::from_str("math-run-").concat(number.as_str())
    }

    /// The run as the engine is to perform it: the seven terms as seeds,
    /// `n` iterations and no other limit, and the backoff scheduler as it
    /// comes.
    pub open spec fn spec_runner(&self) -> RunnerView {
        RunnerView {
            iter_limit: self.n,
            scheduler: Scheduler::Backoff(BackoffScheduler { match_limit: 1000, ban_length: 5 }),
            exprs: seq![
                INTEGRAL_LN,
                INTEGRAL_SUM,
                INTEGRAL_PRODUCT,
                DIFF_LINEAR,
                DIFF_POWERS,
                POLYNOMIAL,
                ROOT_OF_FIVE,
            ],
            ..crate::runner::spec_default_runner()
        }
    }

    /// The run as the engine is to perform it.
    pub fn runner(&self) -> (r: Runner)
        ensures
            r@ == self.spec_runner(),
    {
        let scheduler = Scheduler::Backoff(BackoffScheduler::default());
        let r = default_runner().with_scheduler(scheduler).with_iter_limit(self.n).with_expr(
            INTEGRAL_LN,
        ).with_expr(INTEGRAL_SUM).with_expr(INTEGRAL_PRODUCT).with_expr(DIFF_LINEAR).with_expr(
            DIFF_POWERS,
        ).with_expr(POLYNOMIAL).with_expr(ROOT_OF_FIVE);
        assert(r@.exprs =~= self.spec_runner().exprs);
        r
    }

    /// The size that the run reports, once the engine has performed
    /// `self.runner()` with the rules of arithmetic: the number of nodes,
    /// provided that the run ended at its iteration limit.
    pub fn run_egg(&self, stop_reason: &StopReason, egraph_nodes: usize) -> (r: Option<usize>)
        ensures
            r == if *stop_reason is IterationLimit {
                Some(egraph_nodes)
            } else {
                None
            },
    {
        size_at_iteration_limit(stop_reason, egraph_nodes)
    }

    /// The program for the relational engine: the rules, which the caller
    /// has read, then the terms, the command to run `n` iterations and the
    /// sizes to report. Without the rules there is no program.
    pub fn egglog_text(&self, rules: Option<String>) -> (r: Option<String>)
        ensures
            rules is None ==> r is None,
            rules matches Some(src) ==> r matches Some(text) && text@ == src@ + PROGRAM_HEAD@
                + decimal(self.n as nat) + PROGRAM_TAIL@,
    {
        match rules {
            None => None,
            Some(src) => {
                let number = to_decimal(self.n as u128);
                Some(src.concat(PROGRAM_HEAD).concat(number.as_str()).concat(PROGRAM_TAIL))
            },
        }
    }

    /// The engine for the semi-naive run: a limit of 1000 matches.
    pub fn run_egglog(&self) -> (r: Egglog)
        ensures
            r == (Egglog { match_limit: Some(1000), seminaive: None }),
    {
        Egglog { match_limit: Some(1000), seminaive: None }
    }

    /// The engine for the naive run: a limit of 1000 matches, and naive
    /// evaluation.
    pub fn run_egglognaive(&self) -> (r: Egglog)
        ensures
            r == (Egglog { match_limit: Some(1000), seminaive: Some(false) }),
    {
        Egglog { match_limit: Some(1000), seminaive: Some(false) }
    }
}

} // verus!
