//! The run of arithmetic that grows the graph naively and then measures one
//! more iteration, naive or semi-naive.
use crate::runner::Egglog;
use crate::text::{decimal, to_decimal};
use vstd::prelude::*;
use vstd::string::*;

verus! {

/// The terms of the run as a program for the relational engine, up to the
/// number of iterations of the first, naive run.
pub const PROGRAM_HEAD: &'static str = r#"
            (Integral (Ln (Var "x")) (Var "x"))
            (Integral (Add (Var "x") (Cos (Var "x"))) (Var "x"))
            (Integral (Mul (Cos (Var "x")) (Var "x")) (Var "x"))
            (Diff (Var "x") (Add (Const (rational 1 1)) (Mul (Const (rational 2 1)) (Var "x"))))
            (Diff (Var "x") (Sub (Pow (Var "x") (Const (rational 3 1))) (Mul (Const (rational 7 1)) (Pow (Var "x") (Const (rational 2 1))))))
            (Add (Mul (Var "y") (Add (Var "x") (Var "y"))) (Sub (Add (Var "x") (Const (rational 2 1))) (Add (Var "x") (Var "x"))))
            (Div (Const (rational 1 1))
                                    (Sub (Div (Add (Const (rational 1 1))
                                                (Sqrt (Var "five")))
                                            (Const (rational 2 1)))
                                        (Div (Sub (Const (rational 1 1))
                                                (Sqrt (Var "five")))
                                            (Const (rational 2 1)))))
            (run :naive :match-limit 1000 "#;

/// From the end of the first run to the mode of the second.
pub const PROGRAM_MIDDLE: &'static str = r#")
            (run :"#;

/// The rest of the program: the second run's limits and the sizes to report.
pub const PROGRAM_TAIL: &'static str = r#" :match-limit 1000000000 1)
            (print-size Diff)
            (print-size Integral)
            (print-size Add)
            (print-size Sub)
            (print-size Mul)
            (print-size Div)
            (print-size Pow)
            (print-size Ln)
            (print-size Sqrt)
            (print-size Sin)
            (print-size Cos)
            (print-size Const)
            (print-size Var)
            "#;

/// The run of `n` iterations, of which the last is measured.
#[derive(Clone, Copy, Debug, PartialEq, Eq, Structural)]
pub struct RunN {
    pub seminaive: bool,
    pub n: usize,
}

impl RunN {
    /// The run of `n` iterations, with a naive last iteration.
    pub fn new(n: usize) -> (r: RunN)
        ensures
            r == (RunN { seminaive: false, n }),
    {
        RunN { seminaive: false, n }
    }

    /// The name of the run: `math-run-` and the number of iterations.
    pub fn name(&self) -> (r: String)
        ensures
            r@ == "math-run-"@ + decimal(self.n as nat),
    {
        let number = to_decimal(self.n as u128);
        String::from_str("math-run-").concat(number.as_str())
    }

    /// The equality-saturation engine has no part in this run: its size is
    /// zero.
    pub fn run_egg(&self) -> (r: usize)
        ensures
            r == 0,
    {
        0
    }

    /// The mode of the last iteration, as the program names it.
    pub open spec fn spec_mode(&self) -> Seq<char> {
        if self.seminaive {
            "seminaive"@
        } else {
            "naive"@
        }
    }

    /// The program for the relational engine: the rules, which the caller
    /// has read, then the terms, the command to run `n - 1` iterations
    /// naively, the command to run one more in the mode of the run, and the
    /// sizes to report. Without the rules there is no program. A run has at
    /// least one iteration.
    pub fn egglog_text(&self, rules: Option<String>) -> (r: Option<String>)
        requires
            rules is Some ==> self.n >= 1,
        ensures
            rules is None ==> r is None,
            rules matches Some(src) ==> r matches Some(text) && text@ == src@ + PROGRAM_HEAD@
                + decimal((self.n - 1) as nat) + PROGRAM_MIDDLE@ + self.spec_mode() + PROGRAM_TAIL@,
    {
        match rules {
            None => None,
            Some(src) => {
                let number = to_decimal((self.n - 1) as u128);
                let mode = if self.seminaive {
                    "seminaive"
                } else {
                    "naive"
                };
                Some(
                    src.concat(PROGRAM_HEAD).concat(number.as_str()).concat(PROGRAM_MIDDLE).concat(
                        mode,
                    ).concat(PROGRAM_TAIL),
                )
            },
        }
    }

    /// The engine for the semi-naive run, and the run itself from then on:
    /// the engine grows the graph naively, and the last iteration is
    /// semi-naive.
    pub fn run_egglog(&mut self) -> (r: Egglog)
        ensures
            r == (Egglog { match_limit: None, seminaive: Some(false) }),
            *final(self) == (RunN { seminaive: true, n: old(self).n }),
    {
        self.seminaive = true;
        Egglog { match_limit: None, seminaive: Some(false) }
    }

    /// The engine for the naive run, and the run itself from then on: the
    /// engine is naive, and so is the last iteration.
    pub fn run_egglognaive(&mut self) -> (r: Egglog)
        ensures
            r == (Egglog { match_limit: None, seminaive: Some(false) }),
            *final(self) == (RunN { seminaive: false, n: old(self).n }),
    {
        self.seminaive = false;
        Egglog { match_limit: None, seminaive: Some(false) }
    }
}

} // verus!
