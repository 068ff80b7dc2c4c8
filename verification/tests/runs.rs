use egg_bench::lambda::run_n as lambda_run;
use egg_bench::math::run_n as math_run;
use egg_bench::math_seminaive;
use egg_bench::runner::{
    default_runner, size_at_iteration_limit, BackoffScheduler, Egglog, Scheduler, StopReason,
};
use egg_bench::text::to_decimal;

#[test]
fn decimal_numerals() {
    assert_eq!(to_decimal(0), "0");
    assert_eq!(to_decimal(7), "7");
    assert_eq!(to_decimal(10), "10");
    assert_eq!(to_decimal(1234567890), "1234567890");
    assert_eq!(to_decimal(u128::MAX), "340282366920938463463374607431768211455");
}

#[test]
fn the_default_run_has_no_limit() {
    let runner = default_runner();
    assert_eq!(runner.iter_limit, usize::MAX);
    assert_eq!(runner.node_limit, usize::MAX);
    assert_eq!(runner.time_limit, u64::MAX);
    assert_eq!(runner.scheduler, Scheduler::Simple);
    assert!(runner.exprs.is_empty());
}

#[test]
fn a_run_is_built_step_by_step() {
    let backoff = BackoffScheduler::default();
    assert_eq!(backoff, BackoffScheduler { match_limit: 1000, ban_length: 5 });
    assert_eq!(backoff.with_initial_match_limit(7), BackoffScheduler { match_limit: 7, ban_length: 5 });
    let runner = default_runner()
        .with_iter_limit(12)
        .with_scheduler(Scheduler::Backoff(backoff))
        .with_expr("(+ 1 2)")
        .with_expr("x");
    assert_eq!(runner.iter_limit, 12);
    assert_eq!(runner.node_limit, usize::MAX);
    assert_eq!(runner.time_limit, u64::MAX);
    assert_eq!(runner.scheduler, Scheduler::Backoff(backoff));
    assert_eq!(runner.exprs, vec!["(+ 1 2)", "x"]);
}

#[test]
fn only_a_run_that_ended_at_its_iteration_limit_has_a_size() {
    assert_eq!(size_at_iteration_limit(&StopReason::IterationLimit(4), 321), Some(321));
    assert_eq!(size_at_iteration_limit(&StopReason::Saturated, 321), None);
    assert_eq!(size_at_iteration_limit(&StopReason::NodeLimit(5), 321), None);
    assert_eq!(size_at_iteration_limit(&StopReason::TimeLimit, 321), None);
    assert_eq!(size_at_iteration_limit(&StopReason::Other("goal proved".to_string()), 321), None);
}

#[test]
fn the_lambda_run() {
    let run = lambda_run::RunN::new(12);
    assert_eq!(run.name(), "lamb-run-12");
    let runner = run.runner();
    assert_eq!(runner.iter_limit, 12);
    assert_eq!(runner.node_limit, usize::MAX);
    assert_eq!(runner.time_limit, u64::MAX);
    assert_eq!(runner.scheduler, Scheduler::Backoff(BackoffScheduler { match_limit: 1000, ban_length: 5 }));
    assert_eq!(runner.exprs, vec![lambda_run::ZEROONE, lambda_run::REPEAT, lambda_run::FIB]);
    assert!(runner.exprs[2].contains("(app (var fib) 4)"));
    assert_eq!(run.run_egg(&StopReason::IterationLimit(12), 99), Some(99));
    assert_eq!(run.run_egg(&StopReason::Saturated, 99), None);
    assert_eq!(run.run_egglog(), Egglog { match_limit: Some(1000), seminaive: None });
    assert_eq!(run.run_egglognaive(), Egglog { match_limit: Some(1000), seminaive: Some(false) });
}

#[test]
fn the_lambda_program() {
    let run = lambda_run::RunN::new(3);
    assert_eq!(run.egglog_text(None), None);
    let text = run.egglog_text(Some("(rules)".to_string())).unwrap();
    assert!(text.starts_with("(rules)\n"));
    assert!(text.contains("(App (Var (V \"fib\")) (Val (Num 4))))\n                (run 3)\n                (print-size V)"));
    assert!(text.trim_end().ends_with("(print-size If)"));
    assert_eq!(text.matches("(run ").count(), 1);
}

#[test]
fn the_math_run() {
    let run = math_run::RunN::new(200);
    assert_eq!(run.name(), "math-run-200");
    let runner = run.runner();
    assert_eq!(runner.iter_limit, 200);
    assert_eq!(runner.node_limit, usize::MAX);
    assert_eq!(runner.time_limit, u64::MAX);
    assert_eq!(runner.scheduler, Scheduler::Backoff(BackoffScheduler { match_limit: 1000, ban_length: 5 }));
    assert_eq!(
        runner.exprs,
        vec![
            "(i (ln x) x)",
            "(i (+ x (cos x)) x)",
            "(i (* (cos x) x) x)",
            "(d x (+ 1 (* 2 x)))",
            "(d x (- (pow x 3) (* 7 (pow x 2))))",
            "(+ (* y (+ x y)) (- (+ x 2) (+ x x)))",
            "(/ 1 (- (/ (+ 1 (sqrt five)) 2) (/ (- 1 (sqrt five)) 2)))",
        ]
    );
    assert_eq!(run.run_egg(&StopReason::IterationLimit(200), 5), Some(5));
    assert_eq!(run.run_egg(&StopReason::NodeLimit(1), 5), None);
    assert_eq!(run.run_egglog(), Egglog { match_limit: Some(1000), seminaive: None });
    assert_eq!(run.run_egglognaive(), Egglog { match_limit: Some(1000), seminaive: Some(false) });
}

#[test]
fn the_math_program() {
    let run = math_run::RunN::new(41);
    assert_eq!(run.egglog_text(None), None);
    let text = run.egglog_text(Some(String::new())).unwrap();
    assert!(text.contains("(Integral (Ln (Var \"x\")) (Var \"x\"))"));
    assert!(text.contains("\n            (run 41)\n            (print-size Diff)"));
    assert!(text.trim_end().ends_with("(print-size Var)"));
}

#[test]
fn the_seminaive_run() {
    let mut run = math_seminaive::RunN::new(5);
    assert_eq!(run, math_seminaive::RunN { seminaive: false, n: 5 });
    assert_eq!(run.name(), "math-run-5");
    assert_eq!(run.run_egg(), 0);
    assert_eq!(run.run_egglog(), Egglog { match_limit: None, seminaive: Some(false) });
    assert!(run.seminaive);
    let text = run.egglog_text(Some("(rules)".to_string())).unwrap();
    assert!(text.starts_with("(rules)"));
    assert!(text.contains("(run :naive :match-limit 1000 4)\n            (run :seminaive :match-limit 1000000000 1)\n"));
    assert_eq!(run.run_egglognaive(), Egglog { match_limit: None, seminaive: Some(false) });
    assert!(!run.seminaive);
    let text = run.egglog_text(Some("(rules)".to_string())).unwrap();
    assert!(text.contains("(run :naive :match-limit 1000 4)\n            (run :naive :match-limit 1000000000 1)\n"));
    assert_eq!(run.egglog_text(None), None);
}

#[test]
fn a_run_of_one_iteration_grows_nothing_first() {
    let run = math_seminaive::RunN::new(1);
    let text = run.egglog_text(Some(String::new())).unwrap();
    assert!(text.contains("(run :naive :match-limit 1000 0)"));
}
