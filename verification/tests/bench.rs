use egg_bench::bench::{benchmarks, median, BenchmarkRecord, BenchmarkRunner, Engine, Opt, Samples};
use egg_bench::egglog::{path, run_egglog_with_engine, table_size, Summary};
use egg_bench::text::{parse_size, starts_with};

fn samples(durations: &[u128], size: usize) -> Samples {
    Samples { durations: durations.to_vec(), size }
}

#[test]
fn the_options_as_they_come() {
    assert_eq!(Opt::default(), Opt { disable_egg: false, disable_egglog: false, repeat: 3, iter_size: 200 });
}

#[test]
fn the_median_is_the_time_in_the_middle() {
    let mut times = vec![30, 10, 20];
    assert_eq!(median(&mut times), 20);
    assert_eq!(times, vec![10, 20, 30]);
    assert_eq!(median(&mut vec![5]), 5);
    assert_eq!(median(&mut vec![9, 1, 8, 2, 7]), 7);
}

#[test]
fn the_median_of_an_even_number_is_the_upper_one() {
    assert_eq!(median(&mut vec![4, 1, 3, 2]), 3);
    assert_eq!(median(&mut vec![2, 1]), 2);
}

#[test]
fn which_engines_are_measured() {
    let opt = Opt::default();
    assert_eq!(BenchmarkRunner::engines(&opt), vec![Engine::Egg, Engine::Egglog, Engine::EgglogNaive]);
    assert_eq!(BenchmarkRunner::engines(&Opt { disable_egg: true, ..opt }), vec![Engine::Egglog, Engine::EgglogNaive]);
    assert_eq!(BenchmarkRunner::engines(&Opt { disable_egglog: true, ..opt }), vec![Engine::Egg]);
    assert_eq!(BenchmarkRunner::engines(&Opt { disable_egg: true, disable_egglog: true, ..opt }), vec![]);
}

#[test]
fn a_record_holds_the_median_in_nanoseconds() {
    let record = BenchmarkRunner::record("math-run-3", Engine::Egglog, samples(&[300, 100, 200], 42));
    assert_eq!(
        record,
        BenchmarkRecord {
            benchmark: "math-run-3".to_string(),
            engine: Engine::Egglog,
            time: "200".to_string(),
            size: 42
        }
    );
}

#[test]
fn one_run_gives_a_record_for_each_engine() {
    let opt = Opt::default();
    let records = BenchmarkRunner.run_one(
        &opt,
        "math-run-1",
        samples(&[3, 1, 2], 10),
        samples(&[30, 10, 20], 11),
        samples(&[300, 100, 200], 12),
    );
    let expect = |engine, time: &str, size| BenchmarkRecord {
        benchmark: "math-run-1".to_string(),
        engine,
        time: time.to_string(),
        size,
    };
    assert_eq!(
        records,
        vec![expect(Engine::Egg, "2", 10), expect(Engine::Egglog, "20", 11), expect(Engine::EgglogNaive, "200", 12)]
    );
}

#[test]
fn an_engine_that_is_switched_off_gives_no_record() {
    let opt = Opt { disable_egg: true, ..Opt::default() };
    let records =
        BenchmarkRunner.run_one(&opt, "r", samples(&[], 0), samples(&[7], 1), samples(&[9], 2));
    assert_eq!(records.len(), 2);
    assert_eq!(records[0].engine, Engine::Egglog);
    assert_eq!(records[0].time, "7");
    assert_eq!(records[1].engine, Engine::EgglogNaive);
    assert_eq!(records[1].time, "9");
    let opt = Opt { disable_egglog: true, ..Opt::default() };
    let records =
        BenchmarkRunner.run_one(&opt, "r", samples(&[4], 3), samples(&[], 0), samples(&[], 0));
    assert_eq!(records.len(), 1);
    assert_eq!(records[0].engine, Engine::Egg);
    assert_eq!(records[0].size, 3);
}

#[test]
fn records_add_up_and_are_written_every_fifth_run() {
    let record = |name: &str| BenchmarkRunner::record(name, Engine::Egg, samples(&[1], 1));
    let mut all = vec![];
    let writes: Vec<bool> =
        (0..11).map(|i| BenchmarkRunner.run(&mut all, i, vec![record("a"), record("b")])).collect();
    assert_eq!(all.len(), 22);
    assert_eq!(all[0].benchmark, "a");
    assert_eq!(all[21].benchmark, "b");
    assert_eq!(writes, vec![true, false, false, false, false, true, false, false, false, false, true]);
}

#[test]
fn the_runs_go_from_one_iteration_up() {
    let runs = benchmarks(4);
    assert_eq!(runs.iter().map(|r| r.n).collect::<Vec<_>>(), vec![1, 2, 3, 4]);
    assert!(benchmarks(0).is_empty());
}

#[test]
fn a_size_is_a_numeral() {
    assert_eq!(parse_size("0"), Some(0));
    assert_eq!(parse_size("42"), Some(42));
    assert_eq!(parse_size("007"), Some(7));
    assert_eq!(parse_size(""), None);
    assert_eq!(parse_size("4a"), None);
    assert_eq!(parse_size("-4"), None);
    assert_eq!(parse_size("+4"), None);
    assert_eq!(parse_size(" 4"), None);
    assert_eq!(parse_size(&usize::MAX.to_string()), Some(usize::MAX));
    assert_eq!(parse_size("18446744073709551616"), None);
    assert_eq!(parse_size("99999999999999999999999999"), None);
}

#[test]
fn prefixes() {
    assert!(starts_with("Function Add has size 3", "Function "));
    assert!(starts_with("Ran 3 iterations", "Ran "));
    assert!(starts_with("abc", ""));
    assert!(starts_with("abc", "abc"));
    assert!(!starts_with("ab", "abc"));
    assert!(!starts_with("Functions", "Function "));
    assert!(!starts_with("", "a"));
}

#[test]
fn only_a_table_has_a_size() {
    assert_eq!(table_size("Function Add has size 3", Some("3".to_string())), Some(3));
    assert_eq!(table_size("Ran 4 iterations, has size 3", Some("3".to_string())), Some(0));
    assert_eq!(table_size("Function Add", None), None);
    assert_eq!(table_size("Function Add has size x", Some("x".to_string())), None);
    assert_eq!(table_size("something else", None), Some(0));
}

fn msgs(lines: &[&str]) -> Vec<String> {
    lines.iter().map(|l| l.to_string()).collect()
}

#[test]
fn the_sizes_of_the_tables_add_up() {
    let summary = run_egglog_with_engine(&msgs(&[
        "Declared sort Math.",
        "Ran 2 iterations in 1ms",
        "Ran 3 iterations in 2ms",
        "Function Diff has size 12",
        "Function Add has size 30",
        "Function Mul has size 0",
    ]));
    assert_eq!(summary, Some(Summary { report: Some(2), db_size: 42 }));
}

#[test]
fn the_size_is_the_first_numeral_behind_the_words() {
    let summary = run_egglog_with_engine(&msgs(&["Function f has size 12 and g has size 99"]));
    assert_eq!(summary, Some(Summary { report: None, db_size: 12 }));
    let summary = run_egglog_with_engine(&msgs(&["Function has size 5x7", "has size 1000"]));
    assert_eq!(summary, Some(Summary { report: None, db_size: 5 }));
}

#[test]
fn no_messages_no_size() {
    assert_eq!(run_egglog_with_engine(&vec![]), Some(Summary { report: None, db_size: 0 }));
    assert_eq!(run_egglog_with_engine(&msgs(&["Ran 1"])), Some(Summary { report: Some(0), db_size: 0 }));
}

#[test]
fn a_table_without_a_size_spoils_the_summary() {
    assert_eq!(run_egglog_with_engine(&msgs(&["Function Add has size 3", "Function Mul is empty"])), None);
    assert_eq!(run_egglog_with_engine(&msgs(&["Function Mul has size ", "Function Add has size 3"])), None);
}

#[test]
fn sizes_beyond_the_machine_spoil_the_summary() {
    let max = format!("Function a has size {}", usize::MAX);
    assert_eq!(
        run_egglog_with_engine(&vec![max.clone()]),
        Some(Summary { report: None, db_size: usize::MAX })
    );
    assert_eq!(run_egglog_with_engine(&vec![max.clone(), "Function b has size 1".to_string()]), None);
    assert_eq!(run_egglog_with_engine(&msgs(&["Function a has size 99999999999999999999999"])), None);
}

#[test]
fn where_the_rules_are_kept() {
    assert_eq!(path("math_full"), "src/egglog/math_full.egg");
    assert_eq!(path(""), "src/egglog/.egg");
}
