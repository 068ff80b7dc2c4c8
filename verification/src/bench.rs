//! The bookkeeping of the measurements: which engines are measured, what a
//! measurement records, and how the relational engine's messages are read.
use crate::text::{decimal, to_decimal};
use vstd::prelude::*;
use vstd::string::*;

verus! {

/// The engines that are measured.
#[derive(Clone, Copy, Debug, PartialEq, Eq, Structural)]
pub enum Engine {
    Egg,
    Egglog,
    EgglogNaive,
}

/// One line of the results: the run, the engine, the median time in
/// nanoseconds as a decimal numeral, and the size reached.
#[derive(Clone, Debug, PartialEq, Eq)]
pub struct BenchmarkRecord {
    pub benchmark: String,
    pub engine: Engine,
    pub time: String,
    pub size: usize,
}

/// What is measured, and how often.
#[derive(Clone, Copy, Debug, PartialEq, Eq, Structural)]
pub struct Opt {
    pub disable_egg: bool,
    pub disable_egglog: bool,
    /// How often each run is timed; an odd number, so that the median is one
    /// of the times.
    pub repeat: usize,
    /// The runs go from one iteration up to this many.
    pub iter_size: usize,
}

impl Opt {
    /// Both engines, three repetitions, and runs of up to 200 iterations.
    pub fn default() -> (r: Opt)
        ensures
            r == (Opt { disable_egg: false, disable_egglog: false, repeat: 3, iter_size: 200 }),
    {
        Opt { disable_egg: false, disable_egglog: false, repeat: 3, iter_size: 200 }
    }
}

/// What timing one run on one engine gave: the time of each repetition, in
/// nanoseconds, and the size that the last repetition reached.
#[derive(Debug)]
pub struct Samples {
    pub durations: Vec<u128>,
    pub size: usize,
}

/// The sequence ascends.
pub open spec fn sorted(s: Seq<u128>) -> bool {
    forall|i: int, j: int| 0 <= i <= j < s.len() ==> s[i] <= s[j]
}

/// `Vec::sort` of the standard library: the same numbers, in ascending
/// order.
#[verifier::external_body]
fn sort(v: &mut Vec<u128>)
    ensures
        sorted(final(v)@),
        final(v)@.to_multiset() == old(v)@.to_multiset(),
{
    v.sort();
}

/// The median of the times: the one in the middle once they are in order,
/// and the upper of the two in the middle where their number is even. The
/// times are left in ascending order.
pub fn median(durations: &mut Vec<u128>) -> (r: u128)
    requires
        old(durations)@.len() > 0,
    ensures
        sorted(final(durations)@),
        final(durations)@.to_multiset() == old(durations)@.to_multiset(),
        final(durations)@.len() == old(durations)@.len(),
        r == final(durations)@[final(durations)@.len() as int / 2],
{
    sort(durations);
    proof {
        old(durations)@.to_multiset_ensures();
        durations@.to_multiset_ensures();
    }
    durations[durations.len() / 2]
}

/// The engines that the options ask for, in the order in which they are
/// measured. The naive relational engine goes with the relational engine.
pub open spec fn spec_engines(opt: Opt) -> Seq<Engine> {
    (if opt.disable_egg {
        seq![]
    } else {
        seq![Engine::Egg]
    }) + (if opt.disable_egglog {
        seq![]
    } else {
        seq![Engine::Egglog, Engine::EgglogNaive]
    })
}

/// The record is that of the run `name` on `engine`, given the samples: it
/// holds the size they reached and, as a decimal numeral, the time in the
/// middle of their times in ascending order.
pub open spec fn records(r: BenchmarkRecord, name: Seq<char>, engine: Engine, samples: Samples) -> bool {
    &&& r.benchmark@ == name
    &&& r.engine == engine
    &&& r.size == samples.size
    &&& exists|ordered: Seq<u128>| #[trigger]
        sorted(ordered) && ordered.to_multiset() == samples.durations@.to_multiset()
            && ordered.len() == samples.durations@.len() && r.time@ == decimal(
            ordered[ordered.len() as int / 2] as nat,
        )
}

/// The runs that are measured: one for each number of iterations from 1 to
/// `iter_size`.
pub fn benchmarks(iter_size: usize) -> (r: Vec<crate::math::run_n::RunN>)
    ensures
        r@.len() == iter_size,
        forall|i: int| 0 <= i < iter_size ==> (#[trigger] r@[i]).n == i + 1,
{
    let mut benches: Vec<crate::math::run_n::RunN> = Vec::new();
    let mut i: usize = 0;
    while i < iter_size
        invariant
            i <= iter_size,
            benches@.len() == i,
            forall|j: int| 0 <= j < i ==> (#[trigger] benches@[j]).n == j + 1,
        decreases iter_size - i,
    {
        i += 1;
        benches.push(crate::math::run_n::RunN::new(i));
    }
    benches
}

/// Runs the measurements and keeps their records.
#[derive(Default)]
pub struct BenchmarkRunner;

impl BenchmarkRunner {
    /// The engines that the options ask for, in the order in which they are
    /// measured.
    pub fn engines(opt: &Opt) -> (r: Vec<Engine>)
        ensures
            r@ == spec_engines(*opt),
    {
        let mut r: Vec<Engine> = Vec::new();
        if !opt.disable_egg {
            r.push(Engine::Egg);
        }
        if !opt.disable_egglog {
            r.push(Engine::Egglog);
            r.push(Engine::EgglogNaive);
        }
        assert(r@ =~= spec_engines(*opt));
        r
    }

    /// The record of one run on one engine: the median of its times and the
    /// size it reached.
    pub fn record(name: &str, engine: Engine, samples: Samples) -> (r: BenchmarkRecord)
        requires
            samples.durations@.len() > 0,
        ensures
            records(r, name@, engine, samples),
    {
        let mut durations = samples.durations;
        let time = median(&mut durations);
        assert(sorted(durations@));
        BenchmarkRecord {
            benchmark: String::from_str(name),
            engine,
            time: to_decimal(time),
            size: samples.size,
        }
    }

    /// The records of one run: one for each engine that the options ask
    /// for, in the order in which they are measured, from the samples that
    /// were taken on that engine. The samples of an engine that is not asked
    /// for are not looked at.
    pub fn run_one(
        &self,
        opt: &Opt,
        name: &str,
        egg: Samples,
        egglog: Samples,
        egglognaive: Samples,
    ) -> (r: Vec<BenchmarkRecord>)
        requires
            !opt.disable_egg ==> egg.durations@.len() > 0,
            !opt.disable_egglog ==> egglog.durations@.len() > 0 && egglognaive.durations@.len() > 0,
        ensures
            r@.len() == spec_engines(*opt).len(),
            forall|i: int|
                0 <= i < r@.len() ==> records(
                    #[trigger] r@[i],
                    name@,
                    spec_engines(*opt)[i],
                    match spec_engines(*opt)[i] {
                        Engine::Egg => egg,
                        Engine::Egglog => egglog,
                        Engine::EgglogNaive => egglognaive,
                    },
                ),
    {
        let mut records: Vec<BenchmarkRecord> = Vec::new();
        if !opt.disable_egg {
            records.push(Self::record(name, Engine::Egg, egg));
        }
        if !opt.disable_egglog {
            records.push(Self::record(name, Engine::Egglog, egglog));
            records.push(Self::record(name, Engine::EgglogNaive, egglognaive));
        }
        records
    }

    /// Adds the records of the run of index `i` to those of the runs before
    /// it, and says whether the results so far are to be written out: after
    /// the first run and then after every fifth.
    pub fn run(&self, records: &mut Vec<BenchmarkRecord>, i: usize, of_run: Vec<BenchmarkRecord>) -> (write: bool)
        ensures
            final(records)@ == old(records)@ + of_run@,
            write == (i % 5 == 0),
    {
        let mut of_run = of_run;
        records.append(&mut of_run);
        i % 5 == 0
    }
}

} // verus!
