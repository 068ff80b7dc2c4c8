//! The configuration of a saturation run and the reading of its outcome. The
//! run itself is the engine's work: it matches and applies the rules,
//! iteration after iteration, until a limit is reached or nothing is left to
//! do.
use vstd::prelude::*;

verus! {

/// The policy that, after too many matches, bans a rule for some iterations:
/// a rule with more matches than its limit is banned for its ban length, and
/// both double with every ban.
#[derive(Clone, Copy, Debug, PartialEq, Eq, Structural)]
pub struct BackoffScheduler {
    pub match_limit: usize,
    pub ban_length: usize,
}

impl BackoffScheduler {
    /// A limit of 1000 matches and a ban of 5 iterations.
    pub fn default() -> (r: BackoffScheduler)
        ensures
            r == (BackoffScheduler { match_limit: 1000, ban_length: 5 }),
    {
        BackoffScheduler { match_limit: 1000, ban_length: 5 }
    }

    /// The policy with another limit on the matches of a rule.
    pub fn with_initial_match_limit(self, limit: usize) -> (r: BackoffScheduler)
        ensures
            r == (BackoffScheduler { match_limit: limit, ban_length: self.ban_length }),
    {
        BackoffScheduler { match_limit: limit, ban_length: self.ban_length }
    }
}

/// Which rules may fire in an iteration.
#[derive(Clone, Copy, Debug, PartialEq, Eq, Structural)]
pub enum Scheduler {
    /// Every rule, in every iteration.
    Simple,
    /// Every rule that is not banned.
    Backoff(BackoffScheduler),
}

/// A run before it starts: its limits, its scheduler and its seed terms.
#[derive(Clone, Debug, PartialEq, Eq)]
pub struct Runner {
    pub iter_limit: usize,
    pub node_limit: usize,
    /// In seconds.
    pub time_limit: u64,
    pub scheduler: Scheduler,
    pub exprs: Vec<&'static str>,
}

/// A run before it starts, as a mathematical value.
pub struct RunnerView {
    pub iter_limit: usize,
    pub node_limit: usize,
    pub time_limit: u64,
    pub scheduler: Scheduler,
    pub exprs: Seq<&'static str>,
}

impl View for Runner {
    type V = RunnerView;

    open spec fn view(&self) -> RunnerView {
        RunnerView {
            iter_limit: self.iter_limit,
            node_limit: self.node_limit,
            time_limit: self.time_limit,
            scheduler: self.scheduler,
            exprs: self.exprs@,
        }
    }
}

/// A run without seeds that no limit stops, under the simple scheduler.
pub open spec fn spec_default_runner() -> RunnerView {
    RunnerView {
        iter_limit: usize::MAX,
        node_limit: usize::MAX,
        time_limit: u64::MAX,
        scheduler: Scheduler::Simple,
        exprs: seq![],
    }
}

/// A run without seeds that no limit stops, under the simple scheduler.
pub fn default_runner() -> (r: Runner)
    ensures
        r@ == spec_default_runner(),
{
    Runner {
        iter_limit: usize::MAX,
        node_limit: usize::MAX,
        time_limit: u64::MAX,
        scheduler: Scheduler::Simple,
        exprs: Vec::new(),
    }
}

impl Runner {
    /// The run under another scheduler.
    pub fn with_scheduler(self, scheduler: Scheduler) -> (r: Runner)
        ensures
            r@ == (RunnerView { scheduler, ..self@ }),
    {
        Runner {
            iter_limit: self.iter_limit,
            node_limit: self.node_limit,
            time_limit: self.time_limit,
            scheduler,
            exprs: self.exprs,
        }
    }

    /// The run with another limit on its iterations.
    pub fn with_iter_limit(self, iter_limit: usize) -> (r: Runner)
        ensures
            r@ == (RunnerView { iter_limit, ..self@ }),
    {
        Runner {
            iter_limit,
            node_limit: self.node_limit,
            time_limit: self.time_limit,
            scheduler: self.scheduler,
            exprs: self.exprs,
        }
    }

    /// The run with one more seed term, after those it has.
    pub fn with_expr(self, expr: &'static str) -> (r: Runner)
        ensures
            r@ == (RunnerView { exprs: self@.exprs.push(expr), ..self@ }),
    {
        let mut exprs = self.exprs;
        exprs.push(expr);
        Runner {
            iter_limit: self.iter_limit,
            node_limit: self.node_limit,
            time_limit: self.time_limit,
            scheduler: self.scheduler,
            exprs,
        }
    }
}

/// Why a run ended.
#[derive(Clone, Debug, PartialEq, Eq)]
pub enum StopReason {
    /// No rule had anything left to add.
    Saturated,
    /// The run reached this limit on its iterations.
    IterationLimit(usize),
    /// The run reached this limit on its nodes.
    NodeLimit(usize),
    /// The run reached its limit on time.
    TimeLimit,
    /// A hook ended the run, with this message.
    Other(String),
}

/// The size of a run that was meant to end at its iteration limit: the
/// number of nodes, where it ended so; nothing where it ended otherwise,
/// which is to be looked into and not to be taken for a size.
pub fn size_at_iteration_limit(stop_reason: &StopReason, egraph_nodes: usize) -> (r: Option<usize>)
    ensures
        r == if *stop_reason is IterationLimit {
            Some(egraph_nodes)
        } else {
            None
        },
{
    match stop_reason {
        StopReason::IterationLimit(_) => Some(egraph_nodes),
        _ => None,
    }
}

/// How the relational engine is set up for a run.
#[derive(Clone, Copy, Debug, PartialEq, Eq, Structural)]
pub struct Egglog {
    /// The limit on the matches of a rule, where it is not the engine's own.
    pub match_limit: Option<usize>,
    /// Whether the engine evaluates semi-naively, where that is not the
    /// engine's own choice.
    pub seminaive: Option<bool>,
}

} // verus!
