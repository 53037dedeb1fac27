//! The benchmark runner's verified core: the per-worker loop state machine,
//! the fold of per-worker loggers into one aggregate, and the report lines.
//!
//! The shell around this library spawns one task per unit of the concurrency
//! level, runs each worker's loop (awaiting the generator's request between
//! `begin_iteration` and `finish_iteration`), joins them, and prints the
//! lines produced here.

use vstd::prelude::*;
use vstd::string::StringExecFns;
use crate::clock::{now_millis, valid_clock};
use crate::decimal::{dec_str, to_decimal};
use crate::observation_logger::{
    rendered,
    spec_completed_count,
    Observation,
    ObservationLogger,
    SimpleLogger,
};
use crate::request_generator::RequestError;
use crate::termination::{Termination, TimeTermination};

verus! {

/// One worker's loop state: its own copy of the termination policy and its
/// own logger. No state is shared between workers; their loggers are merged
/// only after all of them have finished.
pub struct Worker {
    pub termination: TimeTermination,
    pub logger: SimpleLogger,
}

impl Worker {
    /// Both components are well-formed and at most one attempt is in flight.
    pub open spec fn wf(&self) -> bool {
        &&& self.termination.wf()
        &&& self.logger.wf()
    }

    /// Enter the loop: take ownership of this worker's policy copy, mark the
    /// loop as started, and begin with an empty log.
    pub fn start_loop(termination: TimeTermination) -> (w: Worker)
        requires
            termination.wf(),
        ensures
            w.wf(),
            w.termination.started(),
            w.termination.duration_millis == termination.duration_millis,
            w.logger.observations@ =~= Seq::<Observation>::empty(),
            w.logger.current is None,
    {
        let mut t = termination;
        t.loop_started();
        Worker { termination: t, logger: SimpleLogger::new() }
    }

    /// Begin one iteration: run the policy's hook, then record the start of
    /// a new request attempt.
    pub fn begin_iteration(&mut self)
        requires
            old(self).wf(),
            old(self).termination.started(),
        ensures
            final(self).wf(),
            final(self).termination == old(self).termination,
            final(self).logger.observations == old(self).logger.observations,
            final(self).logger.current is Some,
    {
        self.termination.iteration_started();
        let now = now_millis();
        self.logger.log_start_of_request_at(now);
    }

    /// Finish one iteration: close the attempt's observation (its end stays
    /// unset exactly when `error` is set), then ask the policy whether the
    /// loop must stop; when it continues, run the policy's end hook. The
    /// current iteration's result is recorded either way.
    pub fn finish_iteration(&mut self, error: Option<RequestError>) -> (stop: bool)
        requires
            old(self).wf(),
            old(self).termination.started(),
            old(self).logger.current is Some,
        ensures
            final(self).wf(),
            final(self).termination == old(self).termination,
            final(self).logger.current is None,
            final(self).logger.observations@.len() == old(self).logger.observations@.len() + 1,
            final(self).logger.observations@.drop_last() == old(self).logger.observations@,
            final(self).logger.observations@.last().start_millis == old(
                self,
            ).logger.current->0.start_millis,
            final(self).logger.observations@.last().is_completed() <==> error is None,
            spec_completed_count(final(self).logger.observations@) == spec_completed_count(
                old(self).logger.observations@,
            ) + (if error is None {
                1int
            } else {
                0int
            }),
            exists|t: i64|
                valid_clock(t) && stop == old(self).termination.spec_should_terminate_at(t as int),
    {
        let now = now_millis();
        self.logger.log_end_of_request_at(error.is_some(), now);
        proof {
            assert(self.logger.observations@.drop_last() =~= old(self).logger.observations@);
        }
        let stop = self.termination.should_terminate();
        if !stop {
            self.termination.iteration_ended();
        }
        stop
    }

    /// Leave the loop, handing the accumulated logger to the runner.
    pub fn into_logger(self) -> (r: SimpleLogger)
        ensures
            r == self.logger,
    {
        self.logger
    }
}

/// The concatenation of every logger's observations, in order.
pub open spec fn spec_concat_observations(logs: Seq<SimpleLogger>) -> Seq<Observation>
    decreases logs.len(),
{
    if logs.len() == 0 {
        Seq::empty()
    } else {
        spec_concat_observations(logs.drop_last()) + logs.last().observations@
    }
}

/// Fold all workers' loggers of one sub-run into a single aggregate whose
/// observations are the concatenation of everyone's observations.
pub fn merge_all(logs: Vec<SimpleLogger>) -> (r: SimpleLogger)
    requires
        forall|i: int| 0 <= i < logs@.len() ==> (#[trigger] logs@[i]).wf(),
    ensures
        r.wf(),
        r.observations@ == spec_concat_observations(logs@),
        r.current is None,
{
    let mut acc = SimpleLogger::new();
    let mut logs = logs;
    let ghost all = logs@;
    let mut i: usize = 0;
    while i < logs.len()
        invariant
            logs@ == all,
            i <= all.len(),
            forall|j: int| 0 <= j < all.len() ==> (#[trigger] all[j]).wf(),
            acc.wf(),
            acc.current is None,
            acc.observations@ == spec_concat_observations(all.take(i as int)),
        decreases all.len() - i,
    {
        proof {
            assert(all.take(i + 1).drop_last() =~= all.take(i as int));
        }
        let next = SimpleLogger {
            observations: logs[i].observations.clone(),
            current: None,
        };
        proof {
            assert(next.observations@ =~= all[i as int].observations@);
        }
        acc = ObservationLogger::<RequestError>::merge(acc, next);
        i = i + 1;
    }
    proof {
        assert(all.take(all.len() as int) =~= all);
    }
    acc
}

/// One step of the benchmark sweep, naming the (server, generator) cycle it
/// belongs to: start that cycle's server, run one sub-run at the given
/// concurrency level, or stop that cycle's server.
#[derive(Clone, Copy, PartialEq, Eq, Debug)]
pub enum SweepStep {
    /// Start the server of the given cycle and wait for it to become ready.
    Start(usize),
    /// Run one sub-run of the given cycle at the given concurrency level.
    RunLevel(usize, usize),
    /// Stop the server of the given cycle.
    Stop(usize),
}

/// The steps of one (server, generator) cycle: start the server, run one
/// sub-run per concurrency level in the order given, stop the server.
pub open spec fn spec_pair_plan(pair: usize, levels: Seq<usize>) -> Seq<SweepStep> {
    seq![SweepStep::Start(pair)] + Seq::new(
        levels.len(),
        |j: int| SweepStep::RunLevel(pair, levels[j]),
    ) + seq![SweepStep::Stop(pair)]
}

/// The whole sweep: every cycle's steps, cycles in the order given.
pub open spec fn spec_sweep_plan(n_pairs: nat, levels: Seq<usize>) -> Seq<SweepStep>
    decreases n_pairs,
{
    if n_pairs == 0 {
        Seq::empty()
    } else {
        spec_sweep_plan((n_pairs - 1) as nat, levels) + spec_pair_plan(
            (n_pairs - 1) as usize,
            levels,
        )
    }
}

/// The steps of one cycle, executable form.
fn pair_plan(pair: usize, levels: &Vec<usize>) -> (plan: Vec<SweepStep>)
    ensures
        plan@ == spec_pair_plan(pair, levels@),
{
    let mut plan: Vec<SweepStep> = Vec::new();
    plan.push(SweepStep::Start(pair));
    let mut j: usize = 0;
    while j < levels.len()
        invariant
            j <= levels@.len(),
            plan@ =~= seq![SweepStep::Start(pair)] + Seq::new(
                j as nat,
                |i: int| SweepStep::RunLevel(pair, levels@[i]),
            ),
        decreases levels@.len() - j,
    {
        plan.push(SweepStep::RunLevel(pair, levels[j]));
        proof {
            assert(plan@ =~= seq![SweepStep::Start(pair)] + Seq::new(
                (j + 1) as nat,
                |i: int| SweepStep::RunLevel(pair, levels@[i]),
            ));
        }
        j = j + 1;
    }
    plan.push(SweepStep::Stop(pair));
    proof {
        assert(plan@ =~= spec_pair_plan(pair, levels@));
    }
    plan
}

/// The sweep's schedule for `n_pairs` (server, generator) cycles over the
/// given concurrency levels: per cycle in order, a start, one sub-run per
/// level in order, a stop. The shell executes the steps in this exact order,
/// reports after each sub-run, and aborts the run on the first failing step.
pub fn sweep_plan(n_pairs: usize, levels: &Vec<usize>) -> (plan: Vec<SweepStep>)
    ensures
        plan@ == spec_sweep_plan(n_pairs as nat, levels@),
{
    let mut plan: Vec<SweepStep> = Vec::new();
    let mut p: usize = 0;
    while p < n_pairs
        invariant
            p <= n_pairs,
            plan@ == spec_sweep_plan(p as nat, levels@),
        decreases n_pairs - p,
    {
        let mut next = pair_plan(p, levels);
        plan.append(&mut next);
        p = p + 1;
    }
    plan
}

/// Law: the sweep schedules one sub-run per (cycle, level), in order — its
/// plan holds exactly `levels.len() + 2` steps per cycle.
pub proof fn lemma_sweep_plan_len(n_pairs: nat, levels: Seq<usize>)
    ensures
        spec_sweep_plan(n_pairs, levels).len() == n_pairs * (levels.len() + 2),
    decreases n_pairs,
{
    if n_pairs == 0 {
    } else {
        lemma_sweep_plan_len((n_pairs - 1) as nat, levels);
        assert((n_pairs - 1) * (levels.len() + 2) + (levels.len() + 2) == n_pairs * (levels.len()
            + 2)) by (nonlinear_arith);
    }
}

/// The banner line announcing that benches on a server begin.
pub fn start_banner(name: &str) -> (r: String)
    ensures
        r@ == "Starting benches on "@ + name@,
{
    let mut s = "Starting benches on ".to_owned();
    s.append(name);
    s
}

/// The banner line announcing that benches on a server ended.
pub fn end_banner(name: &str) -> (r: String)
    ensures
        r@ == "Ending benches on "@ + name@,
{
    let mut s = "Ending benches on ".to_owned();
    s.append(name);
    s
}

/// The line naming one concurrency level.
pub fn concurrency_level_line(level: usize) -> (r: String)
    ensures
        r@ == "Concurrency level: "@ + dec_str(level as nat),
{
    let mut s = "Concurrency level: ".to_owned();
    let num = to_decimal(level as u128);
    s.append(num.as_str());
    s
}

/// The line reporting one sub-run's aggregate result.
pub fn results_line(logger: &SimpleLogger) -> (r: String)
    requires
        logger.wf(),
    ensures
        r@ == "Results: "@ + rendered(logger.observations@),
{
    let mut s = "Results: ".to_owned();
    let body = logger.render();
    s.append(body.as_str());
    s
}

} // verus!
