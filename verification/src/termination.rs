//! Termination policies: stateful predicates deciding when a worker's
//! request loop must stop.

use vstd::prelude::*;
use crate::clock::{now_millis, valid_clock};

verus! {

/// Milliseconds in one second.
pub const MILLIS_PER_SECOND: i64 = 1000;

/// A pluggable rule deciding when a worker's loop must stop.
///
/// A policy is fail-safe: before `loop_started` has run, `should_terminate`
/// answers `true`, so a loop over a misused policy cannot run forever.
pub trait Termination: Sized {
    /// The policy's internal well-formedness condition.
    spec fn inv(&self) -> bool;

    /// Whether `loop_started` has been called.
    spec fn started(&self) -> bool;

    /// Called once when a worker's loop begins.
    fn loop_started(&mut self)
        requires
            old(self).inv(),
        ensures
            final(self).inv(),
            final(self).started(),
    ;

    /// Hook called at the top of each iteration; no behavior is required.
    fn iteration_started(&mut self)
        requires
            old(self).inv(),
        ensures
            final(self).inv(),
            final(self).started() == old(self).started(),
    ;

    /// Whether the loop must stop now. An unstarted policy always says stop.
    fn should_terminate(&self) -> (stop: bool)
        requires
            self.inv(),
        ensures
            !self.started() ==> stop,
    ;

    /// Hook called at the bottom of each continuing iteration; no behavior
    /// is required.
    fn iteration_ended(&mut self)
        requires
            old(self).inv(),
        ensures
            final(self).inv(),
            final(self).started() == old(self).started(),
    ;
}

/// A wall-clock termination policy: once its loop has started at some base
/// instant, it asks to stop exactly when the configured duration has elapsed
/// since that base.
#[derive(Clone)]
pub struct TimeTermination {
    /// The instant `loop_started` ran, as milliseconds since the epoch;
    /// `None` until then.
    pub start_millis: Option<i64>,
    /// How long the loop may run, in milliseconds.
    pub duration_millis: i64,
}

impl TimeTermination {
    /// Well-formedness: a recorded base instant is a wall-clock reading.
    pub open spec fn wf(&self) -> bool {
        match self.start_millis {
            Some(t) => valid_clock(t),
            None => true,
        }
    }

    /// What `should_terminate` answers at instant `now`: stop if the loop
    /// never started, or once `duration_millis` has elapsed since the base.
    pub open spec fn spec_should_terminate_at(&self, now: int) -> bool {
        match self.start_millis {
            None => true,
            Some(s) => now - s >= self.duration_millis,
        }
    }

    /// The duration actually used for a user-supplied duration of `seconds`
    /// seconds: durations of zero or less are clamped to exactly one second,
    /// so a run always terminates.
    pub open spec fn effective_duration_millis(seconds: int) -> int {
        if seconds <= 0 {
            MILLIS_PER_SECOND as int
        } else {
            seconds * (MILLIS_PER_SECOND as int)
        }
    }

    /// A policy with the given duration in milliseconds, not yet started.
    pub fn new(duration_millis: i64) -> (r: TimeTermination)
        ensures
            r.start_millis is None,
            r.duration_millis == duration_millis,
            r.wf(),
    {
        TimeTermination { start_millis: None, duration_millis }
    }

    /// A policy from a user-supplied duration in whole seconds, clamped to a
    /// minimum of one second.
    pub fn from_seconds(seconds: i64) -> (r: TimeTermination)
        requires
            seconds <= i64::MAX / MILLIS_PER_SECOND,
        ensures
            r.start_millis is None,
            r.duration_millis == Self::effective_duration_millis(seconds as int),
            r.wf(),
    {
        let clamped: i64 = if seconds <= 0 {
            1
        } else {
            seconds
        };
        TimeTermination { start_millis: None, duration_millis: clamped * MILLIS_PER_SECOND }
    }

    /// Record `now` as the base instant of the loop.
    pub fn loop_started_at(&mut self, now: i64)
        requires
            valid_clock(now),
        ensures
            final(self).start_millis == Some(now),
            final(self).duration_millis == old(self).duration_millis,
            final(self).wf(),
    {
        self.start_millis = Some(now);
    }

    /// Whether the loop must stop as of instant `now`.
    pub fn should_terminate_at(&self, now: i64) -> (stop: bool)
        requires
            self.wf(),
            valid_clock(now),
        ensures
            stop == self.spec_should_terminate_at(now as int),
    {
        match self.start_millis {
            None => true,
            Some(s) => now - s >= self.duration_millis,
        }
    }
}

impl Termination for TimeTermination {
    open spec fn inv(&self) -> bool {
        self.wf()
    }

    open spec fn started(&self) -> bool {
        self.start_millis is Some
    }

    fn loop_started(&mut self)
        ensures
            final(self).duration_millis == old(self).duration_millis,
    {
        let now = now_millis();
        self.loop_started_at(now);
    }

    fn iteration_started(&mut self)
        ensures
            *final(self) == *old(self),
    {
    }

    fn should_terminate(&self) -> (stop: bool)
        ensures
            self.started() ==> (exists|t: i64|
                valid_clock(t) && stop == self.spec_should_terminate_at(t as int)),
    {
        match self.start_millis {
            None => true,
            Some(_) => {
                let now = now_millis();
                let stop = self.should_terminate_at(now);
                assert(valid_clock(now) && stop == self.spec_should_terminate_at(now as int));
                stop
            },
        }
    }

    fn iteration_ended(&mut self)
        ensures
            *final(self) == *old(self),
    {
    }
}

/// Law: a policy whose loop never started asks to stop at every instant.
pub proof fn lemma_unstarted_policy_stops(t: TimeTermination, now: int)
    requires
        t.start_millis is None,
    ensures
        t.spec_should_terminate_at(now),
{
}

/// Law: after the loop has started, `should_terminate` is a single monotonic
/// transition in time — false strictly before `base + duration`, true at and
/// after it, and once true it stays true at every later instant.
pub proof fn lemma_termination_single_transition(t: TimeTermination, now: int, later: int)
    requires
        t.start_millis is Some,
        now <= later,
    ensures
        t.spec_should_terminate_at(now) <==> now >= t.start_millis->0 + t.duration_millis,
        t.spec_should_terminate_at(now) ==> t.spec_should_terminate_at(later),
{
}

} // verus!

