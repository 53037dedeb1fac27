//! Observation logging: per-request timing records kept by one worker,
//! merged across workers, and rendered as a throughput report.

use vstd::prelude::*;
use vstd::math::{max, min};
use vstd::string::StringExecFns;
use crate::clock::{now_millis, valid_clock};
use crate::decimal::{dec_str, frac3_str, to_decimal, to_three_digits};
use crate::termination::MILLIS_PER_SECOND;

verus! {

/// One recorded request attempt: its start instant and, when the attempt
/// succeeded, its completion instant (both in milliseconds since the epoch).
/// A failed attempt keeps `end_millis` unset.
#[derive(Clone, Copy, PartialEq, Eq, Debug)]
pub struct Observation {
    pub start_millis: i64,
    pub end_millis: Option<i64>,
}

impl Observation {
    /// Whether the attempt completed successfully.
    pub open spec fn is_completed(self) -> bool {
        self.end_millis is Some
    }

    /// Both instants are wall-clock readings.
    pub open spec fn wf(self) -> bool {
        &&& valid_clock(self.start_millis)
        &&& (self.end_millis is Some ==> valid_clock(self.end_millis->0))
    }
}

/// How many observations in `obs` completed successfully.
pub open spec fn spec_completed_count(obs: Seq<Observation>) -> nat
    decreases obs.len(),
{
    if obs.len() == 0 {
        0
    } else {
        spec_completed_count(obs.drop_last()) + (if obs.last().is_completed() {
            1nat
        } else {
            0nat
        })
    }
}

/// The earliest start instant over all of `obs`, failed attempts included.
pub open spec fn spec_min_start(obs: Seq<Observation>) -> int
    recommends
        obs.len() > 0,
    decreases obs.len(),
{
    if obs.len() <= 1 {
        obs[0].start_millis as int
    } else {
        min(spec_min_start(obs.drop_last()), obs.last().start_millis as int)
    }
}

/// The latest completion instant over the successfully completed
/// observations of `obs`.
pub open spec fn spec_max_end(obs: Seq<Observation>) -> int
    recommends
        spec_completed_count(obs) > 0,
    decreases obs.len(),
{
    if obs.len() == 0 {
        0
    } else if obs.last().is_completed() {
        if spec_completed_count(obs.drop_last()) == 0 {
            obs.last().end_millis->0 as int
        } else {
            max(spec_max_end(obs.drop_last()), obs.last().end_millis->0 as int)
        }
    } else {
        spec_max_end(obs.drop_last())
    }
}

/// The rendered report for a set of observations: "No results" when nothing
/// completed successfully or the wall-clock span is under one whole second;
/// otherwise the requests-per-second figure, to three decimal places, of the
/// successful-completion count over the whole seconds between the earliest
/// start and the latest successful completion.
pub open spec fn rendered(obs: Seq<Observation>) -> Seq<char> {
    let count = spec_completed_count(obs);
    if count == 0 {
        "No results"@
    } else {
        let span = spec_max_end(obs) - spec_min_start(obs);
        if span < MILLIS_PER_SECOND {
            "No results"@
        } else {
            let secs = span / (MILLIS_PER_SECOND as int);
            let rps_milli = (count * 1000) as int / secs;
            "RPS: "@ + dec_str((rps_milli / 1000) as nat) + "."@ + frac3_str(
                (rps_milli % 1000) as nat,
            )
        }
    }
}

/// Records the start and end instants of each request attempt in one worker
/// and can be merged with another logger's records.
///
/// A worker never has two attempts in flight: `current`, once set, is always
/// closed (moved into `observations`) before the next start is recorded.
pub trait ObservationLogger<E>: Sized {
    /// The logger's internal well-formedness condition.
    spec fn inv(&self) -> bool;

    /// The observations recorded so far, in recording order.
    spec fn obs(&self) -> Seq<Observation>;

    /// The start instant of the in-flight attempt, if one is open.
    spec fn in_flight(&self) -> Option<i64>;

    /// Record the current instant as the start of a new in-flight attempt,
    /// overwriting any stale one.
    fn log_start_of_request(&mut self)
        requires
            old(self).inv(),
        ensures
            final(self).inv(),
            final(self).obs() == old(self).obs(),
            final(self).in_flight() is Some,
    ;

    /// Close the in-flight attempt: stamp the current instant as its end
    /// when `error` is `None`, and leave the end unset otherwise.
    fn log_end_of_request(&mut self, error: Option<E>)
        requires
            old(self).inv(),
        ensures
            final(self).inv(),
            final(self).in_flight() is None,
            match old(self).in_flight() {
                Some(start) => {
                    &&& final(self).obs().len() == old(self).obs().len() + 1
                    &&& final(self).obs().drop_last() == old(self).obs()
                    &&& final(self).obs().last().start_millis == start
                    &&& (final(self).obs().last().is_completed() <==> error is None)
                },
                None => final(self).obs() == old(self).obs(),
            },
    ;

    /// Concatenate the two loggers' observation sequences, consuming both.
    fn merge(self, other: Self) -> (r: Self)
        requires
            self.inv(),
            other.inv(),
        ensures
            r.inv(),
            r.obs() == self.obs() + other.obs(),
            r.in_flight() == self.in_flight(),
    ;
}

/// The concrete logger: an ordered sequence of observations plus at most one
/// in-flight observation.
pub struct SimpleLogger {
    pub observations: Vec<Observation>,
    pub current: Option<Observation>,
}

impl SimpleLogger {
    /// Well-formedness: every instant recorded is a wall-clock reading, and
    /// an in-flight observation has no end yet.
    pub open spec fn wf(&self) -> bool {
        &&& (forall|i: int|
            0 <= i < self.observations@.len() ==> (#[trigger] self.observations@[i]).wf())
        &&& match self.current {
            Some(o) => valid_clock(o.start_millis) && o.end_millis is None,
            None => true,
        }
    }

    /// An empty logger.
    pub fn new() -> (r: SimpleLogger)
        ensures
            r.observations@ =~= Seq::<Observation>::empty(),
            r.current is None,
            r.wf(),
    {
        SimpleLogger { observations: Vec::new(), current: None }
    }

    /// Open a new in-flight observation starting at instant `now`.
    pub fn log_start_of_request_at(&mut self, now: i64)
        requires
            old(self).wf(),
            valid_clock(now),
        ensures
            final(self).wf(),
            final(self).observations == old(self).observations,
            final(self).current == Some((Observation { start_millis: now, end_millis: None })),
    {
        self.current = Some(Observation { start_millis: now, end_millis: None });
    }

    /// Close the in-flight observation, stamping instant `now` as its end
    /// unless the attempt failed.
    pub fn log_end_of_request_at(&mut self, failed: bool, now: i64)
        requires
            old(self).wf(),
            valid_clock(now),
        ensures
            final(self).wf(),
            final(self).current is None,
            match old(self).current {
                Some(o) => final(self).observations@ == old(self).observations@.push(
                    (Observation {
                        start_millis: o.start_millis,
                        end_millis: if failed {
                            None
                        } else {
                            Some(now)
                        },
                    }),
                ),
                None => final(self).observations == old(self).observations,
            },
    {
        let cur = self.current.take();
        match cur {
            Some(o) => {
                let end: Option<i64> = if failed {
                    None
                } else {
                    Some(now)
                };
                self.observations.push(Observation { start_millis: o.start_millis, end_millis: end });
            },
            None => {},
        }
    }

    /// How many recorded observations completed successfully.
    pub fn completed_count(&self) -> (c: usize)
        ensures
            c == spec_completed_count(self.observations@),
            c <= self.observations@.len(),
    {
        let mut c: usize = 0;
        let mut i: usize = 0;
        while i < self.observations.len()
            invariant
                i <= self.observations@.len(),
                c == spec_completed_count(self.observations@.take(i as int)),
                c <= i,
            decreases self.observations@.len() - i,
        {
            proof {
                assert(self.observations@.take(i + 1).drop_last() =~= self.observations@.take(
                    i as int,
                ));
            }
            if self.observations[i].end_millis.is_some() {
                c = c + 1;
            }
            i = i + 1;
        }
        proof {
            assert(self.observations@.take(self.observations@.len() as int) =~= self
                .observations@);
        }
        c
    }

    /// The earliest recorded start instant, or `None` when nothing was
    /// recorded.
    pub fn min_start(&self) -> (r: Option<i64>)
        requires
            self.wf(),
        ensures
            r is Some <==> self.observations@.len() > 0,
            r is Some ==> r->0 as int == spec_min_start(self.observations@) && valid_clock(r->0),
    {
        let mut r: Option<i64> = None;
        let mut i: usize = 0;
        while i < self.observations.len()
            invariant
                self.wf(),
                i <= self.observations@.len(),
                r is Some <==> i > 0,
                r is Some ==> r->0 as int == spec_min_start(self.observations@.take(i as int))
                    && valid_clock(r->0),
            decreases self.observations@.len() - i,
        {
            proof {
                assert(self.observations@.take(i + 1).drop_last() =~= self.observations@.take(
                    i as int,
                ));
            }
            let s = self.observations[i].start_millis;
            r = match r {
                None => Some(s),
                Some(m) => if s < m {
                    Some(s)
                } else {
                    Some(m)
                },
            };
            i = i + 1;
        }
        proof {
            assert(self.observations@.take(self.observations@.len() as int) =~= self
                .observations@);
        }
        r
    }

    /// The latest recorded completion instant over successful observations,
    /// or `None` when none completed.
    pub fn max_end(&self) -> (r: Option<i64>)
        requires
            self.wf(),
        ensures
            r is Some <==> spec_completed_count(self.observations@) > 0,
            r is Some ==> r->0 as int == spec_max_end(self.observations@) && valid_clock(r->0),
    {
        let mut r: Option<i64> = None;
        let mut i: usize = 0;
        while i < self.observations.len()
            invariant
                self.wf(),
                i <= self.observations@.len(),
                r is Some <==> spec_completed_count(self.observations@.take(i as int)) > 0,
                r is Some ==> r->0 as int == spec_max_end(self.observations@.take(i as int))
                    && valid_clock(r->0),
            decreases self.observations@.len() - i,
        {
            proof {
                assert(self.observations@.take(i + 1).drop_last() =~= self.observations@.take(
                    i as int,
                ));
            }
            match self.observations[i].end_millis {
                Some(e) => {
                    r = match r {
                        None => Some(e),
                        Some(m) => if e > m {
                            Some(e)
                        } else {
                            Some(m)
                        },
                    };
                },
                None => {},
            }
            i = i + 1;
        }
        proof {
            assert(self.observations@.take(self.observations@.len() as int) =~= self
                .observations@);
        }
        r
    }

    /// Render the report for the recorded observations: the
    /// requests-per-second figure, or "No results" when nothing completed
    /// successfully or the span is under one whole second.
    pub fn render(&self) -> (r: String)
        requires
            self.wf(),
        ensures
            r@ == rendered(self.observations@),
    {
        let count = self.completed_count();
        if count == 0 {
            return "No results".to_owned();
        }
        proof {
            if self.observations@.len() == 0 {
                assert(spec_completed_count(self.observations@) == 0);
            }
        }
        let min_s = self.min_start().unwrap();
        let max_e = self.max_end().unwrap();
        let span: i64 = max_e - min_s;
        if span < MILLIS_PER_SECOND {
            return "No results".to_owned();
        }
        let span_u: u64 = span as u64;
        let secs: u64 = span_u / (MILLIS_PER_SECOND as u64);
        let rps_milli: u128 = (count as u128) * 1000 / (secs as u128);
        let mut out = "RPS: ".to_owned();
        let int_part = to_decimal(rps_milli / 1000);
        let frac_part = to_three_digits(rps_milli % 1000);
        out.append(int_part.as_str());
        out.append(".");
        out.append(frac_part.as_str());
        out
    }
}

impl Default for SimpleLogger {
    /// An empty logger.
    fn default() -> (r: SimpleLogger)
        ensures
            r.observations@ =~= Seq::<Observation>::empty(),
            r.current is None,
            r.wf(),
    {
        SimpleLogger::new()
    }
}

impl<E> ObservationLogger<E> for SimpleLogger {
    open spec fn inv(&self) -> bool {
        self.wf()
    }

    open spec fn obs(&self) -> Seq<Observation> {
        self.observations@
    }

    open spec fn in_flight(&self) -> Option<i64> {
        match self.current {
            Some(o) => Some(o.start_millis),
            None => None,
        }
    }

    fn log_start_of_request(&mut self) {
        let now = now_millis();
        self.log_start_of_request_at(now);
    }

    fn log_end_of_request(&mut self, error: Option<E>) {
        let failed = error.is_some();
        let now = now_millis();
        self.log_end_of_request_at(failed, now);
    }

    fn merge(self, other: Self) -> (r: Self) {
        let mut merged = self;
        let mut other_observations = other.observations;
        merged.observations.append(&mut other_observations);
        proof {
            assert forall|i: int| 0 <= i < merged.observations@.len() implies (
            #[trigger] merged.observations@[i]).wf() by {
                if i < self.observations@.len() {
                    assert(merged.observations@[i] == self.observations@[i]);
                } else {
                    assert(merged.observations@[i] == other.observations@[i
                        - self.observations@.len()]);
                }
            }
        }
        merged
    }
}

/// Law: merging two loggers' observation sequences adds their
/// successful-completion counts.
pub proof fn lemma_merge_completed_count(a: Seq<Observation>, b: Seq<Observation>)
    ensures
        spec_completed_count(a + b) == spec_completed_count(a) + spec_completed_count(b),
    decreases b.len(),
{
    if b.len() == 0 {
        assert(a + b =~= a);
    } else {
        lemma_merge_completed_count(a, b.drop_last());
        assert((a + b).drop_last() =~= a + b.drop_last());
        assert((a + b).last() == b.last());
    }
}

/// Law: the earliest start instant of merged observations is the smaller of
/// the two sequences' earliest start instants.
pub proof fn lemma_merge_min_start(a: Seq<Observation>, b: Seq<Observation>)
    requires
        a.len() > 0,
        b.len() > 0,
    ensures
        spec_min_start(a + b) == min(spec_min_start(a), spec_min_start(b)),
    decreases b.len(),
{
    if b.len() == 1 {
        assert((a + b).drop_last() =~= a);
        assert((a + b).last() == b.last());
        assert(spec_min_start(b) == b[0].start_millis as int);
    } else {
        lemma_merge_min_start(a, b.drop_last());
        assert((a + b).drop_last() =~= a + b.drop_last());
        assert((a + b).last() == b.last());
    }
}

/// Appending observations without successful completions cannot move the
/// latest completion instant.
proof fn lemma_max_end_append_no_completions(a: Seq<Observation>, b: Seq<Observation>)
    requires
        spec_completed_count(b) == 0,
    ensures
        spec_max_end(a + b) == spec_max_end(a),
    decreases b.len(),
{
    if b.len() == 0 {
        assert(a + b =~= a);
    } else {
        lemma_max_end_append_no_completions(a, b.drop_last());
        assert((a + b).drop_last() =~= a + b.drop_last());
        assert((a + b).last() == b.last());
    }
}

/// Law: the latest completion instant of merged observations is the larger
/// of the two sequences' latest completion instants.
pub proof fn lemma_merge_max_end(a: Seq<Observation>, b: Seq<Observation>)
    requires
        spec_completed_count(a) > 0,
        spec_completed_count(b) > 0,
    ensures
        spec_max_end(a + b) == max(spec_max_end(a), spec_max_end(b)),
    decreases b.len(),
{
    assert(b.len() > 0);
    assert((a + b).drop_last() =~= a + b.drop_last());
    assert((a + b).last() == b.last());
    lemma_merge_completed_count(a, b.drop_last());
    if b.last().is_completed() {
        if spec_completed_count(b.drop_last()) == 0 {
            lemma_max_end_append_no_completions(a, b.drop_last());
        } else {
            lemma_merge_max_end(a, b.drop_last());
        }
    } else {
        lemma_merge_max_end(a, b.drop_last());
    }
}

/// Law: a set of observations in which nothing completed successfully, or
/// whose wall-clock span is under one whole second, renders as "No results".
pub proof fn lemma_render_no_results(obs: Seq<Observation>)
    requires
        spec_completed_count(obs) == 0 || spec_max_end(obs) - spec_min_start(obs)
            < MILLIS_PER_SECOND,
    ensures
        rendered(obs) == "No results"@,
{
}

} // verus!
