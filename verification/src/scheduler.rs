//! The bounded scheduler: the decision core of the concurrent job runner.
//!
//! The scheduler is a state machine over an ordered job list. A driver loop
//! (which owns the actual workers, permits and channels) asks it which job to
//! dispatch next and hands back each completed execution's outcome; the
//! scheduler decides admission so that at most `max_concurrency` executions
//! are ever in flight, dispatches every job exactly once in input order, and
//! collects exactly one outcome per dispatched job.

use vstd::prelude::*;
use crate::job::Job;
use crate::executor::Outcome;

verus! {

/// The scheduling state of one run: which jobs exist, how many have been
/// dispatched and completed, and the outcomes collected so far.
pub struct Scheduler {
    pub jobs: Vec<Job>,
    pub max_concurrency: usize,
    pub dispatched: usize,
    pub completed: usize,
    pub outcomes: Vec<Outcome>,
}

impl Scheduler {
    /// How many executions are in flight: dispatched but not yet completed.
    pub open spec fn in_flight(self) -> int {
        self.dispatched - self.completed
    }

    /// The scheduler's invariant: the concurrency bound is positive, no job
    /// is dispatched twice or completed before dispatch, at most
    /// `max_concurrency` executions are in flight, and exactly one outcome
    /// has been collected per completed execution.
    pub open spec fn wf(self) -> bool {
        &&& self.max_concurrency >= 1
        &&& self.completed <= self.dispatched <= self.jobs@.len()
        &&& self.in_flight() <= self.max_concurrency
        &&& self.outcomes@.len() == self.completed
    }

    /// A run is finished when every job has been dispatched and every
    /// dispatched execution has produced its outcome.
    pub open spec fn done(self) -> bool {
        self.dispatched == self.jobs@.len() && self.completed == self.dispatched
    }

    /// Starts a run over `jobs` with a positive concurrency bound: nothing
    /// dispatched, nothing completed, no outcomes.
    pub fn new(jobs: Vec<Job>, max_concurrency: usize) -> (s: Scheduler)
        requires
            max_concurrency >= 1,
        ensures
            s.wf(),
            s.jobs == jobs,
            s.max_concurrency == max_concurrency,
            s.dispatched == 0,
            s.completed == 0,
            s.outcomes@ == Seq::<Outcome>::empty(),
    {
        let s = Scheduler { jobs, max_concurrency, dispatched: 0, completed: 0, outcomes: Vec::new() };
        proof {
            assert(s.outcomes@ =~= Seq::<Outcome>::empty());
        }
        s
    }

    /// Whether another job may start now: a job is still queued and a
    /// permit is free under the concurrency bound.
    pub fn can_dispatch(&self) -> (b: bool)
        requires
            self.wf(),
        ensures
            b == (self.dispatched < self.jobs@.len() && self.in_flight() < self.max_concurrency),
    {
        self.dispatched < self.jobs.len() && self.dispatched - self.completed < self.max_concurrency
    }

    /// Admits the next queued job: returns it and counts its execution as in
    /// flight. Jobs are dispatched exactly once each, in input order, and
    /// never beyond the concurrency bound.
    pub fn dispatch(&mut self) -> (job: Job)
        requires
            old(self).wf(),
            old(self).dispatched < old(self).jobs@.len(),
            old(self).in_flight() < old(self).max_concurrency,
        ensures
            final(self).wf(),
            job == old(self).jobs@[old(self).dispatched as int],
            final(self).dispatched == old(self).dispatched + 1,
            final(self).jobs == old(self).jobs,
            final(self).max_concurrency == old(self).max_concurrency,
            final(self).completed == old(self).completed,
            final(self).outcomes == old(self).outcomes,
            final(self).in_flight() == old(self).in_flight() + 1,
    {
        let queued = self.jobs.len();
        assert(self.dispatched < queued);
        let job = self.jobs[self.dispatched].clone();
        self.dispatched = self.dispatched + 1;
        job
    }

    /// Records the outcome of one in-flight execution: its permit is
    /// released and the outcome is appended to the collection, so outcomes
    /// arrive in completion order and none is ever dropped.
    pub fn complete(&mut self, outcome: Outcome)
        requires
            old(self).wf(),
            old(self).in_flight() > 0,
        ensures
            final(self).wf(),
            final(self).completed == old(self).completed + 1,
            final(self).outcomes@ == old(self).outcomes@.push(outcome),
            final(self).jobs == old(self).jobs,
            final(self).max_concurrency == old(self).max_concurrency,
            final(self).dispatched == old(self).dispatched,
            final(self).in_flight() == old(self).in_flight() - 1,
    {
        self.outcomes.push(outcome);
        self.completed = self.completed + 1;
    }

    /// Whether the run is finished: every job dispatched, every execution
    /// completed.
    pub fn is_finished(&self) -> (b: bool)
        ensures
            b == self.done(),
    {
        self.dispatched == self.jobs.len() && self.completed == self.dispatched
    }

    /// How many executions are in flight right now.
    pub fn in_flight_count(&self) -> (n: usize)
        requires
            self.wf(),
        ensures
            n == self.in_flight(),
    {
        self.dispatched - self.completed
    }

    /// Law: at no point are more than `max_concurrency` executions in
    /// flight.
    pub proof fn lemma_in_flight_bounded(self)
        requires
            self.wf(),
        ensures
            0 <= self.in_flight() <= self.max_concurrency,
    {
    }

    /// Law: no job is silently dropped — once a run is finished, the number
    /// of collected outcomes equals the number of jobs, and at every moment
    /// it equals the number of completed executions.
    pub proof fn lemma_no_job_dropped(self)
        requires
            self.wf(),
        ensures
            self.outcomes@.len() == self.completed,
            self.done() ==> self.outcomes@.len() == self.jobs@.len(),
    {
    }
}

} // verus!
