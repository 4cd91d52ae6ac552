//! Job accounting for the worker pool.
//!
//! The pool itself — spawning workers, the job channel, the mutex — is
//! unverifiable plumbing and lives in the surrounding application. What is
//! verified here is the shared state those workers update under the lock:
//! the counters of queued, running and panicked jobs, the transitions each
//! pool event applies to them, and the law saying when the pool reads as
//! finished.
//!
//! The intended protocol is: `job_queued` before a job is sent, then on a
//! worker `job_starting` immediately before execution, `job_finished`
//! immediately after (whether or not the job panicked), and `job_paniced`
//! for a job whose panic was caught.

use vstd::prelude::*;

verus! {

/// The counters shared between the pool's owner and its workers. The
/// application keeps one instance behind a mutex; every method here is a
/// single transition applied under that lock.
pub struct SharedState {
    /// Jobs submitted but not yet picked up by a worker.
    pub jobs_queued: usize,
    /// Jobs currently executing on some worker.
    pub jobs_running: usize,
    /// Jobs whose panic was caught and recovered at the pool boundary.
    pub job_paniced: usize,
}

/// A trace consistent with the counters: of `queued` submissions, `started`
/// have begun and `finished` have completed, and the counters hold exactly
/// the jobs in flight. Both counters are then non-negative by construction.
pub open spec fn counters_track(
    s: SharedState,
    queued: nat,
    started: nat,
    finished: nat,
) -> bool {
    &&& finished <= started <= queued
    &&& s.jobs_queued == queued - started
    &&& s.jobs_running == started - finished
}

impl SharedState {
    /// A fresh pool has seen no jobs at all.
    pub fn new() -> (r: Self)
        ensures
            r.jobs_queued == 0,
            r.jobs_running == 0,
            r.job_paniced == 0,
    {
        Self { jobs_running: 0, jobs_queued: 0, job_paniced: 0 }
    }

    /// A job was submitted. The caller must apply this before the job can
    /// reach any worker, so that no observer ever sees more jobs start than
    /// were queued.
    pub fn job_queued(&mut self)
        requires
            old(self).jobs_queued < usize::MAX,
        ensures
            final(self).jobs_queued == old(self).jobs_queued + 1,
            final(self).jobs_running == old(self).jobs_running,
            final(self).job_paniced == old(self).job_paniced,
    {
        self.jobs_queued = self.jobs_queued + 1;
    }

    /// A worker picked a job up: it moves from queued to running.
    pub fn job_starting(&mut self)
        requires
            old(self).jobs_queued > 0,
            old(self).jobs_running < usize::MAX,
        ensures
            final(self).jobs_queued == old(self).jobs_queued - 1,
            final(self).jobs_running == old(self).jobs_running + 1,
            final(self).job_paniced == old(self).job_paniced,
    {
        self.jobs_queued = self.jobs_queued - 1;
        self.jobs_running = self.jobs_running + 1;
    }

    /// A job ended, normally or by a caught panic: it leaves the running
    /// count.
    pub fn job_finished(&mut self)
        requires
            old(self).jobs_running > 0,
        ensures
            final(self).jobs_queued == old(self).jobs_queued,
            final(self).jobs_running == old(self).jobs_running - 1,
            final(self).job_paniced == old(self).job_paniced,
    {
        self.jobs_running = self.jobs_running - 1;
    }

    /// A job's panic was caught; the worker survives and the failure is
    /// counted. This does not touch the in-flight counters: the matching
    /// `job_finished` still happens.
    pub fn job_paniced(&mut self)
        requires
            old(self).job_paniced < usize::MAX,
        ensures
            final(self).jobs_queued == old(self).jobs_queued,
            final(self).jobs_running == old(self).jobs_running,
            final(self).job_paniced == old(self).job_paniced + 1,
    {
        self.job_paniced = self.job_paniced + 1;
    }

    /// Jobs submitted but not yet picked up.
    pub fn jobs_queued(&self) -> (r: usize)
        ensures
            r == self.jobs_queued,
    {
        self.jobs_queued
    }

    /// Jobs currently executing.
    pub fn jobs_running(&self) -> (r: usize)
        ensures
            r == self.jobs_running,
    {
        self.jobs_running
    }

    /// How many job panics were caught so far.
    pub fn threads_paniced(&self) -> (r: usize)
        ensures
            r == self.job_paniced,
    {
        self.job_paniced
    }

    /// Whether any job panic was caught so far.
    pub fn has_paniced(&self) -> (r: bool)
        ensures
            r == (self.job_paniced != 0),
    {
        self.job_paniced != 0
    }

    /// A point-in-time poll: no job is queued and none is running. With
    /// concurrent submissions this is not a stable property; the law below
    /// says what one observation means for a consistent trace.
    pub fn is_finished(&self) -> (r: bool)
        ensures
            r == (self.jobs_running == 0 && self.jobs_queued == 0),
    {
        self.jobs_running == 0 && self.jobs_queued == 0
    }
}

/// The pool reads as finished exactly when every submitted job has completed:
/// while any job is still queued or running the poll stays false, and once
/// all are drained it is true.
pub proof fn lemma_finished_iff_drained(
    s: SharedState,
    queued: nat,
    started: nat,
    finished: nat,
)
    requires
        counters_track(s, queued, started, finished),
    ensures
        (s.jobs_running == 0 && s.jobs_queued == 0) <==> finished == queued,
{
}

/// Submitting a job advances a consistent trace by one queued event.
pub proof fn lemma_job_queued_tracks(
    pre: SharedState,
    post: SharedState,
    queued: nat,
    started: nat,
    finished: nat,
)
    requires
        counters_track(pre, queued, started, finished),
        post.jobs_queued == pre.jobs_queued + 1,
        post.jobs_running == pre.jobs_running,
    ensures
        counters_track(post, queued + 1, started, finished),
{
}

/// Starting a job advances a consistent trace by one started event; the
/// requirement that something is queued is exactly `started < queued`.
pub proof fn lemma_job_starting_tracks(
    pre: SharedState,
    post: SharedState,
    queued: nat,
    started: nat,
    finished: nat,
)
    requires
        counters_track(pre, queued, started, finished),
        pre.jobs_queued > 0,
        post.jobs_queued == pre.jobs_queued - 1,
        post.jobs_running == pre.jobs_running + 1,
    ensures
        counters_track(post, queued, started + 1, finished),
{
}

/// Finishing a job advances a consistent trace by one finished event.
pub proof fn lemma_job_finished_tracks(
    pre: SharedState,
    post: SharedState,
    queued: nat,
    started: nat,
    finished: nat,
)
    requires
        counters_track(pre, queued, started, finished),
        pre.jobs_running > 0,
        post.jobs_queued == pre.jobs_queued,
        post.jobs_running == pre.jobs_running - 1,
    ensures
        counters_track(post, queued, started, finished + 1),
{
}

} // verus!
