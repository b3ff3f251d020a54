//! The bookkeeping of a batch while a pool of workers runs it.
//!
//! A `Dispatcher` owns the jobs. A worker claims the next job, has it
//! compressed, and reports what came of it; the dispatcher counts what is done
//! and keeps the log of failures. Running the workers, and the compression
//! itself, is the caller's part: the caller serialises the calls, and every
//! call leaves the dispatcher consistent, whatever the order of the calls.

use vstd::prelude::*;

use crate::jobs::Job;

verus! {

/// How far a job has come.
#[derive(Clone, Copy, Debug, PartialEq, Eq, Structural)]
pub enum JobState {
    /// No worker has claimed the job yet.
    Pending,
    /// A worker has claimed the job and has not reported yet.
    Running,
    /// The engine compressed the file.
    Succeeded,
    /// The engine reported a failure, which is in the error log.
    Failed,
}

/// What the compression engine reported for one job.
#[derive(Debug)]
pub enum EngineOutcome {
    Success,
    /// The failure, with the engine's diagnostic code.
    Failure(String),
}

/// One entry of the error log.
#[derive(Debug)]
pub struct Failure {
    /// The index of the failed job among the jobs of the batch.
    pub job: usize,
    /// The source path of the failed job.
    pub path: String,
    /// The engine's diagnostic code.
    pub diagnostic: String,
}

/// Why a report was not taken.
#[derive(Clone, Copy, Debug, PartialEq, Eq, Structural)]
pub enum DispatchError {
    /// The report names a job that no worker is running: the index is out of
    /// range, or the job was not claimed, or it was reported before.
    NotRunning,
}

/// Whether a job in this state counts as completed.
pub open spec fn is_done(state: JobState) -> bool {
    state is Succeeded || state is Failed
}

/// The number of completed jobs among the states.
pub open spec fn count_done(states: Seq<JobState>) -> nat
    decreases states.len(),
{
    if states.len() == 0 {
        0
    } else {
        count_done(states.drop_last()) + if is_done(states.last()) {
            1nat
        } else {
            0nat
        }
    }
}

/// The number of failed jobs among the states.
pub open spec fn count_failed(states: Seq<JobState>) -> nat
    decreases states.len(),
{
    if states.len() == 0 {
        0
    } else {
        count_failed(states.drop_last()) + if states.last() is Failed {
            1nat
        } else {
            0nat
        }
    }
}

/// The number of successful jobs among the states.
pub open spec fn count_succeeded(states: Seq<JobState>) -> nat
    decreases states.len(),
{
    if states.len() == 0 {
        0
    } else {
        count_succeeded(states.drop_last()) + if states.last() is Succeeded {
            1nat
        } else {
            0nat
        }
    }
}

/// Whether the error log has an entry for the job with the given index.
pub open spec fn is_logged(errors: Seq<Failure>, job: int) -> bool {
    exists|k: int| 0 <= k < errors.len() && (#[trigger] errors[k]).job == job
}

/// The state of a batch, as the contracts see it.
#[verifier::ext_equal]
pub ghost struct DispatchView {
    /// The jobs of the batch.
    pub jobs: Seq<Job>,
    /// The state of each job.
    pub states: Seq<JobState>,
    /// How many jobs have been claimed so far.
    pub claimed: nat,
    /// How many jobs have been completed so far.
    pub completed: nat,
    /// The status message: the source path of the job claimed last.
    pub message: Seq<char>,
    /// The error log, in the order in which the failures were reported.
    pub errors: Seq<Failure>,
}

impl DispatchView {
    /// The invariant of a batch.
    ///
    /// The number of jobs is one that a machine can hold. The jobs are claimed in their order, so the pending jobs are the ones
    /// from index `claimed` on. The counter counts the completed jobs. The
    /// error log has one entry for each failed job and no other entry, and
    /// each entry carries the source path of its job.
    pub open spec fn wf(self) -> bool {
        &&& self.jobs.len() <= usize::MAX
        &&& self.states.len() == self.jobs.len()
        &&& self.claimed <= self.jobs.len()
        &&& forall|i: int|
            0 <= i < self.states.len() ==> ((#[trigger] self.states[i]) is Pending <==> i
                >= self.claimed)
        &&& self.completed == count_done(self.states)
        &&& forall|k: int|
            0 <= k < self.errors.len() ==> {
                &&& 0 <= (#[trigger] self.errors[k]).job < self.jobs.len()
                &&& self.states[self.errors[k].job as int] is Failed
                &&& self.errors[k].path == self.jobs[self.errors[k].job as int].source
            }
        &&& forall|k: int, l: int|
            0 <= k < l < self.errors.len() ==> (#[trigger] self.errors[k]).job != (
            #[trigger] self.errors[l]).job
        &&& forall|i: int|
            0 <= i < self.states.len() && (#[trigger] self.states[i]) is Failed ==> is_logged(
                self.errors,
                i,
            )
    }

    /// The batch before any job is claimed.
    pub open spec fn initial(jobs: Seq<Job>) -> DispatchView {
        DispatchView {
            jobs,
            states: Seq::new(jobs.len(), |i: int| JobState::Pending),
            claimed: 0,
            completed: 0,
            message: Seq::empty(),
            errors: Seq::empty(),
        }
    }

    /// Whether a job is left to claim.
    pub open spec fn has_pending(self) -> bool {
        self.claimed < self.jobs.len()
    }

    /// The batch after the next job was claimed: the job runs, and its source
    /// path is the status message.
    pub open spec fn after_claim(self) -> DispatchView {
        DispatchView {
            states: self.states.update(self.claimed as int, JobState::Running),
            claimed: self.claimed + 1,
            message: self.jobs[self.claimed as int].source@,
            ..self
        }
    }

    /// Whether a worker is running the job with the given index.
    pub open spec fn is_running(self, job: int) -> bool {
        0 <= job < self.states.len() && self.states[job] is Running
    }

    /// The batch after a running job was reported: the counter goes up by
    /// one whatever the outcome, and a failure is appended to the error log.
    pub open spec fn after_report(self, job: int, outcome: EngineOutcome) -> DispatchView {
        match outcome {
            EngineOutcome::Success => DispatchView {
                states: self.states.update(job, JobState::Succeeded),
                completed: self.completed + 1,
                ..self
            },
            EngineOutcome::Failure(diagnostic) => DispatchView {
                states: self.states.update(job, JobState::Failed),
                completed: self.completed + 1,
                errors: self.errors.push(
                    Failure { job: job as usize, path: self.jobs[job].source, diagnostic },
                ),
                ..self
            },
        }
    }

    /// Whether every job of the batch is completed.
    pub open spec fn is_finished(self) -> bool {
        forall|i: int| 0 <= i < self.states.len() ==> is_done(#[trigger] self.states[i])
    }
}

/// Changing one state changes the count by what the old and the new state
/// count for.
pub proof fn lemma_count_update(states: Seq<JobState>, index: int, state: JobState)
    requires
        0 <= index < states.len(),
    ensures
        count_done(states.update(index, state)) + (if is_done(states[index]) {
            1nat
        } else {
            0nat
        }) == count_done(states) + (if is_done(state) {
            1nat
        } else {
            0nat
        }),
    decreases states.len(),
{
    let updated = states.update(index, state);
    if index == states.len() - 1 {
        assert(updated.drop_last() =~= states.drop_last());
    } else {
        assert(updated.drop_last() =~= states.drop_last().update(index, state));
        lemma_count_update(states.drop_last(), index, state);
    }
}

/// The count is at most the number of jobs, and reaches it exactly when every
/// job is completed.
pub proof fn lemma_count_bound(states: Seq<JobState>)
    ensures
        count_done(states) <= states.len(),
        count_done(states) == states.len() <==> (forall|i: int|
            0 <= i < states.len() ==> is_done(#[trigger] states[i])),
        count_done(states) == 0 <==> (forall|i: int|
            0 <= i < states.len() ==> !is_done(#[trigger] states[i])),
    decreases states.len(),
{
    if states.len() > 0 {
        let front = states.drop_last();
        lemma_count_bound(front);
        assert forall|i: int| 0 <= i < front.len() implies front[i] == states[i] by {}
        if count_done(states) == states.len() {
            assert(is_done(states.last()));
            assert forall|i: int| 0 <= i < states.len() implies is_done(#[trigger] states[i]) by {
                if i < front.len() {
                    assert(is_done(front[i]));
                }
            }
        }
        if forall|i: int| 0 <= i < states.len() ==> is_done(#[trigger] states[i]) {
            assert forall|i: int| 0 <= i < front.len() implies is_done(#[trigger] front[i]) by {
                assert(is_done(states[i]));
            }
            assert(is_done(states[states.len() - 1]));
        }
        if count_done(states) == 0 {
            assert forall|i: int| 0 <= i < states.len() implies !is_done(#[trigger] states[i]) by {
                if i < front.len() {
                    assert(!is_done(front[i]));
                }
            }
        }
        if forall|i: int| 0 <= i < states.len() ==> !is_done(#[trigger] states[i]) {
            assert forall|i: int| 0 <= i < front.len() implies !is_done(#[trigger] front[i]) by {
                assert(!is_done(states[i]));
            }
            assert(!is_done(states[states.len() - 1]));
        }
    }
}

/// A batch is consistent before any job is claimed.
pub proof fn lemma_initial_wf(jobs: Seq<Job>)
    requires
        jobs.len() <= usize::MAX,
    ensures
        DispatchView::initial(jobs).wf(),
        !DispatchView::initial(jobs).is_finished() || jobs.len() == 0,
{
    let view = DispatchView::initial(jobs);
    lemma_count_bound(view.states);
    if jobs.len() > 0 {
        assert(!is_done(view.states[0]));
    }
}

/// Claiming the next job keeps the batch consistent, and changes neither the
/// counter nor the error log.
pub proof fn lemma_claim_keeps_wf(view: DispatchView)
    requires
        view.wf(),
        view.has_pending(),
    ensures
        view.after_claim().wf(),
        view.after_claim().completed == view.completed,
        view.after_claim().errors == view.errors,
{
    let next = view.after_claim();
    let id = view.claimed as int;
    assert(view.states[id] is Pending);
    lemma_count_update(view.states, id, JobState::Running);
    assert forall|k: int| 0 <= k < next.errors.len() implies {
        &&& 0 <= (#[trigger] next.errors[k]).job < next.jobs.len()
        &&& next.states[next.errors[k].job as int] is Failed
        &&& next.errors[k].path == next.jobs[next.errors[k].job as int].source
    } by {
        assert(view.states[view.errors[k].job as int] is Failed);
    }
    assert forall|i: int|
        0 <= i < next.states.len() && (#[trigger] next.states[i]) is Failed implies is_logged(
        next.errors,
        i,
    ) by {
        assert(view.states[i] is Failed);
    }
}

/// Reporting a running job keeps the batch consistent and raises the counter
/// by exactly one, whatever the outcome. The error log grows by one entry on
/// a failure, and not at all on a success.
pub proof fn lemma_report_keeps_wf(view: DispatchView, job: int, outcome: EngineOutcome)
    requires
        view.wf(),
        view.is_running(job),
    ensures
        view.after_report(job, outcome).wf(),
        view.after_report(job, outcome).completed == view.completed + 1,
        view.after_report(job, outcome).completed <= view.jobs.len(),
        outcome is Success ==> view.after_report(job, outcome).errors == view.errors,
        outcome is Failure ==> view.after_report(job, outcome).errors.len() == view.errors.len()
            + 1,
{
    let next = view.after_report(job, outcome);
    lemma_count_update(view.states, job, next.states[job]);
    lemma_count_bound(next.states);
    assert forall|k: int| 0 <= k < view.errors.len() implies (#[trigger] view.errors[k]).job
        != job by {
        assert(view.states[view.errors[k].job as int] is Failed);
    }
    assert forall|k: int| 0 <= k < next.errors.len() implies {
        &&& 0 <= (#[trigger] next.errors[k]).job < next.jobs.len()
        &&& next.states[next.errors[k].job as int] is Failed
        &&& next.errors[k].path == next.jobs[next.errors[k].job as int].source
    } by {
        if k < view.errors.len() {
            assert(view.errors[k].job != job);
            assert(next.errors[k] == view.errors[k]);
        }
    }
    assert forall|k: int, l: int| 0 <= k < l < next.errors.len() implies (
    #[trigger] next.errors[k]).job != (#[trigger] next.errors[l]).job by {
        assert(next.errors[k] == view.errors[k]);
        if l < view.errors.len() {
            assert(next.errors[l] == view.errors[l]);
        } else {
            assert(view.errors[k].job != job);
        }
    }
    assert forall|i: int|
        0 <= i < next.states.len() && (#[trigger] next.states[i]) is Failed implies is_logged(
        next.errors,
        i,
    ) by {
        if i == job {
            assert(outcome is Failure);
            assert(next.errors[view.errors.len() as int].job == job);
        } else {
            assert(view.states[i] is Failed);
            let k = choose|k: int| 0 <= k < view.errors.len() && (#[trigger] view.errors[k]).job == i;
            assert(next.errors[k] == view.errors[k]);
        }
    }
}

/// Whether a batch has moved on from `before` to `later` without taking anything
/// back: the jobs are the same, neither counter has fallen, and the error log
/// has grown at its end only.
pub open spec fn has_advanced(before: DispatchView, later: DispatchView) -> bool {
    &&& later.jobs == before.jobs
    &&& later.claimed >= before.claimed
    &&& later.completed >= before.completed
    &&& before.errors.is_prefix_of(later.errors)
}

/// Neither a claim nor a report takes anything back, and a claim never hands
/// out a job that was claimed before.
pub proof fn lemma_steps_only_advance(view: DispatchView, job: int, outcome: EngineOutcome)
    requires
        view.wf(),
    ensures
        view.has_pending() ==> has_advanced(view, view.after_claim()),
        view.has_pending() ==> view.after_claim().claimed == view.claimed + 1,
        view.is_running(job) ==> has_advanced(view, view.after_report(job, outcome)),
        view.is_running(job) ==> view.after_report(job, outcome).claimed == view.claimed,
{
    if view.is_running(job) {
        let later = view.after_report(job, outcome);
        assert(view.errors.is_prefix_of(later.errors)) by {
            assert(later.errors.subrange(0, view.errors.len() as int) =~= view.errors);
        }
    }
    if view.has_pending() {
        let later = view.after_claim();
        assert(view.errors.is_prefix_of(later.errors)) by {
            assert(later.errors.subrange(0, view.errors.len() as int) =~= view.errors);
        }
    }
}

/// In a consistent batch no job is counted twice and none is lost: the
/// counter never passes the number of jobs, and it equals that number exactly
/// when every job is completed. A job with an entry in the error log is a
/// failed job, so no job is both successful and logged; and once the batch is
/// finished, every job is either successful or logged, with one entry. The
/// log has as many entries as jobs have failed.
pub proof fn lemma_every_job_accounted_for(view: DispatchView)
    requires
        view.wf(),
    ensures
        view.completed <= view.jobs.len(),
        view.completed == view.jobs.len() <==> view.is_finished(),
        forall|i: int|
            0 <= i < view.jobs.len() ==> !((#[trigger] view.states[i]) is Succeeded && is_logged(
                view.errors,
                i,
            )),
        view.is_finished() ==> forall|i: int|
            0 <= i < view.jobs.len() ==> ((#[trigger] view.states[i]) is Succeeded || is_logged(
                view.errors,
                i,
            )),
        forall|k: int, l: int|
            0 <= k < view.errors.len() && 0 <= l < view.errors.len() && (
            #[trigger] view.errors[k]).job == (#[trigger] view.errors[l]).job ==> k == l,
        view.errors.len() == count_failed(view.states),
        view.errors.len() <= view.completed,
{
    lemma_count_bound(view.states);
    assert forall|i: int| 0 <= i < view.jobs.len() implies !((
    #[trigger] view.states[i]) is Succeeded && is_logged(view.errors, i)) by {
        if is_logged(view.errors, i) {
            let k = choose|k: int| 0 <= k < view.errors.len() && (#[trigger] view.errors[k]).job == i;
            assert(view.states[view.errors[k].job as int] is Failed);
        }
    }
    assert forall|k: int, l: int|
        0 <= k < view.errors.len() && 0 <= l < view.errors.len() && (
        #[trigger] view.errors[k]).job == (#[trigger] view.errors[l]).job implies k == l by {
        if k < l {
            assert(view.errors[k].job != view.errors[l].job);
        }
        if l < k {
            assert(view.errors[l].job != view.errors[k].job);
        }
    }
    lemma_log_counts_the_failures(view);
}

/// Changing one state changes the count of failed jobs by what the old and
/// the new state count for.
pub proof fn lemma_failed_update(states: Seq<JobState>, index: int, state: JobState)
    requires
        0 <= index < states.len(),
    ensures
        count_failed(states.update(index, state)) + (if states[index] is Failed {
            1nat
        } else {
            0nat
        }) == count_failed(states) + (if state is Failed {
            1nat
        } else {
            0nat
        }),
    decreases states.len(),
{
    let updated = states.update(index, state);
    if index == states.len() - 1 {
        assert(updated.drop_last() =~= states.drop_last());
    } else {
        assert(updated.drop_last() =~= states.drop_last().update(index, state));
        lemma_failed_update(states.drop_last(), index, state);
    }
}

/// The completed jobs are the failed and the successful ones.
pub proof fn lemma_done_is_failed_or_succeeded(states: Seq<JobState>)
    ensures
        count_done(states) == count_failed(states) + count_succeeded(states),
    decreases states.len(),
{
    if states.len() > 0 {
        lemma_done_is_failed_or_succeeded(states.drop_last());
    }
}

/// A log that holds each failed job once, and no other job, is as long as the
/// count of failed jobs.
proof fn lemma_log_length(states: Seq<JobState>, errors: Seq<Failure>)
    requires
        forall|k: int|
            0 <= k < errors.len() ==> 0 <= (#[trigger] errors[k]).job < states.len()
                && states[errors[k].job as int] is Failed,
        forall|k: int, l: int|
            0 <= k < l < errors.len() ==> (#[trigger] errors[k]).job != (#[trigger] errors[l]).job,
        forall|i: int|
            0 <= i < states.len() && (#[trigger] states[i]) is Failed ==> is_logged(errors, i),
    ensures
        errors.len() == count_failed(states),
    decreases errors.len(),
{
    if errors.len() == 0 {
        lemma_no_failure_without_entry(states, errors);
    } else {
        let last = errors.last();
        let job = last.job as int;
        let rest = errors.drop_last();
        let cleared = states.update(job, JobState::Running);
        assert(errors[errors.len() - 1].job == last.job);
        assert forall|k: int| 0 <= k < rest.len() implies 0 <= (#[trigger] rest[k]).job
            < cleared.len() && cleared[rest[k].job as int] is Failed by {
            assert(rest[k] == errors[k]);
            assert(errors[k].job != errors[errors.len() - 1].job);
        }
        assert forall|k: int, l: int| 0 <= k < l < rest.len() implies (#[trigger] rest[k]).job != (
        #[trigger] rest[l]).job by {
            assert(rest[k] == errors[k]);
            assert(rest[l] == errors[l]);
        }
        assert forall|i: int| 0 <= i < cleared.len() && (#[trigger] cleared[i]) is Failed implies is_logged(
            rest,
            i,
        ) by {
            assert(i != job);
            assert(states[i] is Failed);
            let k = choose|k: int| 0 <= k < errors.len() && (#[trigger] errors[k]).job == i;
            assert(k < rest.len());
            assert(rest[k] == errors[k]);
        }
        lemma_log_length(cleared, rest);
        lemma_failed_update(states, job, JobState::Running);
    }
}

/// Where every failed job has an entry and the log is empty, no job has
/// failed.
proof fn lemma_no_failure_without_entry(states: Seq<JobState>, errors: Seq<Failure>)
    requires
        errors.len() == 0,
        forall|i: int|
            0 <= i < states.len() && (#[trigger] states[i]) is Failed ==> is_logged(errors, i),
    ensures
        count_failed(states) == 0,
    decreases states.len(),
{
    if states.len() > 0 {
        let front = states.drop_last();
        assert(!(states[states.len() - 1] is Failed));
        assert forall|i: int| 0 <= i < front.len() && (#[trigger] front[i]) is Failed implies is_logged(
            errors,
            i,
        ) by {
            assert(states[i] is Failed);
        }
        lemma_no_failure_without_entry(front, errors);
    }
}

/// The error log is exactly as long as the number of failed jobs, and the
/// counter is the number of failed jobs and of successful jobs together: in a
/// finished batch of which a given number of jobs failed, the log has that
/// many entries and every other job is successful.
pub proof fn lemma_log_counts_the_failures(view: DispatchView)
    requires
        view.wf(),
    ensures
        view.errors.len() == count_failed(view.states),
        view.completed == count_failed(view.states) + count_succeeded(view.states),
        view.is_finished() ==> count_succeeded(view.states) + view.errors.len()
            == view.jobs.len(),
{
    lemma_log_length(view.states, view.errors);
    lemma_done_is_failed_or_succeeded(view.states);
    lemma_count_bound(view.states);
}

/// The jobs of a batch with their progress and their error log.
#[derive(Debug)]
pub struct Dispatcher {
    jobs: Vec<Job>,
    states: Vec<JobState>,
    next: usize,
    completed: usize,
    message: String,
    errors: Vec<Failure>,
}

impl View for Dispatcher {
    type V = DispatchView;

    closed spec fn view(&self) -> DispatchView {
        DispatchView {
            jobs: self.jobs@,
            states: self.states@,
            claimed: self.next as nat,
            completed: self.completed as nat,
            message: self.message@,
            errors: self.errors@,
        }
    }
}

impl Dispatcher {
    /// The invariant that `new` establishes and every method keeps.
    pub open spec fn wf(&self) -> bool {
        self@.wf()
    }

    /// Takes the jobs of a batch. Nothing is claimed and nothing is done.
    pub fn new(jobs: Vec<Job>) -> (dispatcher: Dispatcher)
        ensures
            dispatcher.wf(),
            dispatcher@ == DispatchView::initial(jobs@),
    {
        let mut states: Vec<JobState> = Vec::new();
        let mut i: usize = 0;
        while i < jobs.len()
            invariant
                i <= jobs.len(),
                states@.len() == i,
                forall|k: int| 0 <= k < i ==> states@[k] == JobState::Pending,
            decreases jobs.len() - i,
        {
            states.push(JobState::Pending);
            i += 1;
        }
        proof {
            lemma_initial_wf(jobs@);
            assert(states@ =~= DispatchView::initial(jobs@).states);
        }
        Dispatcher { jobs, states, next: 0, completed: 0, message: String::new(), errors: Vec::new() }
    }

    /// The number of jobs of the batch.
    pub fn total(&self) -> (total: usize)
        ensures
            total == self@.jobs.len(),
    {
        self.jobs.len()
    }

    /// The number of jobs completed so far.
    pub fn completed(&self) -> (completed: usize)
        ensures
            completed == self@.completed,
    {
        self.completed
    }

    /// The status message: the source path of the job claimed last.
    pub fn message(&self) -> (message: &str)
        ensures
            message@ == self@.message,
    {
        self.message.as_str()
    }

    /// The error log so far.
    pub fn errors(&self) -> (errors: &Vec<Failure>)
        ensures
            errors@ == self@.errors,
    {
        &self.errors
    }

    /// The state of the job with the given index, if there is such a job.
    pub fn state(&self, job: usize) -> (state: Option<JobState>)
        ensures
            state == if job < self@.states.len() {
                Some(self@.states[job as int])
            } else {
                None
            },
    {
        if job < self.states.len() {
            Some(self.states[job])
        } else {
            None
        }
    }

    /// Whether the counter has reached the number of jobs, which is to say
    /// that every job of the batch is completed.
    pub fn is_finished(&self) -> (finished: bool)
        ensures
            finished == (self@.completed == self@.jobs.len()),
            self.wf() ==> finished == self@.is_finished(),
    {
        proof {
            if self.wf() {
                lemma_every_job_accounted_for(self@);
            }
        }
        self.completed == self.jobs.len()
    }

    /// Claims the next job for a worker: the job starts to run and its source
    /// path becomes the status message. Returns the job with its index, or
    /// `None` once every job has been claimed.
    pub fn claim(&mut self) -> (claimed: Option<(usize, Job)>)
        requires
            old(self).wf(),
        ensures
            final(self).wf(),
            match claimed {
                Some((id, job)) => {
                    &&& old(self)@.has_pending()
                    &&& id == old(self)@.claimed
                    &&& job == old(self)@.jobs[id as int]
                    &&& final(self)@ == old(self)@.after_claim()
                },
                None => !old(self)@.has_pending() && final(self)@ == old(self)@,
            },
    {
        if self.next >= self.jobs.len() {
            return None;
        }
        let id = self.next;
        proof {
            lemma_claim_keeps_wf(self@);
        }
        let job = self.jobs[id].duplicate();
        self.states.set(id, JobState::Running);
        self.next = id + 1;
        self.message = job.source.clone();
        assert(self@ =~= old(self)@.after_claim());
        Some((id, job))
    }

    /// Takes a worker's report on a job: the job is completed, the counter
    /// goes up by one, and a failure is appended to the error log. A report
    /// on a job that is not running is refused and changes nothing.
    pub fn complete(&mut self, job: usize, outcome: EngineOutcome) -> (result: Result<
        (),
        DispatchError,
    >)
        requires
            old(self).wf(),
        ensures
            final(self).wf(),
            match result {
                Ok(()) => {
                    &&& old(self)@.is_running(job as int)
                    &&& final(self)@ == old(self)@.after_report(job as int, outcome)
                },
                Err(error) => {
                    &&& error == DispatchError::NotRunning
                    &&& !old(self)@.is_running(job as int)
                    &&& final(self)@ == old(self)@
                },
            },
    {
        if job >= self.states.len() {
            return Err(DispatchError::NotRunning);
        }
        match self.states[job] {
            JobState::Running => {},
            _ => {
                return Err(DispatchError::NotRunning);
            },
        }
        proof {
            lemma_report_keeps_wf(self@, job as int, outcome);
        }
        match outcome {
            EngineOutcome::Success => {
                self.states.set(job, JobState::Succeeded);
            },
            EngineOutcome::Failure(diagnostic) => {
                self.states.set(job, JobState::Failed);
                let path = self.jobs[job].source.clone();
                self.errors.push(Failure { job, path, diagnostic });
            },
        }
        self.completed = self.completed + 1;
        assert(self@ =~= old(self)@.after_report(job as int, outcome));
        Ok(())
    }

    /// Gives up the dispatcher for its error log.
    pub fn into_errors(self) -> (errors: Vec<Failure>)
        ensures
            errors@ == self@.errors,
    {
        self.errors
    }
}

} // verus!
