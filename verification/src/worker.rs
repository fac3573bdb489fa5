//! What a worker does between two jobs.
//!
//! A worker claims a job, finds its handler, has it run, and reports how it
//! ended. Whoever drives the worker does the waiting and the running; the
//! decisions are here.

use vstd::prelude::*;
use crate::jobs::DispatchError;
use crate::jobs::Jobs;
use crate::jobs::Task;
use crate::store::JobStatus;
use crate::store::JobStore;
use crate::store::JobView;
use crate::store::StoreError;
use crate::store::is_running;
use crate::store::spec_claim;
use crate::store::spec_claimable;
use crate::store::spec_complete;
use crate::store::spec_fail;
use crate::store::lemma_next_pending;

verus! {

/// How many workers the pool runs. As each worker runs one job at a time,
/// this is also the most probes that are under way at once.
pub const WORKER_COUNT: usize = 4;

/// What a worker does next.
#[derive(Clone, Copy, Debug, PartialEq, Eq, Structural)]
pub enum WorkerStep {
    /// No job is pending: wait before asking again.
    Idle { sleep_millis: u64 },
    /// Run the task of the job that was claimed, then report how it ended.
    Run { job_id: u64, task: Task },
    /// The job that was claimed cannot be run and has failed for good: go on
    /// to the next.
    Rejected { job_id: u64, error: DispatchError },
}

/// One worker of the pool. Workers share nothing but the store.
#[derive(Clone, Copy, Debug, PartialEq, Eq, Structural)]
pub struct Worker {
    /// How long the worker waits when it found no pending job.
    pub poll_interval_millis: u64,
}

impl Worker {
    /// What the worker does next when it finds the store holding `jobs` at
    /// `now`.
    pub open spec fn spec_next(self, jobs: Seq<JobView>, now: i64) -> WorkerStep {
        match spec_claimable(jobs) {
            None => WorkerStep::Idle { sleep_millis: self.poll_interval_millis },
            Some(i) => match Jobs::spec_run_job(jobs[i].claimed(now)) {
                Ok(task) => WorkerStep::Run { job_id: i as u64, task },
                Err(error) => WorkerStep::Rejected { job_id: i as u64, error },
            },
        }
    }

    /// The store after that step.
    pub open spec fn spec_after_next(self, jobs: Seq<JobView>, now: i64) -> Seq<JobView> {
        match self.spec_next(jobs, now) {
            WorkerStep::Rejected { job_id, error } => spec_fail(
                spec_claim(jobs, now),
                job_id,
                error.spec_message(jobs[job_id as int].name),
            ),
            _ => spec_claim(jobs, now),
        }
    }

    /// Claims the next job and finds what is to run for it. A job of a kind
    /// that the registry does not know fails at once and for good.
    pub fn next(&self, registry: &Jobs, store: &mut JobStore, now: i64) -> (step: WorkerStep)
        ensures
            step == self.spec_next(old(store)@, now),
            final(store)@ == self.spec_after_next(old(store)@, now),
    {
        match store.claim_one(now) {
            None => WorkerStep::Idle { sleep_millis: self.poll_interval_millis },
            Some(job) => {
                proof {
                    lemma_next_pending(old(store)@, 0);
                }
                match registry.run_job(&job) {
                    Ok(task) => WorkerStep::Run { job_id: job.job_id, task },
                    Err(error) => {
                        let reported = store.fail(job.job_id, error.message(job.name.as_str()));
                        assert(reported is Ok);
                        WorkerStep::Rejected { job_id: job.job_id, error }
                    },
                }
            },
        }
    }

    /// The store after the handler of the job `job_id` has ended with
    /// `result`.
    pub open spec fn spec_after_finish(jobs: Seq<JobView>, job_id: u64, result: Result<(), Seq<char>>) -> Seq<
        JobView,
    > {
        match result {
            Ok(_) => spec_complete(jobs, job_id),
            Err(error) => spec_fail(jobs, job_id, error),
        }
    }

    /// Reports how the handler of the job `job_id` ended: the job completes,
    /// or fails with the handler's error. The error goes no further than the
    /// job.
    pub fn finish(&self, store: &mut JobStore, job_id: u64, result: Result<(), String>) -> (done: Result<
        (),
        StoreError,
    >)
        ensures
            final(store)@ == Self::spec_after_finish(
                old(store)@,
                job_id,
                match result {
                    Ok(_) => Ok(()),
                    Err(error) => Err(error@),
                },
            ),
            done == JobStore::spec_report(old(store)@, job_id),
    {
        match result {
            Ok(_) => store.complete(job_id),
            Err(error) => store.fail(job_id, error),
        }
    }
}

/// However the handler of a running job ended, the report ends the job: it
/// is completed or failed afterwards, and every other job is as it was.
pub proof fn lemma_finish_ends_the_job(jobs: Seq<JobView>, job_id: u64, result: Result<(), Seq<char>>)
    requires
        is_running(jobs, job_id),
    ensures
        Worker::spec_after_finish(jobs, job_id, result).len() == jobs.len(),
        Worker::spec_after_finish(jobs, job_id, result)[job_id as int].status == (match result {
            Ok(_) => JobStatus::Completed,
            Err(_) => JobStatus::Failed,
        }),
        forall|i: int|
            0 <= i < jobs.len() && i != job_id ==> Worker::spec_after_finish(jobs, job_id, result)[i]
                == #[trigger] jobs[i],
{
}

} // verus!
