//! The job store: queued work and its life from pending to a terminal
//! status.
//!
//! A job is enqueued as pending, claimed by one worker, which makes it
//! running, and then either completed or failed. Nothing leads back: a job
//! that was claimed once is never handed out again, and a failed job is not
//! retried. The store is a plain value; whoever shares it among workers
//! guards it with a lock, so that each operation happens as a whole.

use vstd::prelude::*;

verus! {

/// Where a job stands in its life.
#[derive(Clone, Copy, Debug, PartialEq, Eq, Structural)]
pub enum JobStatus {
    Pending,
    Running,
    Completed,
    Failed,
}

impl JobStatus {
    /// The name under which the status is stored.
    pub open spec fn name(self) -> Seq<char> {
        match self {
            JobStatus::Pending => "pending"@,
            JobStatus::Running => "running"@,
            JobStatus::Completed => "completed"@,
            JobStatus::Failed => "failed"@,
        }
    }

    /// The name under which the status is stored.
    pub fn as_str(&self) -> (name: &'static str)
        ensures
            name@ == self.name(),
    {
        match self {
            JobStatus::Pending => "pending",
            JobStatus::Running => "running",
            JobStatus::Completed => "completed",
            JobStatus::Failed => "failed",
        }
    }

    /// Whether a job with the status `self` may later have the status
    /// `later`: a pending job may become anything, a running job may
    /// complete or fail, and a job that has completed or failed stays as it
    /// is.
    pub open spec fn leads_to(self, later: JobStatus) -> bool {
        ||| self == later
        ||| self == JobStatus::Pending
        ||| self == JobStatus::Running && later == JobStatus::Completed
        ||| self == JobStatus::Running && later == JobStatus::Failed
    }
}

/// What a job carries for its handler.
#[derive(Clone, Copy, Debug, PartialEq, Eq, Structural)]
pub enum Payload {
    /// Nothing.
    Empty,
    /// The page to probe.
    Page { page_id: u128 },
}

/// One unit of queued work. Times are microseconds since the Unix epoch.
#[derive(Debug)]
pub struct Job {
    pub job_id: u64,
    /// The kind of job, by which its handler is found.
    pub name: String,
    pub payload: Payload,
    pub status: JobStatus,
    pub created_at: i64,
    /// When a worker claimed the job, once one has.
    pub claimed_at: Option<i64>,
    /// Why the job failed, once it has.
    pub error: Option<String>,
}

/// A job as plain values.
pub struct JobView {
    pub job_id: u64,
    pub name: Seq<char>,
    pub payload: Payload,
    pub status: JobStatus,
    pub created_at: i64,
    pub claimed_at: Option<i64>,
    pub error: Option<Seq<char>>,
}

impl View for Job {
    type V = JobView;

    open spec fn view(&self) -> JobView {
        JobView {
            job_id: self.job_id,
            name: self.name@,
            payload: self.payload,
            status: self.status,
            created_at: self.created_at,
            claimed_at: self.claimed_at,
            error: match self.error {
                Some(error) => Some(error@),
                None => None,
            },
        }
    }
}

impl JobView {
    /// Whether the fields agree with the status: a job has a claim time once
    /// it has left the pending status, and an error once it has failed.
    pub open spec fn consistent(self) -> bool {
        &&& self.status == JobStatus::Pending <==> self.claimed_at is None
        &&& self.status == JobStatus::Failed <==> self.error is Some
    }

    /// The job once a worker has claimed it at `now`.
    pub open spec fn claimed(self, now: i64) -> JobView {
        JobView { status: JobStatus::Running, claimed_at: Some(now), ..self }
    }

    /// The job once it has completed.
    pub open spec fn completed(self) -> JobView {
        JobView { status: JobStatus::Completed, ..self }
    }

    /// The job once it has failed with `error`.
    pub open spec fn failed(self, error: Seq<char>) -> JobView {
        JobView { status: JobStatus::Failed, error: Some(error), ..self }
    }
}

/// A new job: pending, unclaimed, without an error.
pub open spec fn new_job(job_id: u64, name: Seq<char>, payload: Payload, now: i64) -> JobView {
    JobView {
        job_id,
        name,
        payload,
        status: JobStatus::Pending,
        created_at: now,
        claimed_at: None,
        error: None,
    }
}

/// Whether `jobs` is what a store may hold: each job is numbered by its
/// place, and each is consistent.
pub open spec fn well_formed(jobs: Seq<JobView>) -> bool {
    forall|i: int|
        0 <= i < jobs.len() ==> (#[trigger] jobs[i]).job_id == i && jobs[i].consistent()
}

/// The store after a job of the kind `name` was enqueued at `now`.
pub open spec fn spec_enqueue(jobs: Seq<JobView>, name: Seq<char>, payload: Payload, now: i64) -> Seq<
    JobView,
> {
    jobs.push(new_job(jobs.len() as u64, name, payload, now))
}

/// The place of the first pending job at or after `from`, or the number of
/// jobs where none is pending.
pub open spec fn next_pending(jobs: Seq<JobView>, from: int) -> int
    decreases jobs.len() - from,
{
    if from >= jobs.len() {
        jobs.len() as int
    } else if jobs[from].status == JobStatus::Pending {
        from
    } else {
        next_pending(jobs, from + 1)
    }
}

/// The job that a claim hands out: the pending job that was enqueued first.
pub open spec fn spec_claimable(jobs: Seq<JobView>) -> Option<int> {
    if next_pending(jobs, 0) < jobs.len() {
        Some(next_pending(jobs, 0))
    } else {
        None
    }
}

/// The store after a claim at `now`.
pub open spec fn spec_claim(jobs: Seq<JobView>, now: i64) -> Seq<JobView> {
    match spec_claimable(jobs) {
        Some(i) => jobs.update(i, jobs[i].claimed(now)),
        None => jobs,
    }
}

/// Whether the job `job_id` is in the store and running.
pub open spec fn is_running(jobs: Seq<JobView>, job_id: u64) -> bool {
    job_id < jobs.len() && jobs[job_id as int].status == JobStatus::Running
}

/// The store after the job `job_id` was reported as completed.
pub open spec fn spec_complete(jobs: Seq<JobView>, job_id: u64) -> Seq<JobView> {
    if is_running(jobs, job_id) {
        jobs.update(job_id as int, jobs[job_id as int].completed())
    } else {
        jobs
    }
}

/// The store after the job `job_id` was reported as failed with `error`.
pub open spec fn spec_fail(jobs: Seq<JobView>, job_id: u64, error: Seq<char>) -> Seq<JobView> {
    if is_running(jobs, job_id) {
        jobs.update(job_id as int, jobs[job_id as int].failed(error))
    } else {
        jobs
    }
}

/// What [`next_pending`] finds lies within the store, no job between `from`
/// and it is pending, and the job at it is.
pub proof fn lemma_next_pending(jobs: Seq<JobView>, from: int)
    requires
        0 <= from <= jobs.len(),
    ensures
        from <= next_pending(jobs, from) <= jobs.len(),
        forall|i: int|
            from <= i < next_pending(jobs, from) ==> (#[trigger] jobs[i]).status
                != JobStatus::Pending,
        next_pending(jobs, from) < jobs.len() ==> jobs[next_pending(jobs, from)].status
            == JobStatus::Pending,
    decreases jobs.len() - from,
{
    if from < jobs.len() && jobs[from].status != JobStatus::Pending {
        lemma_next_pending(jobs, from + 1);
    }
}

/// Why the store refused a report on a job.
#[derive(Clone, Copy, Debug, PartialEq, Eq, Structural)]
pub enum StoreError {
    /// The store holds no job with that number.
    NoSuchJob,
    /// The job is not running: no worker holds it, or it has ended already.
    NotRunning,
}

/// The jobs `jobs` as plain values.
pub open spec fn views(jobs: Seq<Job>) -> Seq<JobView> {
    Seq::new(jobs.len(), |i: int| jobs[i]@)
}

/// The queue of jobs, oldest first. What it holds is well formed at all
/// times.
#[derive(Debug)]
pub struct JobStore {
    jobs: Vec<Job>,
}

impl View for JobStore {
    type V = Seq<JobView>;

    open spec fn view(&self) -> Seq<JobView> {
        self.as_seq()
    }
}

impl JobStore {
    /// The jobs of the store as plain values.
    pub closed spec fn as_seq(self) -> Seq<JobView> {
        views(self.jobs@)
    }

    #[verifier::type_invariant]
    spec fn holds_what_a_store_may(self) -> bool {
        well_formed(self.as_seq())
    }

    /// A store without jobs.
    pub fn new() -> (store: JobStore)
        ensures
            store@ == Seq::<JobView>::empty(),
    {
        let store = JobStore { jobs: Vec::new() };
        assert(store@ =~= Seq::<JobView>::empty());
        store
    }

    /// The store that holds `jobs`, as they were read back from where they
    /// are kept; `None` where they are not what a store may hold.
    pub fn restore(jobs: Vec<Job>) -> (store: Option<JobStore>)
        ensures
            store is Some <==> well_formed(views(jobs@)),
            store matches Some(restored) ==> restored@ == views(jobs@),
    {
        let mut i: usize = 0;
        let ghost view = views(jobs@);
        while i < jobs.len()
            invariant
                0 <= i <= jobs@.len(),
                view == views(jobs@),
                forall|j: int| 0 <= j < i ==> (#[trigger] view[j]).job_id == j && view[j].consistent(),
            decreases jobs@.len() - i,
        {
            let job = &jobs[i];
            assert(view[i as int] == job@);
            let pending = job.status == JobStatus::Pending;
            let failed = job.status == JobStatus::Failed;
            if job.job_id != i as u64 || pending != job.claimed_at.is_none() || failed
                != job.error.is_some() {
                return None;
            }
            i = i + 1;
        }
        Some(JobStore { jobs })
    }

    /// The jobs of the store, oldest first.
    pub fn jobs(&self) -> (jobs: &Vec<Job>)
        ensures
            views(jobs@) == self@,
            well_formed(self@),
    {
        proof {
            use_type_invariant(self);
        }
        &self.jobs
    }

    /// How many jobs the store holds, whatever their status.
    pub fn len(&self) -> (len: usize)
        ensures
            len == self@.len(),
    {
        self.jobs.len()
    }

    /// Adds a pending job of the kind `name` and returns its number.
    pub fn enqueue(&mut self, name: &str, payload: Payload, now: i64) -> (job_id: u64)
        ensures
            final(self)@ == spec_enqueue(old(self)@, name@, payload, now),
            job_id == old(self)@.len(),
    {
        proof {
            use_type_invariant(&*self);
        }
        let mut jobs: Vec<Job> = Vec::new();
        std::mem::swap(&mut jobs, &mut self.jobs);
        let job_id: u64 = jobs.len() as u64;
        jobs.push(
            Job {
                job_id,
                name: String::from_str(name),
                payload,
                status: JobStatus::Pending,
                created_at: now,
                claimed_at: None,
                error: None,
            },
        );
        assert(views(jobs@) =~= spec_enqueue(old(self)@, name@, payload, now));
        self.jobs = jobs;
        job_id
    }

    /// Hands out the pending job that was enqueued first, and makes it
    /// running; `None` where no job is pending.
    pub fn claim_one(&mut self, now: i64) -> (claimed: Option<Job>)
        ensures
            final(self)@ == spec_claim(old(self)@, now),
            match claimed {
                Some(job) => spec_claimable(old(self)@) == Some(job.job_id as int) && job@ == old(
                    self,
                )@[job.job_id as int].claimed(now),
                None => spec_claimable(old(self)@) is None,
            },
    {
        proof {
            use_type_invariant(&*self);
        }
        let mut i: usize = 0;
        while i < self.jobs.len() && self.jobs[i].status != JobStatus::Pending
            invariant
                0 <= i <= self.jobs@.len(),
                next_pending(self@, 0) == next_pending(self@, i as int),
            decreases self.jobs@.len() - i,
        {
            i = i + 1;
        }
        proof {
            lemma_next_pending(self@, i as int);
        }
        if i == self.jobs.len() {
            return None;
        }
        let mut jobs: Vec<Job> = Vec::new();
        std::mem::swap(&mut jobs, &mut self.jobs);
        jobs[i].status = JobStatus::Running;
        jobs[i].claimed_at = Some(now);
        assert(views(jobs@) =~= spec_claim(old(self)@, now));
        let claimed = Job {
            job_id: jobs[i].job_id,
            name: jobs[i].name.clone(),
            payload: jobs[i].payload,
            status: jobs[i].status,
            created_at: jobs[i].created_at,
            claimed_at: jobs[i].claimed_at,
            error: None,
        };
        self.jobs = jobs;
        Some(claimed)
    }

    /// Records that the running job `job_id` has completed.
    pub fn complete(&mut self, job_id: u64) -> (done: Result<(), StoreError>)
        ensures
            final(self)@ == spec_complete(old(self)@, job_id),
            done == Self::spec_report(old(self)@, job_id),
    {
        proof {
            use_type_invariant(&*self);
        }
        if job_id >= self.jobs.len() as u64 {
            return Err(StoreError::NoSuchJob);
        }
        let i: usize = job_id as usize;
        if self.jobs[i].status != JobStatus::Running {
            return Err(StoreError::NotRunning);
        }
        let mut jobs: Vec<Job> = Vec::new();
        std::mem::swap(&mut jobs, &mut self.jobs);
        jobs[i].status = JobStatus::Completed;
        assert(views(jobs@) =~= spec_complete(old(self)@, job_id));
        self.jobs = jobs;
        Ok(())
    }

    /// Records that the running job `job_id` has failed with `error`. The job
    /// is not tried again.
    pub fn fail(&mut self, job_id: u64, error: String) -> (done: Result<(), StoreError>)
        ensures
            final(self)@ == spec_fail(old(self)@, job_id, error@),
            done == Self::spec_report(old(self)@, job_id),
    {
        proof {
            use_type_invariant(&*self);
        }
        if job_id >= self.jobs.len() as u64 {
            return Err(StoreError::NoSuchJob);
        }
        let i: usize = job_id as usize;
        if self.jobs[i].status != JobStatus::Running {
            return Err(StoreError::NotRunning);
        }
        let mut jobs: Vec<Job> = Vec::new();
        std::mem::swap(&mut jobs, &mut self.jobs);
        jobs[i].status = JobStatus::Failed;
        jobs[i].error = Some(error);
        assert(views(jobs@) =~= spec_fail(old(self)@, job_id, error@));
        self.jobs = jobs;
        Ok(())
    }

    /// What a report on the job `job_id` returns: the store takes it for a
    /// running job only.
    pub open spec fn spec_report(jobs: Seq<JobView>, job_id: u64) -> Result<(), StoreError> {
        if job_id >= jobs.len() {
            Err(StoreError::NoSuchJob)
        } else if jobs[job_id as int].status != JobStatus::Running {
            Err(StoreError::NotRunning)
        } else {
            Ok(())
        }
    }
}

/// One operation on the store.
pub enum StoreOp {
    Enqueue { name: Seq<char>, payload: Payload, now: i64 },
    Claim { now: i64 },
    Complete { job_id: u64 },
    Fail { job_id: u64, error: Seq<char> },
}

/// The store after one operation.
pub open spec fn apply(jobs: Seq<JobView>, op: StoreOp) -> Seq<JobView> {
    match op {
        StoreOp::Enqueue { name, payload, now } => spec_enqueue(jobs, name, payload, now),
        StoreOp::Claim { now } => spec_claim(jobs, now),
        StoreOp::Complete { job_id } => spec_complete(jobs, job_id),
        StoreOp::Fail { job_id, error } => spec_fail(jobs, job_id, error),
    }
}

/// The store after the operations `ops`, one after the other.
pub open spec fn apply_all(jobs: Seq<JobView>, ops: Seq<StoreOp>) -> Seq<JobView>
    decreases ops.len(),
{
    if ops.len() == 0 {
        jobs
    } else {
        apply(apply_all(jobs, ops.drop_last()), ops.last())
    }
}

/// One operation keeps the store well formed, removes no job, and moves the
/// status of no job backwards.
pub proof fn lemma_apply_moves_forward(jobs: Seq<JobView>, op: StoreOp)
    requires
        well_formed(jobs),
        jobs.len() < u64::MAX,
    ensures
        well_formed(apply(jobs, op)),
        jobs.len() <= apply(jobs, op).len() <= jobs.len() + 1,
        forall|i: int|
            0 <= i < jobs.len() ==> (#[trigger] jobs[i]).status.leads_to(apply(jobs, op)[i].status),
{
    lemma_next_pending(jobs, 0);
}

/// Whatever operations follow one another, the store stays well formed, no
/// job leaves it, and the status of no job moves backwards: a job that is
/// running, completed or failed is never pending again.
pub proof fn lemma_statuses_move_forward(jobs: Seq<JobView>, ops: Seq<StoreOp>)
    requires
        well_formed(jobs),
        jobs.len() + ops.len() < u64::MAX,
    ensures
        well_formed(apply_all(jobs, ops)),
        jobs.len() <= apply_all(jobs, ops).len() <= jobs.len() + ops.len(),
        forall|i: int|
            0 <= i < jobs.len() ==> (#[trigger] jobs[i]).status.leads_to(
                apply_all(jobs, ops)[i].status,
            ),
    decreases ops.len(),
{
    if ops.len() > 0 {
        let before = apply_all(jobs, ops.drop_last());
        lemma_statuses_move_forward(jobs, ops.drop_last());
        lemma_apply_moves_forward(before, ops.last());
        let after = apply(before, ops.last());
        assert forall|i: int| 0 <= i < jobs.len() implies (#[trigger] jobs[i]).status.leads_to(
            after[i].status,
        ) by {
            assert(jobs[i].status.leads_to(before[i].status));
            assert(before[i].status.leads_to(after[i].status));
        }
    }
}

/// A job that one claim has handed out is handed out by no later claim,
/// whatever operations the workers and the schedulers make in between.
pub proof fn lemma_claimed_at_most_once(jobs: Seq<JobView>, now: i64, ops: Seq<StoreOp>)
    requires
        well_formed(jobs),
        jobs.len() + ops.len() < u64::MAX,
        spec_claimable(jobs) is Some,
    ensures
        spec_claimable(apply_all(spec_claim(jobs, now), ops)) != spec_claimable(jobs),
{
    let first = spec_claimable(jobs)->0;
    let claimed = spec_claim(jobs, now);
    lemma_next_pending(jobs, 0);
    lemma_apply_moves_forward(jobs, StoreOp::Claim { now });
    assert(claimed[first].status == JobStatus::Running);
    lemma_statuses_move_forward(claimed, ops);
    let later = apply_all(claimed, ops);
    assert(claimed[first].status.leads_to(later[first].status));
    lemma_next_pending(later, 0);
}

} // verus!
