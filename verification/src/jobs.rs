//! The registry of job kinds: which handler a job is for.

use vstd::prelude::*;
use crate::create_checkin::BulkEnqueueCheckins;
use crate::create_checkin::CreateCheckin;
use crate::store::Job;
use crate::store::JobView;
use crate::store::Payload;

verus! {

/// The job that says hello in the log.
#[derive(Clone, Copy, Debug, PartialEq, Eq, Structural)]
pub struct Hello;

impl Hello {
    /// The kind under which the job is enqueued.
    pub open spec fn spec_name() -> Seq<char> {
        "Hello"@
    }

    /// The kind under which the job is enqueued.
    pub fn name() -> (name: &'static str)
        ensures
            name@ == Self::spec_name(),
    {
        "Hello"
    }

    /// What the job writes to the log.
    pub fn greeting(&self) -> (text: &'static str)
        ensures
            text@ == "Hello, world!"@,
    {
        "Hello, world!"
    }
}

/// A job with its payload read: what a worker is to run.
#[derive(Clone, Copy, Debug, PartialEq, Eq, Structural)]
pub enum Task {
    Hello(Hello),
    CreateCheckin(CreateCheckin),
    BulkEnqueueCheckins(BulkEnqueueCheckins),
}

/// Why a job cannot be run at all. Such a job fails for good.
#[derive(Clone, Copy, Debug, PartialEq, Eq, Structural)]
pub enum DispatchError {
    /// No handler is registered for the kind of the job.
    UnknownJobType,
    /// The payload is not what the handler of that kind takes.
    BadPayload,
}

impl DispatchError {
    /// The error as it is recorded on a job of the kind `name`.
    pub open spec fn spec_message(self, name: Seq<char>) -> Seq<char> {
        match self {
            DispatchError::UnknownJobType => "Unknown job type: "@ + name,
            DispatchError::BadPayload => "Bad payload for job type: "@ + name,
        }
    }

    /// The error as it is recorded on a job of the kind `name`.
    pub fn message(&self, name: &str) -> (text: String)
        ensures
            text@ == self.spec_message(name@),
    {
        let mut text = match self {
            DispatchError::UnknownJobType => String::from_str("Unknown job type: "),
            DispatchError::BadPayload => String::from_str("Bad payload for job type: "),
        };
        text.append(name);
        text
    }
}

/// The registry of the job kinds that this service runs.
#[derive(Clone, Copy, Debug, PartialEq, Eq, Structural)]
pub struct Jobs;

impl Jobs {
    /// What is to run for `job`: the handler registered for its kind, with
    /// the payload that this handler takes.
    pub open spec fn spec_run_job(job: JobView) -> Result<Task, DispatchError> {
        if job.name == Hello::spec_name() {
            match job.payload {
                Payload::Empty => Ok(Task::Hello(Hello)),
                _ => Err(DispatchError::BadPayload),
            }
        } else if job.name == CreateCheckin::spec_name() {
            match job.payload {
                Payload::Page { page_id } => Ok(Task::CreateCheckin(CreateCheckin { page_id })),
                _ => Err(DispatchError::BadPayload),
            }
        } else if job.name == BulkEnqueueCheckins::spec_name() {
            match job.payload {
                Payload::Empty => Ok(Task::BulkEnqueueCheckins(BulkEnqueueCheckins)),
                _ => Err(DispatchError::BadPayload),
            }
        } else {
            Err(DispatchError::UnknownJobType)
        }
    }

    /// Finds what is to run for `job`.
    pub fn run_job(&self, job: &Job) -> (task: Result<Task, DispatchError>)
        ensures
            task == Self::spec_run_job(job@),
    {
        if job.name == String::from_str(Hello::name()) {
            match job.payload {
                Payload::Empty => Ok(Task::Hello(Hello)),
                _ => Err(DispatchError::BadPayload),
            }
        } else if job.name == String::from_str(CreateCheckin::name()) {
            match job.payload {
                Payload::Page { page_id } => Ok(Task::CreateCheckin(CreateCheckin { page_id })),
                _ => Err(DispatchError::BadPayload),
            }
        } else if job.name == String::from_str(BulkEnqueueCheckins::name()) {
            match job.payload {
                Payload::Empty => Ok(Task::BulkEnqueueCheckins(BulkEnqueueCheckins)),
                _ => Err(DispatchError::BadPayload),
            }
        } else {
            Err(DispatchError::UnknownJobType)
        }
    }
}

/// The three kinds have three different names, so that each registered kind
/// with its own payload is found.
pub proof fn lemma_registered_kinds_are_found(page_id: u128, job: JobView)
    ensures
        job.name == Hello::spec_name() && job.payload == Payload::Empty ==> Jobs::spec_run_job(job)
            == Ok::<Task, DispatchError>(Task::Hello(Hello)),
        job.name == CreateCheckin::spec_name() && job.payload == (Payload::Page { page_id })
            ==> Jobs::spec_run_job(job) == Ok::<Task, DispatchError>(
            Task::CreateCheckin(CreateCheckin { page_id }),
        ),
        job.name == BulkEnqueueCheckins::spec_name() && job.payload == Payload::Empty
            ==> Jobs::spec_run_job(job) == Ok::<Task, DispatchError>(
            Task::BulkEnqueueCheckins(BulkEnqueueCheckins),
        ),
{
    reveal_strlit("Hello");
    reveal_strlit("CreateCheckin");
    reveal_strlit("BulkEnqueueCheckins");
    assert("Hello"@.len() == 5);
    assert("CreateCheckin"@.len() == 13);
    assert("BulkEnqueueCheckins"@.len() == 19);
}

} // verus!
