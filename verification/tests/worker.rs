use status::create_checkin::BulkEnqueueCheckins;
use status::create_checkin::CreateCheckin;
use status::jobs::DispatchError;
use status::jobs::Hello;
use status::jobs::Jobs;
use status::jobs::Task;
use status::store::Job;
use status::store::JobStatus;
use status::store::JobStore;
use status::store::Payload;
use status::store::StoreError;
use status::worker::Worker;
use status::worker::WorkerStep;

fn job(name: &str, payload: Payload) -> Job {
    Job {
        job_id: 0,
        name: name.to_string(),
        payload,
        status: JobStatus::Running,
        created_at: 0,
        claimed_at: Some(1),
        error: None,
    }
}

#[test]
fn registry_finds_each_kind() {
    assert_eq!(Jobs.run_job(&job("Hello", Payload::Empty)), Ok(Task::Hello(Hello)));
    assert_eq!(
        Jobs.run_job(&job("CreateCheckin", Payload::Page { page_id: 8 })),
        Ok(Task::CreateCheckin(CreateCheckin { page_id: 8 }))
    );
    assert_eq!(
        Jobs.run_job(&job("BulkEnqueueCheckins", Payload::Empty)),
        Ok(Task::BulkEnqueueCheckins(BulkEnqueueCheckins))
    );
}

#[test]
fn registry_names_are_those_of_the_jobs() {
    assert_eq!(Hello::name(), "Hello");
    assert_eq!(CreateCheckin::name(), "CreateCheckin");
    assert_eq!(BulkEnqueueCheckins::name(), "BulkEnqueueCheckins");
    assert_eq!(Hello.greeting(), "Hello, world!");
}

#[test]
fn registry_refuses_an_unknown_kind() {
    assert_eq!(Jobs.run_job(&job("Goodbye", Payload::Empty)), Err(DispatchError::UnknownJobType));
    assert_eq!(Jobs.run_job(&job("hello", Payload::Empty)), Err(DispatchError::UnknownJobType));
    assert_eq!(Jobs.run_job(&job("", Payload::Empty)), Err(DispatchError::UnknownJobType));
}

#[test]
fn registry_refuses_a_payload_of_the_wrong_shape() {
    assert_eq!(Jobs.run_job(&job("CreateCheckin", Payload::Empty)), Err(DispatchError::BadPayload));
    assert_eq!(
        Jobs.run_job(&job("Hello", Payload::Page { page_id: 1 })),
        Err(DispatchError::BadPayload)
    );
    assert_eq!(
        Jobs.run_job(&job("BulkEnqueueCheckins", Payload::Page { page_id: 1 })),
        Err(DispatchError::BadPayload)
    );
}

#[test]
fn dispatch_error_names_the_kind() {
    assert_eq!(DispatchError::UnknownJobType.message("Goodbye"), "Unknown job type: Goodbye");
    assert_eq!(
        DispatchError::BadPayload.message("CreateCheckin"),
        "Bad payload for job type: CreateCheckin"
    );
}

#[test]
fn worker_sleeps_when_nothing_is_pending() {
    let worker = Worker { poll_interval_millis: 250 };
    let mut store = JobStore::new();
    assert_eq!(worker.next(&Jobs, &mut store, 1), WorkerStep::Idle { sleep_millis: 250 });
    assert_eq!(store.len(), 0);
}

#[test]
fn worker_runs_the_job_it_claimed() {
    let worker = Worker { poll_interval_millis: 250 };
    let mut store = JobStore::new();
    store.enqueue("CreateCheckin", Payload::Page { page_id: 5 }, 1);
    let step = worker.next(&Jobs, &mut store, 2);
    assert_eq!(
        step,
        WorkerStep::Run { job_id: 0, task: Task::CreateCheckin(CreateCheckin { page_id: 5 }) }
    );
    assert_eq!(store.jobs()[0].status, JobStatus::Running);
    assert_eq!(worker.finish(&mut store, 0, Ok(())), Ok(()));
    assert_eq!(store.jobs()[0].status, JobStatus::Completed);
}

#[test]
fn worker_fails_a_job_of_unknown_kind_for_good_and_goes_on() {
    let worker = Worker { poll_interval_millis: 250 };
    let mut store = JobStore::new();
    store.enqueue("Goodbye", Payload::Empty, 1);
    store.enqueue("Hello", Payload::Empty, 1);
    let step = worker.next(&Jobs, &mut store, 2);
    assert_eq!(step, WorkerStep::Rejected { job_id: 0, error: DispatchError::UnknownJobType });
    assert_eq!(store.jobs()[0].status, JobStatus::Failed);
    assert_eq!(store.jobs()[0].error, Some("Unknown job type: Goodbye".to_string()));
    let step = worker.next(&Jobs, &mut store, 3);
    assert_eq!(step, WorkerStep::Run { job_id: 1, task: Task::Hello(Hello) });
    assert_eq!(worker.next(&Jobs, &mut store, 4), WorkerStep::Idle { sleep_millis: 250 });
    assert_eq!(store.jobs()[0].status, JobStatus::Failed);
}

#[test]
fn handler_error_fails_only_its_own_job() {
    let worker = Worker { poll_interval_millis: 250 };
    let mut store = JobStore::new();
    store.enqueue("Hello", Payload::Empty, 1);
    store.enqueue("Hello", Payload::Empty, 1);
    worker.next(&Jobs, &mut store, 2);
    worker.next(&Jobs, &mut store, 2);
    assert_eq!(worker.finish(&mut store, 0, Err("store is down".to_string())), Ok(()));
    assert_eq!(store.jobs()[0].status, JobStatus::Failed);
    assert_eq!(store.jobs()[0].error, Some("store is down".to_string()));
    assert_eq!(store.jobs()[1].status, JobStatus::Running);
    assert_eq!(worker.finish(&mut store, 1, Ok(())), Ok(()));
    assert_eq!(store.jobs()[1].status, JobStatus::Completed);
}

#[test]
fn finish_of_a_job_that_is_not_running_is_refused() {
    let worker = Worker { poll_interval_millis: 250 };
    let mut store = JobStore::new();
    store.enqueue("Hello", Payload::Empty, 1);
    assert_eq!(worker.finish(&mut store, 0, Ok(())), Err(StoreError::NotRunning));
    assert_eq!(worker.finish(&mut store, 9, Err("x".to_string())), Err(StoreError::NoSuchJob));
}

#[test]
fn two_workers_never_run_the_same_job() {
    let first = Worker { poll_interval_millis: 10 };
    let second = Worker { poll_interval_millis: 20 };
    let mut store = JobStore::new();
    for _ in 0..9 {
        store.enqueue("Hello", Payload::Empty, 1);
    }
    let mut ran = Vec::new();
    loop {
        let a = first.next(&Jobs, &mut store, 2);
        let b = second.next(&Jobs, &mut store, 2);
        for step in [a, b] {
            if let WorkerStep::Run { job_id, .. } = step {
                assert!(!ran.contains(&job_id));
                ran.push(job_id);
            }
        }
        if a == (WorkerStep::Idle { sleep_millis: 10 }) && b == (WorkerStep::Idle { sleep_millis: 20 }) {
            break;
        }
    }
    assert_eq!(ran.len(), 9);
}
