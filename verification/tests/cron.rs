use status::cron::cron_registry;
use status::cron::CronRegistry;
use status::cron::TICK_MILLIS;
use status::store::JobStatus;
use status::store::JobStore;
use status::store::Payload;

#[test]
fn schedule_of_the_service_runs_both_jobs_every_minute() {
    let registry = cron_registry();
    assert_eq!(registry.entries.len(), 2);
    assert_eq!(registry.entries[0].name, "Hello");
    assert_eq!(registry.entries[0].interval_micros, 60_000_000);
    assert_eq!(registry.entries[0].last_run, None);
    assert_eq!(registry.entries[1].name, "BulkEnqueueCheckins");
    assert_eq!(registry.entries[1].interval_micros, 60_000_000);
    assert_eq!(registry.entries[1].last_run, None);
    assert_eq!(TICK_MILLIS, 1_000);
}

#[test]
fn first_tick_enqueues_every_entry() {
    let mut registry = cron_registry();
    let mut store = JobStore::new();
    assert_eq!(registry.tick(&mut store, 1_000), 2);
    assert_eq!(store.len(), 2);
    assert_eq!(store.jobs()[0].name, "Hello");
    assert_eq!(store.jobs()[1].name, "BulkEnqueueCheckins");
    for job in store.jobs().iter() {
        assert_eq!(job.status, JobStatus::Pending);
        assert_eq!(job.payload, Payload::Empty);
        assert_eq!(job.created_at, 1_000);
    }
    assert_eq!(registry.entries[0].last_run, Some(1_000));
    assert_eq!(registry.entries[1].last_run, Some(1_000));
}

#[test]
fn entry_is_not_due_before_its_interval_has_passed() {
    let mut registry = cron_registry();
    let mut store = JobStore::new();
    registry.tick(&mut store, 0);
    assert_eq!(registry.tick(&mut store, 1_000_000), 0);
    assert_eq!(registry.tick(&mut store, 59_999_999), 0);
    assert_eq!(store.len(), 2);
    assert_eq!(registry.entries[0].last_run, Some(0));
}

#[test]
fn entry_is_due_when_its_interval_has_passed() {
    let mut registry = cron_registry();
    let mut store = JobStore::new();
    registry.tick(&mut store, 0);
    assert_eq!(registry.tick(&mut store, 60_000_000), 2);
    assert_eq!(store.len(), 4);
    assert_eq!(registry.entries[0].last_run, Some(60_000_000));
    assert_eq!(registry.tick(&mut store, 60_000_001), 0);
    assert_eq!(registry.tick(&mut store, 130_000_000), 2);
    assert_eq!(store.len(), 6);
}

#[test]
fn entries_are_judged_each_by_its_own_last_run() {
    let mut registry = CronRegistry::new();
    registry.register_job("Fast", 10);
    registry.register_job("Slow", 100);
    let mut store = JobStore::new();
    assert_eq!(registry.tick(&mut store, 0), 2);
    assert_eq!(registry.tick(&mut store, 10), 1);
    assert_eq!(store.jobs()[2].name, "Fast");
    assert_eq!(registry.entries[0].last_run, Some(10));
    assert_eq!(registry.entries[1].last_run, Some(0));
    assert_eq!(registry.tick(&mut store, 100), 2);
    assert_eq!(store.jobs()[3].name, "Fast");
    assert_eq!(store.jobs()[4].name, "Slow");
}

#[test]
fn tick_does_not_wait_for_jobs_to_end() {
    let mut registry = CronRegistry::new();
    registry.register_job("Hello", 5);
    let mut store = JobStore::new();
    registry.tick(&mut store, 0);
    store.claim_one(1);
    assert_eq!(registry.tick(&mut store, 5), 1);
    assert_eq!(store.jobs()[0].status, JobStatus::Running);
    assert_eq!(store.jobs()[1].status, JobStatus::Pending);
}

#[test]
fn clock_that_went_back_makes_no_entry_due() {
    let mut registry = CronRegistry::new();
    registry.register_job("Hello", 5);
    let mut store = JobStore::new();
    registry.tick(&mut store, 1_000);
    assert_eq!(registry.tick(&mut store, 10), 0);
    assert_eq!(registry.tick(&mut store, i64::MIN), 0);
    assert_eq!(registry.entries[0].last_run, Some(1_000));
}

#[test]
fn empty_schedule_enqueues_nothing() {
    let mut registry = CronRegistry::new();
    let mut store = JobStore::new();
    assert_eq!(registry.tick(&mut store, 7), 0);
    assert_eq!(store.len(), 0);
}

#[test]
fn entry_is_due_across_the_whole_range_of_the_clock() {
    let mut registry = CronRegistry::new();
    registry.register_job("Hello", u64::MAX);
    let mut store = JobStore::new();
    registry.tick(&mut store, i64::MIN);
    assert_eq!(registry.tick(&mut store, i64::MAX), 1);
    let mut other = CronRegistry::new();
    other.register_job("Hello", u64::MAX);
    other.tick(&mut store, i64::MIN + 1);
    assert_eq!(other.tick(&mut store, i64::MAX), 0);
}

#[test]
fn entry_that_ran_waits_until_its_interval_has_passed() {
    let mut registry = CronRegistry::new();
    registry.register_job("Hello", 7);
    let mut store = JobStore::new();
    assert_eq!(registry.tick(&mut store, 100), 1);
    for later in 100..107 {
        assert_eq!(registry.tick(&mut store, later), 0);
        assert!(!registry.entries[0].is_due(later));
    }
    assert!(registry.entries[0].is_due(107));
    assert_eq!(registry.tick(&mut store, 107), 1);
    assert_eq!(store.len(), 2);
}
