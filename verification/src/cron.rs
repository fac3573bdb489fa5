//! The cron schedule: which jobs are enqueued again and again, and when.
//!
//! The scheduler wakes on a short, fixed tick. On each tick it enqueues a
//! job for every entry whose interval has passed since the entry last ran,
//! or which has never run, and notes the time. It waits for no job: what it
//! enqueued runs whenever a worker claims it. Each entry is judged by its
//! own last run alone.

use vstd::prelude::*;
use crate::create_checkin::BulkEnqueueCheckins;
use crate::jobs::Hello;
use crate::store::JobStore;
use crate::store::JobView;
use crate::store::Payload;
use crate::store::spec_enqueue;

verus! {

/// Milliseconds between two ticks of the scheduler.
pub const TICK_MILLIS: u64 = 1_000;

/// Microseconds in a second.
pub const MICROS_PER_SECOND: u64 = 1_000_000;

/// One line of the schedule: enqueue a job of the kind `name` every
/// `interval_micros` microseconds.
#[derive(Debug)]
pub struct CronEntry {
    pub name: String,
    pub interval_micros: u64,
    /// When the entry last ran, in microseconds since the Unix epoch, once it
    /// has.
    pub last_run: Option<i64>,
}

/// A line of the schedule as plain values.
pub struct CronEntryView {
    pub name: Seq<char>,
    pub interval_micros: u64,
    pub last_run: Option<i64>,
}

impl View for CronEntry {
    type V = CronEntryView;

    open spec fn view(&self) -> CronEntryView {
        CronEntryView {
            name: self.name@,
            interval_micros: self.interval_micros,
            last_run: self.last_run,
        }
    }
}

impl CronEntryView {
    /// Whether the entry is due at `now`: it has never run, or its interval
    /// has passed since it last ran.
    pub open spec fn due(self, now: i64) -> bool {
        match self.last_run {
            None => true,
            Some(last_run) => now - last_run >= self.interval_micros,
        }
    }

    /// The entry after a tick at `now`.
    pub open spec fn ticked(self, now: i64) -> CronEntryView {
        if self.due(now) {
            CronEntryView { last_run: Some(now), ..self }
        } else {
            self
        }
    }
}

impl CronEntry {
    /// Whether the entry is due at `now`.
    pub fn is_due(&self, now: i64) -> (due: bool)
        ensures
            due == self@.due(now),
    {
        match self.last_run {
            None => true,
            Some(last_run) => now as i128 - last_run as i128 >= self.interval_micros as i128,
        }
    }
}

/// The schedule after a tick at `now`: every entry that was due has run now.
pub open spec fn spec_ticked(entries: Seq<CronEntryView>, now: i64) -> Seq<CronEntryView> {
    Seq::new(entries.len(), |i: int| entries[i].ticked(now))
}

/// The store after a tick at `now` has gone through the first `upto`
/// entries: for each that was due it holds one more pending job of the
/// entry's kind, in the order of the entries.
pub open spec fn spec_tick_jobs(entries: Seq<CronEntryView>, jobs: Seq<JobView>, now: i64, upto: int) -> Seq<
    JobView,
>
    decreases upto,
{
    if upto <= 0 {
        jobs
    } else {
        let before = spec_tick_jobs(entries, jobs, now, upto - 1);
        if entries[upto - 1].due(now) {
            spec_enqueue(before, entries[upto - 1].name, Payload::Empty, now)
        } else {
            before
        }
    }
}

/// How many of the first `upto` entries are due at `now`.
pub open spec fn count_due(entries: Seq<CronEntryView>, now: i64, upto: int) -> int
    decreases upto,
{
    if upto <= 0 {
        0
    } else {
        count_due(entries, now, upto - 1) + if entries[upto - 1].due(now) {
            1int
        } else {
            0int
        }
    }
}

/// An entry that repeats after some time is not due a second time at the
/// instant of the tick that ran it, and until its interval has passed.
pub proof fn lemma_entry_waits_after_it_ran(entry: CronEntryView, now: i64, later: i64)
    requires
        entry.due(now),
        entry.interval_micros > 0,
        now <= later < now + entry.interval_micros,
    ensures
        !entry.ticked(now).due(later),
        entry.ticked(now).ticked(later) == entry.ticked(now),
{
}

/// A tick enqueues one job for each entry that is due and nothing else: the
/// jobs that the store held stay as they were and where they were.
pub proof fn lemma_tick_adds_one_job_per_due_entry(
    entries: Seq<CronEntryView>,
    jobs: Seq<JobView>,
    now: i64,
    upto: int,
)
    requires
        0 <= upto <= entries.len(),
    ensures
        spec_tick_jobs(entries, jobs, now, upto).len() == jobs.len() + count_due(entries, now, upto),
        0 <= count_due(entries, now, upto) <= upto,
        forall|i: int|
            0 <= i < jobs.len() ==> spec_tick_jobs(entries, jobs, now, upto)[i] == #[trigger] jobs[i],
    decreases upto,
{
    if upto > 0 {
        lemma_tick_adds_one_job_per_due_entry(entries, jobs, now, upto - 1);
    }
}

/// The schedule.
#[derive(Debug)]
pub struct CronRegistry {
    pub entries: Vec<CronEntry>,
}

impl View for CronRegistry {
    type V = Seq<CronEntryView>;

    open spec fn view(&self) -> Seq<CronEntryView> {
        Seq::new(self.entries@.len(), |i: int| self.entries@[i]@)
    }
}

impl CronRegistry {
    /// A schedule without entries.
    pub fn new() -> (registry: CronRegistry)
        ensures
            registry@ == Seq::<CronEntryView>::empty(),
    {
        let registry = CronRegistry { entries: Vec::new() };
        assert(registry@ =~= Seq::<CronEntryView>::empty());
        registry
    }

    /// Adds an entry that has never run.
    pub fn register_job(&mut self, name: &str, interval_micros: u64)
        ensures
            final(self)@ == old(self)@.push(
                CronEntryView { name: name@, interval_micros, last_run: None },
            ),
    {
        self.entries.push(CronEntry { name: String::from_str(name), interval_micros, last_run: None });
        assert(self@ =~= old(self)@.push(
            CronEntryView { name: name@, interval_micros, last_run: None },
        ));
    }

    /// One tick at `now`: enqueues a job for every entry that is due, notes
    /// on each of them that it ran now, and returns how many it enqueued.
    pub fn tick(&mut self, store: &mut JobStore, now: i64) -> (enqueued: usize)
        ensures
            final(self)@ == spec_ticked(old(self)@, now),
            final(store)@ == spec_tick_jobs(old(self)@, old(store)@, now, old(self)@.len() as int),
            enqueued == count_due(old(self)@, now, old(self)@.len() as int),
    {
        let mut enqueued: usize = 0;
        let mut i: usize = 0;
        while i < self.entries.len()
            invariant
                0 <= i <= self.entries@.len(),
                self.entries@.len() == old(self).entries@.len(),
                enqueued == count_due(old(self)@, now, i as int),
                enqueued <= i,
                store@ == spec_tick_jobs(old(self)@, old(store)@, now, i as int),
                forall|j: int| 0 <= j < i ==> self@[j] == (#[trigger] old(self)@[j]).ticked(now),
                forall|j: int| i <= j < self.entries@.len() ==> self@[j] == #[trigger] old(self)@[j],
            decreases self.entries@.len() - i,
        {
            assert(self@[i as int] == old(self)@[i as int]);
            if self.entries[i].is_due(now) {
                store.enqueue(self.entries[i].name.as_str(), Payload::Empty, now);
                self.entries[i].last_run = Some(now);
                enqueued = enqueued + 1;
            }
            i = i + 1;
        }
        assert(self@ =~= spec_ticked(old(self)@, now));
        enqueued
    }
}

/// The schedule of this service: a greeting and a round of probes, each once
/// a minute.
pub fn cron_registry() -> (registry: CronRegistry)
    ensures
        registry@ == seq![
            CronEntryView { name: Hello::spec_name(), interval_micros: 60_000_000, last_run: None },
            CronEntryView {
                name: BulkEnqueueCheckins::spec_name(),
                interval_micros: 60_000_000,
                last_run: None,
            },
        ],
{
    let mut registry = CronRegistry::new();
    registry.register_job(Hello::name(), 60 * MICROS_PER_SECOND);
    registry.register_job(BulkEnqueueCheckins::name(), 60 * MICROS_PER_SECOND);
    assert(registry@ =~= seq![
        CronEntryView { name: Hello::spec_name(), interval_micros: 60_000_000, last_run: None },
        CronEntryView {
            name: BulkEnqueueCheckins::spec_name(),
            interval_micros: 60_000_000,
            last_run: None,
        },
    ]);
    registry
}

} // verus!
