//! Probing a page, and fanning out one probe per page.
//!
//! A probe is an HTTP GET against `https://` followed by the site's domain
//! and the page's path. That no response arrived is an observation like any
//! other: it is recorded as a checkin with the outcome `error`, and the job
//! that probed completes. The job fails only where the page cannot be found
//! or the checkin cannot be stored.

use vstd::prelude::*;
use crate::checkin::Checkin;
use crate::checkin::Outcome;
use crate::store::JobStore;
use crate::store::JobView;
use crate::store::Payload;
use crate::store::new_job;

verus! {

/// Seconds after which a probe gives up waiting for the response.
pub const PROBE_TIMEOUT_SECS: u64 = 30;

/// What came back from the GET.
#[derive(Clone, Copy, Debug, PartialEq, Eq, Structural)]
pub enum ProbeResponse {
    /// A response with this status code.
    Status(u16),
    /// No response: the connection was refused, the name did not resolve,
    /// or the time ran out.
    TransportError,
}

/// What a probe observed, before the store gives it an identifier and a
/// creation time.
#[derive(Clone, Copy, Debug, PartialEq, Eq, Structural)]
pub struct Observation {
    pub page_id: u128,
    pub outcome: Outcome,
    pub status_code: Option<i32>,
    pub duration_nanos: Option<i64>,
}

/// The outcome of a response: a success for a 2xx status, a failure for any
/// other status, an error where none arrived.
pub open spec fn spec_classify(response: ProbeResponse) -> Outcome {
    match response {
        ProbeResponse::TransportError => Outcome::Error,
        ProbeResponse::Status(code) => if 200 <= code < 300 {
            Outcome::Success
        } else {
            Outcome::Failure
        },
    }
}

/// What a probe of the page `page_id` observed when `response` came back
/// after `elapsed_nanos`. The time is recorded only where a response arrived.
pub open spec fn spec_observe(page_id: u128, response: ProbeResponse, elapsed_nanos: i64) -> Observation {
    Observation {
        page_id,
        outcome: spec_classify(response),
        status_code: match response {
            ProbeResponse::Status(code) => Some(code as i32),
            ProbeResponse::TransportError => None,
        },
        duration_nanos: match response {
            ProbeResponse::Status(_) => Some(elapsed_nanos),
            ProbeResponse::TransportError => None,
        },
    }
}

/// The address that a probe requests.
pub open spec fn spec_target_url(domain: Seq<char>, path: Seq<char>) -> Seq<char> {
    "https://"@ + domain + path
}

/// Computes [`spec_classify`].
pub fn classify(response: ProbeResponse) -> (outcome: Outcome)
    ensures
        outcome == spec_classify(response),
{
    match response {
        ProbeResponse::TransportError => Outcome::Error,
        ProbeResponse::Status(code) => if 200 <= code && code < 300 {
            Outcome::Success
        } else {
            Outcome::Failure
        },
    }
}

/// The address that a probe of the page at `path` of the site `domain`
/// requests.
pub fn target_url(domain: &str, path: &str) -> (url: String)
    ensures
        url@ == spec_target_url(domain@, path@),
{
    let mut url = String::from_str("https://");
    url.append(domain);
    url.append(path);
    url
}

impl Observation {
    /// The checkin that records the observation under the identifier
    /// `checkin_id`, created at `created_at`.
    pub open spec fn spec_checkin(self, checkin_id: u128, created_at: i64) -> Checkin {
        Checkin {
            checkin_id,
            page_id: self.page_id,
            outcome: self.outcome,
            status_code: self.status_code,
            duration_nanos: self.duration_nanos,
            created_at,
        }
    }

    /// The checkin that records the observation.
    pub fn checkin(&self, checkin_id: u128, created_at: i64) -> (checkin: Checkin)
        ensures
            checkin == self.spec_checkin(checkin_id, created_at),
    {
        Checkin {
            checkin_id,
            page_id: self.page_id,
            outcome: self.outcome,
            status_code: self.status_code,
            duration_nanos: self.duration_nanos,
            created_at,
        }
    }
}

/// What happened since the last step of a probe.
#[derive(Debug)]
pub enum ProbeEvent {
    /// The job was handed to its handler.
    Started,
    /// The page was found.
    PageFound { domain: String, path: String },
    /// The page could not be read from the store.
    PageMissing { error: String },
    /// The GET ended, `elapsed_nanos` after it began.
    Responded { response: ProbeResponse, elapsed_nanos: i64 },
    /// The checkin was stored.
    Stored,
    /// The checkin could not be stored.
    StoreFailed { error: String },
}

/// What a probe does next.
#[derive(Debug)]
pub enum ProbeAction {
    /// Read the page's path and its site's domain.
    FindPage { page_id: u128 },
    /// Request `url` and wait at most `timeout_secs` for the response.
    Get { url: String, timeout_secs: u64 },
    /// Store the observation as a checkin.
    Store { observation: Observation },
    /// End the job, as completed or with the error that made it fail.
    Finish { result: Result<(), String> },
}

/// A probe event as plain values.
pub enum ProbeEventView {
    Started,
    PageFound { domain: Seq<char>, path: Seq<char> },
    PageMissing { error: Seq<char> },
    Responded { response: ProbeResponse, elapsed_nanos: i64 },
    Stored,
    StoreFailed { error: Seq<char> },
}

/// A probe action as plain values.
pub enum ProbeActionView {
    FindPage { page_id: u128 },
    Get { url: Seq<char>, timeout_secs: u64 },
    Store { observation: Observation },
    Finish { result: Result<(), Seq<char>> },
}

impl View for ProbeEvent {
    type V = ProbeEventView;

    open spec fn view(&self) -> ProbeEventView {
        match self {
            ProbeEvent::Started => ProbeEventView::Started,
            ProbeEvent::PageFound { domain, path } => ProbeEventView::PageFound {
                domain: domain@,
                path: path@,
            },
            ProbeEvent::PageMissing { error } => ProbeEventView::PageMissing { error: error@ },
            ProbeEvent::Responded { response, elapsed_nanos } => ProbeEventView::Responded {
                response: *response,
                elapsed_nanos: *elapsed_nanos,
            },
            ProbeEvent::Stored => ProbeEventView::Stored,
            ProbeEvent::StoreFailed { error } => ProbeEventView::StoreFailed { error: error@ },
        }
    }
}

impl View for ProbeAction {
    type V = ProbeActionView;

    open spec fn view(&self) -> ProbeActionView {
        match self {
            ProbeAction::FindPage { page_id } => ProbeActionView::FindPage { page_id: *page_id },
            ProbeAction::Get { url, timeout_secs } => ProbeActionView::Get {
                url: url@,
                timeout_secs: *timeout_secs,
            },
            ProbeAction::Store { observation } => ProbeActionView::Store {
                observation: *observation,
            },
            ProbeAction::Finish { result } => ProbeActionView::Finish {
                result: match result {
                    Ok(_) => Ok(()),
                    Err(error) => Err(error@),
                },
            },
        }
    }
}

/// The job that probes one page and records what it observed.
#[derive(Clone, Copy, Debug, PartialEq, Eq, Structural)]
pub struct CreateCheckin {
    pub page_id: u128,
}

impl CreateCheckin {
    /// The kind under which the job is enqueued.
    pub open spec fn spec_name() -> Seq<char> {
        "CreateCheckin"@
    }

    /// The kind under which the job is enqueued.
    pub fn name() -> (name: &'static str)
        ensures
            name@ == Self::spec_name(),
    {
        "CreateCheckin"
    }

    /// What the probe does after `event`.
    pub open spec fn spec_step(self, event: ProbeEventView) -> ProbeActionView {
        match event {
            ProbeEventView::Started => ProbeActionView::FindPage { page_id: self.page_id },
            ProbeEventView::PageFound { domain, path } => ProbeActionView::Get {
                url: spec_target_url(domain, path),
                timeout_secs: 30,
            },
            ProbeEventView::PageMissing { error } => ProbeActionView::Finish { result: Err(error) },
            ProbeEventView::Responded { response, elapsed_nanos } => ProbeActionView::Store {
                observation: spec_observe(self.page_id, response, elapsed_nanos),
            },
            ProbeEventView::Stored => ProbeActionView::Finish { result: Ok(()) },
            ProbeEventView::StoreFailed { error } => ProbeActionView::Finish { result: Err(error) },
        }
    }

    /// What the probe observed when `response` came back after
    /// `elapsed_nanos`. The checkin that records it is well formed.
    pub fn observe(&self, response: ProbeResponse, elapsed_nanos: i64) -> (observation: Observation)
        requires
            elapsed_nanos >= 0,
        ensures
            observation == spec_observe(self.page_id, response, elapsed_nanos),
            forall|checkin_id: u128, created_at: i64|
                (#[trigger] observation.spec_checkin(checkin_id, created_at)).well_formed(),
    {
        let observation = match response {
            ProbeResponse::Status(code) => Observation {
                page_id: self.page_id,
                outcome: classify(response),
                status_code: Some(code as i32),
                duration_nanos: Some(elapsed_nanos),
            },
            ProbeResponse::TransportError => Observation {
                page_id: self.page_id,
                outcome: Outcome::Error,
                status_code: None,
                duration_nanos: None,
            },
        };
        observation
    }

    /// What the probe does after `event`: it finds the page, requests it,
    /// stores what it observed, and ends.
    pub fn step(&self, event: ProbeEvent) -> (action: ProbeAction)
        requires
            event matches ProbeEvent::Responded { elapsed_nanos, .. } ==> elapsed_nanos >= 0,
        ensures
            action@ == self.spec_step(event@),
    {
        match event {
            ProbeEvent::Started => ProbeAction::FindPage { page_id: self.page_id },
            ProbeEvent::PageFound { domain, path } => ProbeAction::Get {
                url: target_url(domain.as_str(), path.as_str()),
                timeout_secs: PROBE_TIMEOUT_SECS,
            },
            ProbeEvent::PageMissing { error } => ProbeAction::Finish { result: Err(error) },
            ProbeEvent::Responded { response, elapsed_nanos } => ProbeAction::Store {
                observation: self.observe(response, elapsed_nanos),
            },
            ProbeEvent::Stored => ProbeAction::Finish { result: Ok(()) },
            ProbeEvent::StoreFailed { error } => ProbeAction::Finish { result: Err(error) },
        }
    }
}

/// Whatever came back from the GET, the probe goes on to store a checkin,
/// and once that is stored the job completes: a response with a bad status
/// and a missing response are observations, not failures of the job.
pub proof fn lemma_probe_completes_whatever_came_back(
    job: CreateCheckin,
    response: ProbeResponse,
    elapsed_nanos: i64,
)
    ensures
        job.spec_step(ProbeEventView::Responded { response, elapsed_nanos }) is Store,
        job.spec_step(ProbeEventView::Stored) == (ProbeActionView::Finish { result: Ok(()) }),
{
}

/// The job that enqueues one probe for every page.
#[derive(Clone, Copy, Debug, PartialEq, Eq, Structural)]
pub struct BulkEnqueueCheckins;

impl BulkEnqueueCheckins {
    /// The kind under which the job is enqueued.
    pub open spec fn spec_name() -> Seq<char> {
        "BulkEnqueueCheckins"@
    }

    /// The kind under which the job is enqueued.
    pub fn name() -> (name: &'static str)
        ensures
            name@ == Self::spec_name(),
    {
        "BulkEnqueueCheckins"
    }

    /// The store after the fan-out over `page_ids` at `now`: behind the jobs
    /// that it held stands one pending probe for each page, in the order of
    /// the pages.
    pub open spec fn spec_run(jobs: Seq<JobView>, page_ids: Seq<u128>, now: i64) -> Seq<JobView> {
        jobs + Seq::new(
            page_ids.len(),
            |i: int|
                new_job(
                    (jobs.len() + i) as u64,
                    CreateCheckin::spec_name(),
                    Payload::Page { page_id: page_ids[i] },
                    now,
                ),
        )
    }

    /// Enqueues one probe for each page of `page_ids` and returns how many
    /// it enqueued.
    pub fn run(&self, store: &mut JobStore, page_ids: &[u128], now: i64) -> (enqueued: usize)
        ensures
            final(store)@ == Self::spec_run(old(store)@, page_ids@, now),
            enqueued == page_ids@.len(),
    {
        let mut i: usize = 0;
        while i < page_ids.len()
            invariant
                0 <= i <= page_ids@.len(),
                store@ == Self::spec_run(old(store)@, page_ids@.take(i as int), now),
            decreases page_ids@.len() - i,
        {
            store.enqueue(CreateCheckin::name(), Payload::Page { page_id: page_ids[i] }, now);
            assert(store@ =~= Self::spec_run(old(store)@, page_ids@.take(i + 1), now));
            i = i + 1;
        }
        assert(page_ids@.take(i as int) =~= page_ids@);
        i
    }
}

} // verus!
