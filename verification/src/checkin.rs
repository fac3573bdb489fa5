//! Checkins: the recorded outcome of one probe of one page.

use vstd::prelude::*;

verus! {

/// How a probe ended.
#[derive(Clone, Copy, Debug, PartialEq, Eq, Structural)]
pub enum Outcome {
    /// A response arrived and its status was a 2xx.
    Success,
    /// A response arrived with any other status.
    Failure,
    /// No response arrived: the connection, the name lookup or the timeout
    /// failed.
    Error,
}

impl Outcome {
    /// The name under which the outcome is stored.
    pub open spec fn name(self) -> Seq<char> {
        match self {
            Outcome::Success => "success"@,
            Outcome::Failure => "failure"@,
            Outcome::Error => "error"@,
        }
    }

    /// The outcome stored under `name`, if there is one.
    pub open spec fn named(name: Seq<char>) -> Option<Outcome> {
        if name == "success"@ {
            Some(Outcome::Success)
        } else if name == "failure"@ {
            Some(Outcome::Failure)
        } else if name == "error"@ {
            Some(Outcome::Error)
        } else {
            None
        }
    }

    /// The name under which the outcome is stored.
    pub fn as_str(&self) -> (name: &'static str)
        ensures
            name@ == self.name(),
    {
        match self {
            Outcome::Success => "success",
            Outcome::Failure => "failure",
            Outcome::Error => "error",
        }
    }

    /// Reads a stored name back.
    pub fn parse(name: &str) -> (outcome: Option<Outcome>)
        ensures
            outcome == Self::named(name@),
    {
        let name = String::from_str(name);
        if name == String::from_str("success") {
            Some(Outcome::Success)
        } else if name == String::from_str("failure") {
            Some(Outcome::Failure)
        } else if name == String::from_str("error") {
            Some(Outcome::Error)
        } else {
            None
        }
    }
}

/// Every outcome is read back from its own name.
pub proof fn lemma_outcome_name_round_trip(outcome: Outcome)
    ensures
        Outcome::named(outcome.name()) == Some(outcome),
{
    reveal_strlit("success");
    reveal_strlit("failure");
    reveal_strlit("error");
    assert("success"@.len() == 7);
    assert("failure"@.len() == 7);
    assert("error"@.len() == 5);
    assert("success"@[0] == 's');
    assert("failure"@[0] == 'f');
}

/// One observation of one page. Times are microseconds since the Unix
/// epoch, durations are nanoseconds, identifiers are the 128 bits of a UUID.
#[derive(Clone, Copy, Debug, PartialEq, Eq, Structural)]
pub struct Checkin {
    pub checkin_id: u128,
    pub page_id: u128,
    pub outcome: Outcome,
    pub status_code: Option<i32>,
    pub duration_nanos: Option<i64>,
    pub created_at: i64,
}

impl Checkin {
    /// What holds of every checkin: a status code is recorded exactly when a
    /// response arrived, the outcome is a success exactly when that code is a
    /// 2xx, a duration is recorded only when a response arrived, and no
    /// duration is negative.
    pub open spec fn well_formed(self) -> bool {
        &&& self.outcome == Outcome::Error <==> self.status_code is None
        &&& self.status_code matches Some(code) ==> (self.outcome == Outcome::Success
            <==> 200 <= code < 300)
        &&& self.outcome == Outcome::Error ==> self.duration_nanos is None
        &&& self.duration_nanos matches Some(nanos) ==> nanos >= 0
    }

    /// Whether the checkin is well formed.
    pub fn is_well_formed(&self) -> (ok: bool)
        ensures
            ok == self.well_formed(),
    {
        let is_error = match self.outcome {
            Outcome::Error => true,
            _ => false,
        };
        let coded = match self.status_code {
            Some(code) => !is_error && (self.outcome == Outcome::Success) == (200 <= code
                && code < 300),
            None => is_error,
        };
        let timed = !is_error || self.duration_nanos.is_none();
        let positive = match self.duration_nanos {
            Some(nanos) => nanos >= 0,
            None => true,
        };
        coded && timed && positive
    }
}

impl Checkin {
    /// The checkin that a stored record stands for, if its outcome has one of
    /// the three names.
    pub fn from_stored(
        checkin_id: u128,
        page_id: u128,
        outcome: &str,
        status_code: Option<i32>,
        duration_nanos: Option<i64>,
        created_at: i64,
    ) -> (checkin: Option<Checkin>)
        ensures
            checkin == (match Outcome::named(outcome@) {
                Some(outcome) => Some(
                    Checkin { checkin_id, page_id, outcome, status_code, duration_nanos, created_at },
                ),
                None => None,
            }),
    {
        match Outcome::parse(outcome) {
            Some(outcome) => Some(
                Checkin { checkin_id, page_id, outcome, status_code, duration_nanos, created_at },
            ),
            None => None,
        }
    }
}

/// Whether every checkin of `checkins` is well formed.
pub open spec fn all_well_formed(checkins: Seq<Checkin>) -> bool {
    forall|i: int| 0 <= i < checkins.len() ==> (#[trigger] checkins[i]).well_formed()
}

/// Whether every checkin of `checkins` carries a duration, and none a
/// negative one.
pub open spec fn all_timed(checkins: Seq<Checkin>) -> bool {
    forall|i: int|
        0 <= i < checkins.len() ==> ((#[trigger] checkins[i]).duration_nanos matches Some(nanos)
            && nanos >= 0)
}

/// Whether every checkin of `checkins` carries a duration and none a
/// negative one, as a plot asks of its series.
pub fn can_be_plotted(checkins: &[Checkin]) -> (ok: bool)
    ensures
        ok == all_timed(checkins@),
{
    let mut i: usize = 0;
    while i < checkins.len()
        invariant
            0 <= i <= checkins@.len(),
            forall|j: int|
                0 <= j < i ==> ((#[trigger] checkins@[j]).duration_nanos matches Some(nanos)
                    && nanos >= 0),
        decreases checkins@.len() - i,
    {
        match checkins[i].duration_nanos {
            Some(nanos) => {
                if nanos < 0 {
                    return false;
                }
            },
            None => {
                return false;
            },
        }
        i = i + 1;
    }
    true
}

} // verus!
