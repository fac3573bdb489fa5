//! The recent window of a series of checkins and the window before it.
//!
//! The series is held newest first, as the store hands it out. The recent
//! window reaches back `recent_span` microseconds from now, the previous one
//! as far again.

use vstd::prelude::*;
use crate::checkin::Checkin;

verus! {

/// The first index at or after `from` whose checkin was created before
/// `boundary`, or the length of the series where there is none.
pub open spec fn first_before(checkins: Seq<Checkin>, from: int, boundary: int) -> int
    decreases checkins.len() - from,
{
    if from >= checkins.len() {
        checkins.len() as int
    } else if checkins[from].created_at < boundary {
        from
    } else {
        first_before(checkins, from + 1, boundary)
    }
}

/// Whether the series runs from the newest checkin to the oldest.
pub open spec fn newest_first(checkins: Seq<Checkin>) -> bool {
    forall|i: int, j: int|
        0 <= i <= j < checkins.len() ==> (#[trigger] checkins[i]).created_at >= (
        #[trigger] checkins[j]).created_at
}

/// Where the recent window ends in `checkins`.
pub open spec fn recent_end(checkins: Seq<Checkin>, now: int, recent_span: int) -> int {
    first_before(checkins, 0, now - recent_span)
}

/// Where the previous window ends in `checkins`.
pub open spec fn previous_end(checkins: Seq<Checkin>, now: int, recent_span: int) -> int {
    first_before(checkins, recent_end(checkins, now, recent_span), now - 2 * recent_span)
}

/// What [`first_before`] finds lies within the series, no checkin between
/// `from` and it is older than the boundary, and the checkin at it is.
pub proof fn lemma_first_before(checkins: Seq<Checkin>, from: int, boundary: int)
    requires
        0 <= from <= checkins.len(),
    ensures
        from <= first_before(checkins, from, boundary) <= checkins.len(),
        forall|i: int|
            from <= i < first_before(checkins, from, boundary) ==> (
            #[trigger] checkins[i]).created_at >= boundary,
        first_before(checkins, from, boundary) < checkins.len() ==> checkins[first_before(
            checkins,
            from,
            boundary,
        )].created_at < boundary,
    decreases checkins.len() - from,
{
    if from < checkins.len() && checkins[from].created_at >= boundary {
        lemma_first_before(checkins, from + 1, boundary);
    }
}

/// In a series that runs from the newest checkin to the oldest, the two
/// windows part the checkins by age alone: the recent window holds exactly
/// those created at or after `now - recent_span`, the previous one exactly
/// those created before that and at or after `now - 2 * recent_span`.
pub proof fn lemma_windows_part_by_age(checkins: Seq<Checkin>, now: int, recent_span: int)
    requires
        newest_first(checkins),
        recent_span >= 0,
    ensures
        forall|i: int|
            0 <= i < checkins.len() ==> (i < recent_end(checkins, now, recent_span) <==> (
            #[trigger] checkins[i]).created_at >= now - recent_span),
        forall|i: int|
            0 <= i < checkins.len() ==> (recent_end(checkins, now, recent_span) <= i
                < previous_end(checkins, now, recent_span) <==> now - 2 * recent_span <= (
            #[trigger] checkins[i]).created_at < now - recent_span),
{
    let split = recent_end(checkins, now, recent_span);
    lemma_first_before(checkins, 0, now - recent_span);
    lemma_first_before(checkins, split, now - 2 * recent_span);
    let stop = previous_end(checkins, now, recent_span);
    assert forall|i: int| 0 <= i < checkins.len() implies (i < split <==> (
    #[trigger] checkins[i]).created_at >= now - recent_span) by {
        if i >= split {
            assert(checkins[split].created_at >= checkins[i].created_at);
        }
    }
    assert forall|i: int| 0 <= i < checkins.len() implies (split <= i < stop <==> now - 2
        * recent_span <= (#[trigger] checkins[i]).created_at < now - recent_span) by {
        if i >= stop {
            assert(checkins[stop].created_at >= checkins[i].created_at);
        }
    }
}

/// Finds [`first_before`].
pub fn split_point(checkins: &[Checkin], from: usize, boundary: i128) -> (point: usize)
    requires
        from <= checkins@.len(),
    ensures
        point == first_before(checkins@, from as int, boundary as int),
        from <= point <= checkins@.len(),
{
    let mut i: usize = from;
    while i < checkins.len() && checkins[i].created_at as i128 >= boundary
        invariant
            from <= i <= checkins@.len(),
            first_before(checkins@, from as int, boundary as int) == first_before(
                checkins@,
                i as int,
                boundary as int,
            ),
        decreases checkins@.len() - i,
    {
        i = i + 1;
    }
    i
}

/// The checkins `checkins[from..to]`, in the same order.
pub fn stretch(checkins: &[Checkin], from: usize, to: usize) -> (part: Vec<Checkin>)
    requires
        from <= to <= checkins@.len(),
    ensures
        part@ == checkins@.subrange(from as int, to as int),
{
    let mut part: Vec<Checkin> = Vec::new();
    let mut i: usize = from;
    while i < to
        invariant
            from <= i <= to <= checkins@.len(),
            part@ == checkins@.subrange(from as int, i as int),
        decreases to - i,
    {
        part.push(checkins[i]);
        assert(part@ =~= checkins@.subrange(from as int, i + 1));
        i = i + 1;
    }
    part
}

/// The checkins of `checkins` from the last to the first.
pub fn reversed(checkins: &[Checkin]) -> (back: Vec<Checkin>)
    ensures
        back@ == checkins@.reverse(),
{
    let n: usize = checkins.len();
    let mut back: Vec<Checkin> = Vec::new();
    let mut i: usize = n;
    while i > 0
        invariant
            n == checkins@.len(),
            0 <= i <= n,
            back@.len() == n - i,
            forall|j: int| 0 <= j < back@.len() ==> back@[j] == checkins@[n - 1 - j],
        decreases i,
    {
        i = i - 1;
        back.push(checkins[i]);
    }
    assert(back@ =~= checkins@.reverse());
    back
}

/// The recent window of a series and the window before it.
#[derive(Debug)]
pub struct Windows {
    pub recent: Vec<Checkin>,
    pub previous: Vec<Checkin>,
}

/// Parts a series that runs from the newest checkin to the oldest into its
/// recent and its previous window. What is older than both is left out.
pub fn split_windows(all_checkins: &[Checkin], now: i64, recent_span: i64) -> (windows: Windows)
    ensures
        windows.recent@ == all_checkins@.subrange(
            0,
            recent_end(all_checkins@, now as int, recent_span as int),
        ),
        windows.previous@ == all_checkins@.subrange(
            recent_end(all_checkins@, now as int, recent_span as int),
            previous_end(all_checkins@, now as int, recent_span as int),
        ),
{
    let boundary: i128 = now as i128 - recent_span as i128;
    let limit: i128 = now as i128 - 2 * (recent_span as i128);
    let split = split_point(all_checkins, 0, boundary);
    let stop = split_point(all_checkins, split, limit);
    Windows {
        recent: stretch(all_checkins, 0, split),
        previous: stretch(all_checkins, split, stop),
    }
}

} // verus!
