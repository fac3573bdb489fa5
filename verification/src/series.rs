//! Extremes and sums over a stretch of a series of checkins.

use vstd::prelude::*;
use crate::checkin::Checkin;
use crate::checkin::all_timed;

verus! {

/// The duration of a checkin in nanoseconds; meaningful where one is
/// recorded.
pub open spec fn duration_of(checkin: Checkin) -> int {
    match checkin.duration_nanos {
        Some(nanos) => nanos as int,
        None => 0,
    }
}

/// The least duration among `checkins[from..to]`, for `from < to`.
pub open spec fn least_duration(checkins: Seq<Checkin>, from: int, to: int) -> int
    decreases to - from,
{
    if to - from <= 1 {
        duration_of(checkins[from])
    } else {
        let rest = least_duration(checkins, from, to - 1);
        let last = duration_of(checkins[to - 1]);
        if last < rest {
            last
        } else {
            rest
        }
    }
}

/// The greatest duration among `checkins[from..to]`, for `from < to`.
pub open spec fn greatest_duration(checkins: Seq<Checkin>, from: int, to: int) -> int
    decreases to - from,
{
    if to - from <= 1 {
        duration_of(checkins[from])
    } else {
        let rest = greatest_duration(checkins, from, to - 1);
        let last = duration_of(checkins[to - 1]);
        if last > rest {
            last
        } else {
            rest
        }
    }
}

/// The sum of the durations of `checkins[from..to]`.
pub open spec fn total_duration(checkins: Seq<Checkin>, from: int, to: int) -> int
    decreases to - from,
{
    if to <= from {
        0
    } else {
        total_duration(checkins, from, to - 1) + duration_of(checkins[to - 1])
    }
}

/// The earliest creation time among `checkins[from..to]`, for `from < to`.
pub open spec fn earliest(checkins: Seq<Checkin>, from: int, to: int) -> int
    decreases to - from,
{
    if to - from <= 1 {
        checkins[from].created_at as int
    } else {
        let rest = earliest(checkins, from, to - 1);
        let last = checkins[to - 1].created_at as int;
        if last < rest {
            last
        } else {
            rest
        }
    }
}

/// The latest creation time among `checkins[from..to]`, for `from < to`.
pub open spec fn latest(checkins: Seq<Checkin>, from: int, to: int) -> int
    decreases to - from,
{
    if to - from <= 1 {
        checkins[from].created_at as int
    } else {
        let rest = latest(checkins, from, to - 1);
        let last = checkins[to - 1].created_at as int;
        if last > rest {
            last
        } else {
            rest
        }
    }
}

/// The least and the greatest duration of a stretch are durations of
/// checkins in it, and no checkin in it has a smaller or a greater one.
pub proof fn lemma_duration_extremes(checkins: Seq<Checkin>, from: int, to: int)
    requires
        0 <= from < to <= checkins.len(),
    ensures
        exists|i: int|
            from <= i < to && duration_of(checkins[i]) == least_duration(checkins, from, to),
        exists|i: int|
            from <= i < to && duration_of(checkins[i]) == greatest_duration(checkins, from, to),
        forall|i: int|
            from <= i < to ==> least_duration(checkins, from, to) <= duration_of(
                #[trigger] checkins[i],
            ) <= greatest_duration(checkins, from, to),
    decreases to - from,
{
    if to - from > 1 {
        lemma_duration_extremes(checkins, from, to - 1);
        let low = choose|i: int|
            from <= i < to - 1 && duration_of(checkins[i]) == least_duration(
                checkins,
                from,
                to - 1,
            );
        let high = choose|i: int|
            from <= i < to - 1 && duration_of(checkins[i]) == greatest_duration(
                checkins,
                from,
                to - 1,
            );
        let last = duration_of(checkins[to - 1]);
        if last < least_duration(checkins, from, to - 1) {
            assert(duration_of(checkins[to - 1]) == least_duration(checkins, from, to));
        } else {
            assert(duration_of(checkins[low]) == least_duration(checkins, from, to));
        }
        if last > greatest_duration(checkins, from, to - 1) {
            assert(duration_of(checkins[to - 1]) == greatest_duration(checkins, from, to));
        } else {
            assert(duration_of(checkins[high]) == greatest_duration(checkins, from, to));
        }
    } else {
        assert(duration_of(checkins[from]) == least_duration(checkins, from, to));
        assert(duration_of(checkins[from]) == greatest_duration(checkins, from, to));
    }
}

/// No checkin of a stretch was created before its earliest or after its
/// latest creation time.
pub proof fn lemma_time_extremes(checkins: Seq<Checkin>, from: int, to: int)
    requires
        0 <= from < to <= checkins.len(),
    ensures
        forall|i: int|
            from <= i < to ==> earliest(checkins, from, to) <= (#[trigger] checkins[i]).created_at
                <= latest(checkins, from, to),
    decreases to - from,
{
    if to - from > 1 {
        lemma_time_extremes(checkins, from, to - 1);
    }
}

/// The sum of a stretch lies between its length times its least duration
/// and its length times its greatest duration.
pub proof fn lemma_total_between_extremes(checkins: Seq<Checkin>, from: int, to: int)
    requires
        0 <= from < to <= checkins.len(),
    ensures
        (to - from) * least_duration(checkins, from, to) <= total_duration(checkins, from, to),
        total_duration(checkins, from, to) <= (to - from) * greatest_duration(
            checkins,
            from,
            to,
        ),
    decreases to - from,
{
    if to - from > 1 {
        lemma_total_between_extremes(checkins, from, to - 1);
        let n = to - from;
        let last = duration_of(checkins[to - 1]);
        let low0 = least_duration(checkins, from, to - 1);
        let low = least_duration(checkins, from, to);
        let high0 = greatest_duration(checkins, from, to - 1);
        let high = greatest_duration(checkins, from, to);
        let sum0 = total_duration(checkins, from, to - 1);
        assert(n * low <= sum0 + last) by (nonlinear_arith)
            requires
                n >= 2,
                (n - 1) * low0 <= sum0,
                low <= low0,
                low <= last,
        ;
        assert(sum0 + last <= n * high) by (nonlinear_arith)
            requires
                n >= 2,
                sum0 <= (n - 1) * high0,
                high0 <= high,
                last <= high,
        ;
    } else {
        let only = duration_of(checkins[from]);
        assert(total_duration(checkins, from, to - 1) == 0);
        assert(total_duration(checkins, from, to) == only);
        assert(least_duration(checkins, from, to) == only);
        assert(greatest_duration(checkins, from, to) == only);
        assert((to - from) * only == only) by (nonlinear_arith)
            requires
                to - from == 1,
        ;
    }
}

/// The least duration, the greatest duration and the sum of the durations of
/// `checkins[from..to]`.
pub fn duration_stats(checkins: &[Checkin], from: usize, to: usize) -> (stats: (i64, i64, i128))
    requires
        from < to <= checkins@.len(),
        all_timed(checkins@),
    ensures
        stats.0 == least_duration(checkins@, from as int, to as int),
        stats.1 == greatest_duration(checkins@, from as int, to as int),
        stats.2 == total_duration(checkins@, from as int, to as int),
{
    let first: i64 = duration_at(checkins, from);
    let mut least: i64 = first;
    let mut greatest: i64 = first;
    let mut total: i128 = first as i128;
    let mut i: usize = from + 1;
    assert(total_duration(checkins@, from as int, from as int) == 0);
    while i < to
        invariant
            from < i <= to <= checkins@.len(),
            all_timed(checkins@),
            least == least_duration(checkins@, from as int, i as int),
            greatest == greatest_duration(checkins@, from as int, i as int),
            total == total_duration(checkins@, from as int, i as int),
            -(i - from) * 0x8000_0000_0000_0000 <= total <= (i - from) * 0x7fff_ffff_ffff_ffff,
        decreases to - i,
    {
        let d: i64 = duration_at(checkins, i);
        if d < least {
            least = d;
        }
        if d > greatest {
            greatest = d;
        }
        total = total + d as i128;
        i = i + 1;
    }
    (least, greatest, total)
}

/// The recorded duration of `checkins[i]`.
pub fn duration_at(checkins: &[Checkin], i: usize) -> (nanos: i64)
    requires
        i < checkins@.len(),
        checkins@[i as int].duration_nanos is Some,
    ensures
        nanos == duration_of(checkins@[i as int]),
{
    match checkins[i].duration_nanos {
        Some(nanos) => nanos,
        None => 0,
    }
}

/// The earliest and the latest creation time among `checkins`.
pub fn time_span(checkins: &[Checkin]) -> (span: (i64, i64))
    requires
        checkins@.len() > 0,
    ensures
        span.0 == earliest(checkins@, 0, checkins@.len() as int),
        span.1 == latest(checkins@, 0, checkins@.len() as int),
{
    let mut first: i64 = checkins[0].created_at;
    let mut last: i64 = first;
    let mut i: usize = 1;
    while i < checkins.len()
        invariant
            0 < i <= checkins@.len(),
            first == earliest(checkins@, 0, i as int),
            last == latest(checkins@, 0, i as int),
        decreases checkins@.len() - i,
    {
        let t: i64 = checkins[i].created_at;
        if t < first {
            first = t;
        }
        if t > last {
            last = t;
        }
        i = i + 1;
    }
    (first, last)
}

} // verus!
