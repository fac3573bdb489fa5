//! Plot data for a series of checkins.
//!
//! The plot area is 200 units wide and 100 high, with a margin of 10 above
//! and below the curve. Time runs along x. Durations run along y, which
//! grows downwards: the longest duration is drawn nearest the top.

use vstd::prelude::*;
use vstd::arithmetic::div_mod::lemma_div_is_ordered;
use vstd::arithmetic::div_mod::lemma_div_multiples_vanish;
use vstd::arithmetic::div_mod::lemma_fundamental_div_mod;
use crate::checkin::Checkin;
use crate::checkin::all_timed;
use crate::fixed::Fixed;
use crate::fixed::floor_div;
use crate::labels::duration_label;
use crate::labels::duration_text;
use crate::labels::format_duration;
use crate::labels::signed_duration_text;
use crate::series::duration_at;
use crate::series::duration_of;
use crate::series::duration_stats;
use crate::series::earliest;
use crate::series::greatest_duration;
use crate::series::latest;
use crate::series::least_duration;
use crate::series::lemma_duration_extremes;
use crate::series::lemma_time_extremes;
use crate::series::lemma_total_between_extremes;
use crate::series::time_span;
use crate::series::total_duration;

verus! {

/// Width of the plot area.
pub const PLOT_WIDTH: i64 = 200;

/// Height of the whole drawing.
pub const FULL_HEIGHT: i64 = 100;

/// Margin above and below the curve.
pub const HEIGHT_PADDING: i64 = 10;

/// Height that the curve itself may take.
pub const PLOT_HEIGHT: i64 = 80;

/// One millisecond in nanoseconds: what the duration axis adds below the
/// least and above the greatest duration.
pub const MILLISECOND: i64 = 1_000_000;

/// A span of time, from `start` to `end`, in microseconds since the Unix
/// epoch.
#[derive(Clone, Copy, Debug, PartialEq, Eq, Structural)]
pub struct TimeRange {
    pub start: i64,
    pub end: i64,
}

/// A point of a curve, with the text shown beside it.
#[derive(Clone, Debug)]
pub struct GraphPoint {
    pub x: Fixed,
    pub y: Fixed,
    pub label: String,
}

/// Where `item` lies between `start` and `end`, as a share of `scale`, in
/// millionths and rounded down: `0` at `start`, `scale` at `end`. An item
/// outside the range lies below `0` or above `scale` on the same line. In a
/// range without width every item lies in the middle.
pub open spec fn scaled_position(start: int, end: int, item: int, scale: int) -> int {
    if start == end {
        scale * 1_000_000 / 2
    } else if start < end {
        (item - start) * scale * 1_000_000 / (end - start)
    } else {
        (start - item) * scale * 1_000_000 / (start - end)
    }
}

/// An item within the range lies within the scale, and of two items the one
/// further along the range lies no nearer its start.
pub proof fn lemma_position_within_scale(start: int, end: int, item: int, other: int, scale: int)
    requires
        start <= item <= other <= end || end <= other <= item <= start,
        scale >= 0,
    ensures
        0 <= scaled_position(start, end, item, scale) <= scaled_position(start, end, other, scale)
            <= scale * 1_000_000,
{
    let whole = scale * 1_000_000;
    if start == end {
        assert(0 <= whole / 2 <= whole);
    } else {
        let width = if start < end {
            end - start
        } else {
            start - end
        };
        let near = if start < end {
            item - start
        } else {
            start - item
        };
        let far = if start < end {
            other - start
        } else {
            start - other
        };
        assert(near * scale * 1_000_000 == near * whole && far * scale * 1_000_000 == far * whole)
            by (nonlinear_arith)
            requires
                whole == scale * 1_000_000,
        ;
        assert(0 <= near * whole <= far * whole <= width * whole) by (nonlinear_arith)
            requires
                0 <= near <= far <= width,
                whole >= 0,
        ;
        lemma_div_is_ordered(0, near * whole, width);
        lemma_div_is_ordered(near * whole, far * whole, width);
        lemma_div_is_ordered(far * whole, width * whole, width);
        lemma_div_multiples_vanish(whole, width);
        assert(width * whole / width == whole) by {
            assert(width * whole == whole * width) by (nonlinear_arith);
        }
        assert(0int / width == 0) by {
            lemma_div_multiples_vanish(0, width);
        }
    }
}

/// Computes [`scaled_position`].
fn scaled(start: i128, end: i128, item: i128, scale: i64) -> (position: Fixed)
    requires
        -0x2_0000_0000_0000_0000 <= start <= 0x2_0000_0000_0000_0000,
        -0x2_0000_0000_0000_0000 <= end <= 0x2_0000_0000_0000_0000,
        -0x2_0000_0000_0000_0000 <= item <= 0x2_0000_0000_0000_0000,
        0 <= scale <= 1_000,
    ensures
        position.millionths == scaled_position(start as int, end as int, item as int, scale as int),
        -0x4_0000_0000_0000_0000 * 1_000_000_000 <= position.millionths
            <= 0x4_0000_0000_0000_0000 * 1_000_000_000,
{
    let factor: i128 = scale as i128 * 1_000_000;
    if start == end {
        Fixed { millionths: factor / 2 }
    } else {
        let offset: i128 = if start < end {
            item - start
        } else {
            start - item
        };
        let width: i128 = if start < end {
            end - start
        } else {
            start - end
        };
        assert(-0x4_0000_0000_0000_0000 * 1_000_000_000 <= offset * factor
            <= 0x4_0000_0000_0000_0000 * 1_000_000_000) by (nonlinear_arith)
            requires
                -0x4_0000_0000_0000_0000 <= offset <= 0x4_0000_0000_0000_0000,
                0 <= factor <= 1_000_000_000,
        ;
        assert(offset * factor == offset * scale * 1_000_000) by (nonlinear_arith)
            requires
                factor == scale * 1_000_000,
        ;
        let scaled_offset: i128 = offset * factor;
        let q = floor_div(scaled_offset, width);
        proof {
            lemma_fundamental_div_mod(scaled_offset as int, width as int);
            let r = (scaled_offset as int) % (width as int);
            assert(scaled_offset >= 0 ==> 0 <= q <= scaled_offset) by (nonlinear_arith)
                requires
                    scaled_offset == width * q + r,
                    0 <= r < width,
            ;
            assert(scaled_offset < 0 ==> scaled_offset <= q < 0) by (nonlinear_arith)
                requires
                    scaled_offset == width * q + r,
                    0 <= r < width,
            ;
        }
        Fixed { millionths: q }
    }
}

/// Where `item` lies between `range_start` and `range_end`: `0` at the start,
/// `1` at the end.
pub fn calculate_percentile(range_start: i64, range_end: i64, item: i64) -> (percentile: Fixed)
    ensures
        percentile.millionths == scaled_position(
            range_start as int,
            range_end as int,
            item as int,
            1,
        ),
{
    scaled(range_start as i128, range_end as i128, item as i128, 1)
}

/// Where the instant `item` lies within `range`: `0` at its start, `1` at its
/// end.
pub fn calculate_range_percentile(range: &TimeRange, item: i64) -> (percentile: Fixed)
    ensures
        percentile.millionths == scaled_position(
            range.start as int,
            range.end as int,
            item as int,
            1,
        ),
{
    calculate_percentile(range.start, range.end, item)
}

/// Splits a list of triples into the lists of their first, second and third
/// parts.
pub fn transpose<X, Y, Z>(vec: Vec<(X, Y, Z)>) -> (columns: (Vec<X>, Vec<Y>, Vec<Z>))
    where
        X: Clone,
        Y: Clone,
        Z: Clone,
    ensures
        columns.0@ == vec@.map_values(|row: (X, Y, Z)| row.0),
        columns.1@ == vec@.map_values(|row: (X, Y, Z)| row.1),
        columns.2@ == vec@.map_values(|row: (X, Y, Z)| row.2),
{
    let mut v1: Vec<X> = Vec::new();
    let mut v2: Vec<Y> = Vec::new();
    let mut v3: Vec<Z> = Vec::new();
    let ghost rows = vec@;
    for row in it: vec
        invariant
            it.seq() == rows,
            v1@.len() == it.index(),
            v2@.len() == it.index(),
            v3@.len() == it.index(),
            forall|i: int| 0 <= i < it.index() ==> v1@[i] == rows[i].0,
            forall|i: int| 0 <= i < it.index() ==> v2@[i] == rows[i].1,
            forall|i: int| 0 <= i < it.index() ==> v3@[i] == rows[i].2,
    {
        let (e1, e2, e3) = row;
        v1.push(e1);
        v2.push(e2);
        v3.push(e3);
    }
    assert(v1@ =~= rows.map_values(|row: (X, Y, Z)| row.0));
    assert(v2@ =~= rows.map_values(|row: (X, Y, Z)| row.1));
    assert(v3@ =~= rows.map_values(|row: (X, Y, Z)| row.2));
    (v1, v2, v3)
}

/// How many checkins a bucket holds when `n` checkins go into `k` buckets;
/// the last bucket also takes what is left over.
pub open spec fn bucket_size(n: int, k: int) -> int {
    if n / k >= 1 {
        n / k
    } else {
        1
    }
}

/// How many buckets `n` checkins fill when up to `k` are asked for.
pub open spec fn bucket_count(n: int, k: int) -> int {
    if k <= n {
        k
    } else {
        n
    }
}

/// Index of the first checkin of bucket `i`.
pub open spec fn bucket_start(n: int, k: int, i: int) -> int {
    i * bucket_size(n, k)
}

/// Index after the last checkin of bucket `i`.
pub open spec fn bucket_end(n: int, k: int, i: int) -> int {
    if i + 1 == bucket_count(n, k) {
        n
    } else {
        (i + 1) * bucket_size(n, k)
    }
}

/// The buckets are not empty, lie within the series and follow one another
/// without a gap: the first starts at the first checkin and the last ends at
/// the last.
pub proof fn lemma_buckets_tile(n: int, k: int, i: int)
    requires
        n >= 1,
        k >= 1,
        0 <= i < bucket_count(n, k),
    ensures
        0 <= bucket_start(n, k, i) < bucket_end(n, k, i) <= n,
        bucket_start(n, k, 0) == 0,
        bucket_end(n, k, bucket_count(n, k) - 1) == n,
        i + 1 < bucket_count(n, k) ==> bucket_end(n, k, i) == bucket_start(n, k, i + 1),
        i + 1 < bucket_count(n, k) ==> bucket_end(n, k, i) == bucket_start(n, k, i) + bucket_size(
            n,
            k,
        ),
{
    let size = bucket_size(n, k);
    let count = bucket_count(n, k);
    lemma_fundamental_div_mod(n, k);
    assert(size * count <= n) by (nonlinear_arith)
        requires
            n == k * (n / k) + n % k,
            0 <= n % k,
            n >= 1,
            k >= 1,
            size == (if n / k >= 1 {
                n / k
            } else {
                1
            }),
            count == (if k <= n {
                k
            } else {
                n
            }),
    ;
    assert(0 <= i * size && i * size + size == (i + 1) * size && (i + 1) * size <= count * size)
        by (nonlinear_arith)
        requires
            0 <= i < count,
            size >= 1,
    ;
    assert(count * size == size * count) by (nonlinear_arith);
}

/// The axes of a plot: the time that x covers and the durations, in
/// nanoseconds, between which y runs.
#[derive(Clone, Copy, Debug, PartialEq, Eq, Structural)]
pub struct Frame {
    pub x_range: TimeRange,
    pub y_low: i128,
    pub y_high: i128,
}

impl Frame {
    /// The x coordinate of an instant, in millionths.
    pub open spec fn x_of(self, time: int) -> int {
        scaled_position(self.x_range.start as int, self.x_range.end as int, time, PLOT_WIDTH as int)
    }

    /// The y coordinate of a duration, in millionths: the longer the
    /// duration, the nearer the top.
    pub open spec fn y_of(self, nanos: int) -> int {
        (PLOT_HEIGHT + HEIGHT_PADDING) * 1_000_000 - scaled_position(
            self.y_low as int,
            self.y_high as int,
            nanos,
            PLOT_HEIGHT as int,
        )
    }

    /// Whether these are the axes for `checkins` over `range`: x covers the
    /// range or, without one, the time from the earliest checkin to the
    /// latest, and y runs from a millisecond below the least duration to a
    /// millisecond above the greatest.
    pub open spec fn fits(self, checkins: Seq<Checkin>, range: Option<TimeRange>) -> bool {
        &&& self.x_range.start == match range {
            Some(r) => r.start as int,
            None => earliest(checkins, 0, checkins.len() as int),
        }
        &&& self.x_range.end == match range {
            Some(r) => r.end as int,
            None => latest(checkins, 0, checkins.len() as int),
        }
        &&& self.y_low == least_duration(checkins, 0, checkins.len() as int) - MILLISECOND
        &&& self.y_high == greatest_duration(checkins, 0, checkins.len() as int) + MILLISECOND
    }

    /// Whether the bounds of y are such as a series of checkins gives.
    pub open spec fn bounded(self) -> bool {
        &&& -0xffff_ffff_ffff_ffff <= self.y_low <= 0xffff_ffff_ffff_ffff
        &&& -0xffff_ffff_ffff_ffff <= self.y_high <= 0xffff_ffff_ffff_ffff
    }

    /// The axes for `checkins` over `range`.
    pub fn around(checkins: &[Checkin], range: Option<TimeRange>) -> (frame: Frame)
        requires
            checkins@.len() > 0,
            all_timed(checkins@),
        ensures
            frame.fits(checkins@, range),
            frame.bounded(),
    {
        let x_range: TimeRange = match range {
            Some(range) => range,
            None => {
                let span = time_span(checkins);
                TimeRange { start: span.0, end: span.1 }
            },
        };
        let all = duration_stats(checkins, 0, checkins.len());
        Frame {
            x_range,
            y_low: all.0 as i128 - MILLISECOND as i128,
            y_high: all.1 as i128 + MILLISECOND as i128,
        }
    }

    /// The x coordinate of an instant.
    pub fn x_position(&self, time: i64) -> (x: Fixed)
        ensures
            x.millionths == self.x_of(time as int),
    {
        scaled(self.x_range.start as i128, self.x_range.end as i128, time as i128, PLOT_WIDTH)
    }

    /// The y coordinate of a duration.
    pub fn y_position(&self, nanos: i64) -> (y: Fixed)
        requires
            self.bounded(),
        ensures
            y.millionths == self.y_of(nanos as int),
    {
        let share = scaled(self.y_low, self.y_high, nanos as i128, PLOT_HEIGHT);
        Fixed { millionths: (PLOT_HEIGHT + HEIGHT_PADDING) as i128 * 1_000_000 - share.millionths }
    }

    /// The label for the bottom of the y axis.
    pub fn min_label(&self) -> (label: String)
        requires
            self.bounded(),
        ensures
            label@ == signed_duration_text(self.y_low as int),
    {
        duration_label(self.y_low)
    }

    /// The label for the top of the y axis.
    pub fn max_label(&self) -> (label: String)
        requires
            self.bounded(),
        ensures
            label@ == signed_duration_text(self.y_high as int),
    {
        duration_label(self.y_high)
    }
}

/// A series of checkins to be drawn one point per checkin, over `range` or,
/// without one, over the time that the series spans.
pub struct SimpleCheckinGraph {
    pub checkins: Vec<Checkin>,
    pub range: Option<TimeRange>,
}

/// The curve of a series drawn point by point.
pub struct SimplePlot {
    pub frame: Frame,
    pub min_label: String,
    pub max_label: String,
    pub points: Vec<GraphPoint>,
}

impl SimpleCheckinGraph {
    /// Whether `point` stands for `checkin` on the axes `frame`.
    pub open spec fn is_point(frame: Frame, checkin: Checkin, point: GraphPoint) -> bool {
        &&& point.x.millionths == frame.x_of(checkin.created_at as int)
        &&& point.y.millionths == frame.y_of(duration_of(checkin))
        &&& point.label@ == duration_text(duration_of(checkin) as u64)
    }

    /// Whether `plot` is the plot of this series.
    pub open spec fn is_plot(self, plot: SimplePlot) -> bool {
        &&& plot.frame.fits(self.checkins@, self.range)
        &&& plot.min_label@ == signed_duration_text(plot.frame.y_low as int)
        &&& plot.max_label@ == signed_duration_text(plot.frame.y_high as int)
        &&& plot.points@.len() == self.checkins@.len()
        &&& forall|i: int|
            0 <= i < self.checkins@.len() ==> Self::is_point(
                plot.frame,
                self.checkins@[i],
                #[trigger] plot.points@[i],
            )
    }

    /// Lays the series out in the plot area, one point per checkin. There is
    /// nothing to plot, and the result is `None`, where the series is empty.
    pub fn plot(&self) -> (result: Option<SimplePlot>)
        requires
            all_timed(self.checkins@),
        ensures
            result is None <==> self.checkins@.len() == 0,
            result matches Some(plot) ==> self.is_plot(plot),
    {
        let n: usize = self.checkins.len();
        if n == 0 {
            return None;
        }
        let frame = Frame::around(self.checkins.as_slice(), self.range);
        let mut points: Vec<GraphPoint> = Vec::new();
        let mut i: usize = 0;
        while i < n
            invariant
                n == self.checkins@.len(),
                all_timed(self.checkins@),
                frame.bounded(),
                0 <= i <= n,
                points@.len() == i,
                forall|j: int|
                    0 <= j < i ==> Self::is_point(frame, self.checkins@[j], #[trigger] points@[j]),
            decreases n - i,
        {
            let nanos: i64 = duration_at(self.checkins.as_slice(), i);
            let point = GraphPoint {
                x: frame.x_position(self.checkins[i].created_at),
                y: frame.y_position(nanos),
                label: format_duration(nanos as u64),
            };
            points.push(point);
            i = i + 1;
        }
        Some(SimplePlot { frame, min_label: frame.min_label(), max_label: frame.max_label(), points })
    }
}

/// A series of checkins to be drawn as at most `number_of_chunks` buckets,
/// over `range` or, without one, over the time that the series spans.
pub struct SampledCheckinGraph {
    pub checkins: Vec<Checkin>,
    pub number_of_chunks: usize,
    pub range: Option<TimeRange>,
}

/// What a sampled graph holds, as plain values.
pub struct SampledSeries {
    pub checkins: Seq<Checkin>,
    pub chunks: int,
    pub range: Option<TimeRange>,
}

impl View for SampledCheckinGraph {
    type V = SampledSeries;

    open spec fn view(&self) -> SampledSeries {
        SampledSeries {
            checkins: self.checkins@,
            chunks: self.number_of_chunks as int,
            range: self.range,
        }
    }
}

/// The curves of a sampled series: for each bucket its least, its average
/// and its greatest duration, all three drawn at the bucket's middle
/// checkin.
pub struct Plot {
    pub frame: Frame,
    pub min_label: String,
    pub max_label: String,
    pub min: Vec<(Fixed, Fixed)>,
    pub avg: Vec<GraphPoint>,
    pub max: Vec<(Fixed, Fixed)>,
}

impl SampledSeries {
    /// How many buckets the series fills: as many as are asked for, or one
    /// per checkin where it has fewer checkins than that.
    pub open spec fn buckets(self) -> int {
        bucket_count(self.checkins.len() as int, self.chunks)
    }

    /// Index of the first checkin of bucket `i`.
    pub open spec fn from(self, i: int) -> int {
        bucket_start(self.checkins.len() as int, self.chunks, i)
    }

    /// Index after the last checkin of bucket `i`.
    pub open spec fn to(self, i: int) -> int {
        bucket_end(self.checkins.len() as int, self.chunks, i)
    }

    /// The instant at which bucket `i` is drawn: that of its middle checkin.
    pub open spec fn bucket_time(self, i: int) -> int {
        self.checkins[self.from(i) + (self.to(i) - self.from(i)) / 2].created_at as int
    }

    /// The least duration in bucket `i`.
    pub open spec fn bucket_min(self, i: int) -> int {
        least_duration(self.checkins, self.from(i), self.to(i))
    }

    /// The greatest duration in bucket `i`.
    pub open spec fn bucket_max(self, i: int) -> int {
        greatest_duration(self.checkins, self.from(i), self.to(i))
    }

    /// The average duration in bucket `i`, in whole nanoseconds.
    pub open spec fn bucket_avg(self, i: int) -> int {
        total_duration(self.checkins, self.from(i), self.to(i)) / (self.to(i) - self.from(i))
    }

    /// Whether `row` holds the three points of bucket `i` on the axes
    /// `frame`.
    pub open spec fn is_bucket(
        self,
        frame: Frame,
        i: int,
        row: ((Fixed, Fixed), GraphPoint, (Fixed, Fixed)),
    ) -> bool {
        &&& row.0.0.millionths == frame.x_of(self.bucket_time(i))
        &&& row.0.1.millionths == frame.y_of(self.bucket_min(i))
        &&& row.1.x.millionths == frame.x_of(self.bucket_time(i))
        &&& row.1.y.millionths == frame.y_of(self.bucket_avg(i))
        &&& row.1.label@ == duration_text(self.bucket_avg(i) as u64)
        &&& row.2.0.millionths == frame.x_of(self.bucket_time(i))
        &&& row.2.1.millionths == frame.y_of(self.bucket_max(i))
    }

    /// Whether `plot` is the plot of this series.
    pub open spec fn is_plot(self, plot: Plot) -> bool {
        &&& plot.frame.fits(self.checkins, self.range)
        &&& plot.min_label@ == signed_duration_text(plot.frame.y_low as int)
        &&& plot.max_label@ == signed_duration_text(plot.frame.y_high as int)
        &&& plot.min@.len() == self.buckets()
        &&& plot.avg@.len() == self.buckets()
        &&& plot.max@.len() == self.buckets()
        &&& forall|i: int|
            #![trigger plot.min@[i]]
            #![trigger plot.avg@[i]]
            #![trigger plot.max@[i]]
            0 <= i < self.buckets() ==> self.is_bucket(
                plot.frame,
                i,
                (plot.min@[i], plot.avg@[i], plot.max@[i]),
            )
    }
}

/// On the axes of a series every duration of the series is drawn between
/// the margins, and of two of them the longer one no lower.
pub proof fn lemma_durations_lie_between_the_margins(
    frame: Frame,
    checkins: Seq<Checkin>,
    range: Option<TimeRange>,
    shorter: int,
    longer: int,
)
    requires
        checkins.len() > 0,
        frame.fits(checkins, range),
        least_duration(checkins, 0, checkins.len() as int) <= shorter <= longer <= greatest_duration(
            checkins,
            0,
            checkins.len() as int,
        ),
    ensures
        HEIGHT_PADDING * 1_000_000 <= frame.y_of(longer) <= frame.y_of(shorter) <= (PLOT_HEIGHT
            + HEIGHT_PADDING) * 1_000_000,
{
    lemma_position_within_scale(
        frame.y_low as int,
        frame.y_high as int,
        shorter,
        longer,
        PLOT_HEIGHT as int,
    );
}

/// On axes that span the time of the series itself, every checkin is drawn
/// within the width of the plot.
pub proof fn lemma_checkins_lie_within_the_width(frame: Frame, checkins: Seq<Checkin>, i: int)
    requires
        frame.fits(checkins, None),
        0 <= i < checkins.len(),
    ensures
        0 <= frame.x_of(checkins[i].created_at as int) <= PLOT_WIDTH * 1_000_000,
{
    lemma_time_extremes(checkins, 0, checkins.len() as int);
    lemma_position_within_scale(
        frame.x_range.start as int,
        frame.x_range.end as int,
        checkins[i].created_at as int,
        checkins[i].created_at as int,
        PLOT_WIDTH as int,
    );
}

/// The least duration of a stretch of a series is no less than that of the
/// whole series, and its greatest no greater.
pub proof fn lemma_stretch_within_series(checkins: Seq<Checkin>, from: int, to: int)
    requires
        0 <= from < to <= checkins.len(),
    ensures
        least_duration(checkins, 0, checkins.len() as int) <= least_duration(checkins, from, to),
        greatest_duration(checkins, from, to) <= greatest_duration(
            checkins,
            0,
            checkins.len() as int,
        ),
{
    lemma_duration_extremes(checkins, 0, checkins.len() as int);
    lemma_duration_extremes(checkins, from, to);
    let low = choose|i: int|
        from <= i < to && duration_of(checkins[i]) == least_duration(checkins, from, to);
    let high = choose|i: int|
        from <= i < to && duration_of(checkins[i]) == greatest_duration(checkins, from, to);
    assert(duration_of(checkins[low]) >= least_duration(checkins, 0, checkins.len() as int));
    assert(duration_of(checkins[high]) <= greatest_duration(checkins, 0, checkins.len() as int));
}

/// The three points of every bucket lie between the margins: the greatest
/// duration on top, the least at the bottom and the average between them.
pub proof fn lemma_buckets_lie_between_the_margins(series: SampledSeries, frame: Frame, i: int)
    requires
        series.checkins.len() > 0,
        series.chunks > 0,
        frame.fits(series.checkins, series.range),
        0 <= i < series.buckets(),
    ensures
        HEIGHT_PADDING * 1_000_000 <= frame.y_of(series.bucket_max(i)) <= frame.y_of(
            series.bucket_avg(i),
        ) <= frame.y_of(series.bucket_min(i)) <= (PLOT_HEIGHT + HEIGHT_PADDING) * 1_000_000,
{
    let n = series.checkins.len() as int;
    let from = series.from(i);
    let to = series.to(i);
    lemma_buckets_tile(n, series.chunks, i);
    lemma_stretch_within_series(series.checkins, from, to);
    lemma_duration_extremes(series.checkins, from, to);
    lemma_total_between_extremes(series.checkins, from, to);
    let low = series.bucket_min(i);
    let high = series.bucket_max(i);
    let sum = total_duration(series.checkins, from, to);
    let len = to - from;
    lemma_fundamental_div_mod(sum, len);
    assert(low <= sum / len <= high) by (nonlinear_arith)
        requires
            len * low <= sum <= len * high,
            sum == len * (sum / len) + sum % len,
            0 <= sum % len < len,
            len >= 1,
    ;
    lemma_durations_lie_between_the_margins(
        frame,
        series.checkins,
        series.range,
        low,
        series.bucket_avg(i),
    );
    lemma_durations_lie_between_the_margins(
        frame,
        series.checkins,
        series.range,
        series.bucket_avg(i),
        high,
    );
}

impl SampledCheckinGraph {
    /// Samples the series into buckets and lays them out in the plot area.
    ///
    /// There is nothing to plot, and the result is `None`, where the series is
    /// empty or no bucket is asked for. Otherwise the series fills
    /// `number_of_chunks` buckets, or one bucket per checkin where it has
    /// fewer checkins than that.
    pub fn plot(&self) -> (result: Option<Plot>)
        requires
            all_timed(self.checkins@),
        ensures
            result is None <==> self.checkins@.len() == 0 || self.number_of_chunks == 0,
            result matches Some(plot) ==> self@.is_plot(plot),
    {
        let n: usize = self.checkins.len();
        let k: usize = self.number_of_chunks;
        if n == 0 || k == 0 {
            return None;
        }
        let frame = Frame::around(self.checkins.as_slice(), self.range);
        let whole: usize = n / k;
        let size: usize = if whole >= 1 {
            whole
        } else {
            1
        };
        let count: usize = if k <= n {
            k
        } else {
            n
        };
        let mut rows: Vec<((Fixed, Fixed), GraphPoint, (Fixed, Fixed))> = Vec::new();
        let mut i: usize = 0;
        let mut from: usize = 0;
        while i < count
            invariant
                n == self.checkins@.len(),
                k == self.number_of_chunks,
                n >= 1,
                k >= 1,
                all_timed(self.checkins@),
                size == bucket_size(n as int, k as int),
                count == bucket_count(n as int, k as int),
                frame.bounded(),
                0 <= i <= count,
                i < count ==> from == self@.from(i as int),
                rows@.len() == i,
                forall|j: int| 0 <= j < i ==> self@.is_bucket(frame, j, #[trigger] rows@[j]),
            decreases count - i,
        {
            proof {
                lemma_buckets_tile(n as int, k as int, i as int);
            }
            let to: usize = if i + 1 == count {
                n
            } else {
                from + size
            };
            let stats = duration_stats(self.checkins.as_slice(), from, to);
            let len: usize = to - from;
            proof {
                lemma_duration_extremes(self.checkins@, from as int, to as int);
                lemma_total_between_extremes(self.checkins@, from as int, to as int);
                let low = least_duration(self.checkins@, from as int, to as int);
                let high = greatest_duration(self.checkins@, from as int, to as int);
                let sum = total_duration(self.checkins@, from as int, to as int);
                assert(low >= 0);
                assert(0 <= sum) by (nonlinear_arith)
                    requires
                        len * low <= sum,
                        low >= 0,
                        len >= 1,
                ;
                assert(0 <= sum / (len as int) <= high) by (nonlinear_arith)
                    requires
                        0 <= sum <= len * high,
                        len >= 1,
                ;
            }
            let avg: i64 = (stats.2 / len as i128) as i64;
            let middle: usize = from + len / 2;
            let x = frame.x_position(self.checkins[middle].created_at);
            let point = GraphPoint {
                x,
                y: frame.y_position(avg),
                label: format_duration(avg as u64),
            };
            let row = ((x, frame.y_position(stats.0)), point, (x, frame.y_position(stats.1)));
            assert(self@.is_bucket(frame, i as int, row));
            rows.push(row);
            from = to;
            i = i + 1;
        }
        let ghost sampled = rows@;
        let columns = transpose(rows);
        let plot = Plot {
            frame,
            min_label: frame.min_label(),
            max_label: frame.max_label(),
            min: columns.0,
            avg: columns.1,
            max: columns.2,
        };
        assert forall|j: int| 0 <= j < self@.buckets() implies self@.is_bucket(
            frame,
            j,
            (plot.min@[j], plot.avg@[j], plot.max@[j]),
        ) by {
            assert(self@.is_bucket(frame, j, sampled[j]));
        }
        Some(plot)
    }
}

} // verus!
