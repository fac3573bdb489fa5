//! What a drawing of a plot needs beside the curves: the ticks of the time
//! axis, the side on which each label is written, and the text of a path.

use vstd::prelude::*;
use vstd::arithmetic::div_mod::lemma_fundamental_div_mod;
use crate::fixed::Fixed;
use crate::fixed::fixed_text;
use crate::fixed::floor_div;
use crate::graph::GraphPoint;
use crate::graph::TimeRange;
use crate::interval::quotient_towards_zero;
use crate::labels::clock_text;
use crate::labels::format_clock;

verus! {

/// The ticks of the time axis: `number_of_ticks` equal steps across `width`,
/// with a tick at each end.
#[derive(Clone, Copy, Debug, PartialEq, Eq, Structural)]
pub struct XAxisTicks {
    pub width: u32,
    pub x_range: TimeRange,
    pub number_of_ticks: u32,
}

/// One tick of the time axis.
#[derive(Debug)]
pub struct Tick {
    pub x: Fixed,
    /// The instant at the tick, in seconds since the Unix epoch.
    pub time_secs: i64,
    /// Date and time at the tick; `None` for an instant outside the years
    /// that have a calendar date.
    pub label: Option<String>,
}

impl XAxisTicks {
    /// The second in which the axis starts.
    pub open spec fn start_secs(self) -> int {
        self.x_range.start as int / 1_000_000
    }

    /// The whole seconds that the axis covers.
    pub open spec fn span_secs(self) -> int {
        quotient_towards_zero(self.x_range.end - self.x_range.start, 1_000_000)
    }

    /// The x coordinate of tick `i`, in millionths.
    pub open spec fn tick_x(self, i: int) -> int {
        i * self.width * 1_000_000 / (self.number_of_ticks as int)
    }

    /// The instant at tick `i`, in whole seconds.
    pub open spec fn tick_time(self, i: int) -> int {
        quotient_towards_zero(
            self.start_secs() * self.number_of_ticks + i * self.span_secs(),
            self.number_of_ticks as int,
        )
    }

    /// Whether `tick` is tick `i` of this axis.
    pub open spec fn is_tick(self, i: int, tick: Tick) -> bool {
        &&& tick.x.millionths == self.tick_x(i)
        &&& tick.time_secs == self.tick_time(i)
        &&& match tick.label {
            Some(label) => clock_text(tick.time_secs) == Some(label@),
            None => clock_text(tick.time_secs) is None,
        }
    }

    /// The ticks from the start of the axis to its end. An axis of no steps
    /// has no ticks.
    pub fn ticks(&self) -> (ticks: Vec<Tick>)
        ensures
            self.number_of_ticks == 0 ==> ticks@.len() == 0,
            self.number_of_ticks > 0 ==> ticks@.len() == self.number_of_ticks + 1,
            forall|i: int| 0 <= i < ticks@.len() ==> self.is_tick(i, #[trigger] ticks@[i]),
    {
        let mut ticks: Vec<Tick> = Vec::new();
        if self.number_of_ticks == 0 {
            return ticks;
        }
        let n: i128 = self.number_of_ticks as i128;
        let start_secs: i128 = floor_div(self.x_range.start as i128, 1_000_000);
        let span_secs: i128 = (self.x_range.end as i128 - self.x_range.start as i128) / 1_000_000;
        proof {
            let start = self.x_range.start as int;
            lemma_fundamental_div_mod(start, 1_000_000);
            let span = self.x_range.end - self.x_range.start;
            if span >= 0 {
                lemma_fundamental_div_mod(span, 1_000_000);
            } else {
                lemma_fundamental_div_mod(-span, 1_000_000);
            }
        }
        assert(-9_300_000_000_000 <= start_secs <= 9_300_000_000_000);
        assert(-18_500_000_000_000 <= span_secs <= 18_500_000_000_000);
        let mut i: u32 = 0;
        loop
            invariant_except_break
                0 <= i <= self.number_of_ticks,
                ticks@.len() == i,
            invariant
                n == self.number_of_ticks,
                n > 0,
                start_secs == self.start_secs(),
                span_secs == self.span_secs(),
                -9_300_000_000_000 <= start_secs <= 9_300_000_000_000,
                -18_500_000_000_000 <= span_secs <= 18_500_000_000_000,
                forall|j: int| 0 <= j < ticks@.len() ==> self.is_tick(j, #[trigger] ticks@[j]),
            ensures
                ticks@.len() == self.number_of_ticks + 1,
            decreases self.number_of_ticks - i,
        {
            let step: i128 = i as i128;
            assert(0 <= step * (self.width as i128) <= 0x1_0000_0000_0000_0000) by (nonlinear_arith)
                requires
                    0 <= step <= 0xffff_ffff,
                    0 <= self.width <= 0xffff_ffff,
            ;
            assert(step * (self.width as i128) * 1_000_000 == i * self.width * 1_000_000)
                by (nonlinear_arith)
                requires
                    step == i,
            ;
            let x: i128 = step * (self.width as i128) * 1_000_000 / n;
            assert(-18_500_000_000_000 * n <= step * span_secs <= 18_500_000_000_000 * n)
                by (nonlinear_arith)
                requires
                    0 <= step <= n,
                    -18_500_000_000_000 <= span_secs <= 18_500_000_000_000,
            ;
            assert(-9_300_000_000_000 * n <= start_secs * n <= 9_300_000_000_000 * n)
                by (nonlinear_arith)
                requires
                    0 < n,
                    -9_300_000_000_000 <= start_secs <= 9_300_000_000_000,
            ;
            let total: i128 = start_secs * n + step * span_secs;
            let time: i128 = total / n;
            proof {
                if total >= 0 {
                    lemma_fundamental_div_mod(total as int, n as int);
                    assert(time <= 27_800_000_000_000) by (nonlinear_arith)
                        requires
                            total == n * time + (total as int) % (n as int),
                            0 <= (total as int) % (n as int),
                            total <= 27_800_000_000_000 * n,
                            n > 0,
                    ;
                } else {
                    lemma_fundamental_div_mod(-(total as int), n as int);
                    assert(-time <= 27_800_000_000_000) by (nonlinear_arith)
                        requires
                            -total == n * (-time) + (-(total as int)) % (n as int),
                            0 <= (-(total as int)) % (n as int),
                            -total <= 27_800_000_000_000 * n,
                            n > 0,
                    ;
                }
            }
            let time_secs: i64 = time as i64;
            let tick = Tick { x: Fixed { millionths: x }, time_secs, label: format_clock(time_secs) };
            assert(self.is_tick(i as int, tick));
            ticks.push(tick);
            if i == self.number_of_ticks {
                break;
            }
            i = i + 1;
        }
        ticks
    }
}

/// A labelled line across the plot at the height `y_pos`.
#[derive(Debug)]
pub struct YAxisLine {
    pub width: u32,
    pub y_pos: u32,
    pub label: String,
}

impl YAxisLine {
    /// The two ends of the line: at the left edge and `width` to the right
    /// of it.
    pub fn points(&self) -> (ends: Vec<(Fixed, Fixed)>)
        ensures
            ends@.len() == 2,
            ends@[0].0.millionths == 0,
            ends@[1].0.millionths == self.width * 1_000_000,
            ends@[0].1.millionths == self.y_pos * 1_000_000,
            ends@[1].1.millionths == self.y_pos * 1_000_000,
    {
        let y = Fixed::from_units(self.y_pos as i64);
        vec![(Fixed::from_units(0), y), (Fixed::from_units(self.width as i64), y)]
    }
}

/// The least x coordinate among `points[..to]`, for `to > 0`.
pub open spec fn least_x(points: Seq<GraphPoint>, to: int) -> int
    decreases to,
{
    if to <= 1 {
        points[0].x.millionths as int
    } else {
        let rest = least_x(points, to - 1);
        let last = points[to - 1].x.millionths as int;
        if last < rest {
            last
        } else {
            rest
        }
    }
}

/// The greatest x coordinate among `points[..to]`, for `to > 0`.
pub open spec fn greatest_x(points: Seq<GraphPoint>, to: int) -> int
    decreases to,
{
    if to <= 1 {
        points[0].x.millionths as int
    } else {
        let rest = greatest_x(points, to - 1);
        let last = points[to - 1].x.millionths as int;
        if last > rest {
            last
        } else {
            rest
        }
    }
}

/// The first index at or after `from` whose point lies right of the middle
/// between `low` and `high`, or the number of points where none does.
pub open spec fn first_right_of_middle(points: Seq<GraphPoint>, from: int, low: int, high: int) -> int
    decreases points.len() - from,
{
    if from >= points.len() {
        points.len() as int
    } else if 2 * points[from].x.millionths > low + high {
        from
    } else {
        first_right_of_middle(points, from + 1, low, high)
    }
}

/// Where the labels change sides: the points before this index have their
/// label written to their right, the others to their left, so that no label
/// leaves the drawing. It is the first point right of the middle between the
/// leftmost and the rightmost point, or the middle of the list where no
/// point lies there.
pub open spec fn spec_label_split(points: Seq<GraphPoint>) -> int {
    if points.len() == 0 {
        0
    } else {
        let n = points.len() as int;
        let found = first_right_of_middle(points, 0, least_x(points, n), greatest_x(points, n));
        if found < n {
            found
        } else {
            n / 2
        }
    }
}

/// No point lies left of the least or right of the greatest x coordinate.
pub proof fn lemma_x_extremes(points: Seq<GraphPoint>, to: int)
    requires
        0 < to <= points.len(),
    ensures
        forall|i: int|
            0 <= i < to ==> least_x(points, to) <= (#[trigger] points[i]).x.millionths
                <= greatest_x(points, to),
        -0x8000_0000_0000_0000_0000_0000_0000_0000 <= least_x(points, to) <= greatest_x(points, to)
            <= 0x7fff_ffff_ffff_ffff_ffff_ffff_ffff_ffff,
    decreases to,
{
    if to > 1 {
        lemma_x_extremes(points, to - 1);
    }
}

/// How far `b` lies above `a`.
fn gap(a: i128, b: i128) -> (d: u128)
    requires
        a <= b,
    ensures
        d == b - a,
{
    if a >= 0 || b < 0 {
        (b - a) as u128
    } else {
        b as u128 + ((-(a + 1)) as u128 + 1)
    }
}

/// Finds [`spec_label_split`].
pub fn label_split(points: &Vec<GraphPoint>) -> (split: usize)
    ensures
        split == spec_label_split(points@),
        split <= points@.len(),
{
    let n: usize = points.len();
    if n == 0 {
        return 0;
    }
    let mut low: i128 = points[0].x.millionths;
    let mut high: i128 = low;
    let mut i: usize = 1;
    while i < n
        invariant
            n == points@.len(),
            0 < i <= n,
            low == least_x(points@, i as int),
            high == greatest_x(points@, i as int),
        decreases n - i,
    {
        let x: i128 = points[i].x.millionths;
        if x < low {
            low = x;
        }
        if x > high {
            high = x;
        }
        i = i + 1;
    }
    proof {
        lemma_x_extremes(points@, n as int);
    }
    let mut j: usize = 0;
    while j < n && gap(low, points[j].x.millionths) <= gap(points[j].x.millionths, high)
        invariant
            n == points@.len(),
            0 <= j <= n,
            low == least_x(points@, n as int),
            high == greatest_x(points@, n as int),
            forall|i: int| 0 <= i < n ==> low <= (#[trigger] points@[i]).x.millionths <= high,
            first_right_of_middle(points@, 0, low as int, high as int) == first_right_of_middle(
                points@,
                j as int,
                low as int,
                high as int,
            ),
        decreases n - j,
    {
        j = j + 1;
    }
    if j < n {
        j
    } else {
        n / 2
    }
}

/// A point as it stands in the text of a path: x, a blank, y.
pub open spec fn point_text(point: (Fixed, Fixed)) -> Seq<char> {
    fixed_text(point.0.millionths as int) + seq![' '] + fixed_text(point.1.millionths as int)
}

/// The text of the path through `points[..to]`: `M` and the first point, and
/// for each further point a blank, `L` and the point.
pub open spec fn path_text(points: Seq<(Fixed, Fixed)>, to: int) -> Seq<char>
    decreases to,
{
    if to <= 0 {
        Seq::<char>::empty()
    } else if to == 1 {
        seq!['M'] + point_text(points[0])
    } else {
        path_text(points, to - 1) + seq![' ', 'L'] + point_text(points[to - 1])
    }
}

/// The text of the path through `points`, as the attribute `d` of an SVG path
/// takes it.
pub fn path_data(points: &Vec<(Fixed, Fixed)>) -> (text: String)
    ensures
        text@ == path_text(points@, points@.len() as int),
{
    let mut text = String::new();
    let mut i: usize = 0;
    proof {
        reveal_strlit("M");
        reveal_strlit(" L");
        reveal_strlit(" ");
    }
    while i < points.len()
        invariant
            0 <= i <= points@.len(),
            text@ == path_text(points@, i as int),
            "M"@ == seq!['M'],
            " L"@ == seq![' ', 'L'],
            " "@ == seq![' '],
        decreases points@.len() - i,
    {
        if i == 0 {
            text.append("M");
        } else {
            text.append(" L");
        }
        let x = points[i].0.to_text();
        let y = points[i].1.to_text();
        text.append(x.as_str());
        text.append(" ");
        text.append(y.as_str());
        assert(text@ =~= path_text(points@, i + 1));
        i = i + 1;
    }
    text
}

} // verus!
