//! Statistics over a window of checkins, and how they moved against the
//! window before it.
//!
//! A change is reported with one convention for both statistics. Its
//! direction says how the number itself moved: an increase is a number that
//! went up. Its sentiment depends on the statistic: a response time that
//! went up is bad news, a success rate that went up is good news.

use vstd::prelude::*;
use vstd::arithmetic::div_mod::lemma_fundamental_div_mod;
use crate::checkin::Checkin;
use crate::checkin::Outcome;
use crate::fixed::Fixed;
use crate::fixed::decimal_text;
use crate::fixed::digit_char;
use crate::fixed::floor_div;
use crate::fixed::push_decimal;
use crate::series::greatest_duration;
use crate::series::least_duration;
use crate::series::lemma_total_between_extremes;
use crate::series::total_duration;

verus! {

/// The direction in which a statistic moved.
#[derive(Clone, Copy, Debug, PartialEq, Eq, Structural)]
pub enum Diff {
    Increase,
    Decrease,
}

/// Whether a movement is good or bad news.
#[derive(Clone, Copy, Debug, PartialEq, Eq, Structural)]
pub enum Emotion {
    Happy,
    Sad,
}

/// How a statistic moved against the window before: by how much, as a
/// percentage with one decimal, in which direction, and whether that is
/// welcome.
#[derive(Debug)]
pub struct Change {
    pub value: String,
    pub diff: Diff,
    pub emotion: Emotion,
}

impl Change {
    /// The icon for the direction.
    pub fn icon_class(&self) -> (class: &'static str)
        ensures
            class@ == (match self.diff {
                Diff::Increase => "fa-arrow-up"@,
                Diff::Decrease => "fa-arrow-down"@,
            }),
    {
        match self.diff {
            Diff::Increase => "fa-arrow-up",
            Diff::Decrease => "fa-arrow-down",
        }
    }

    /// The words that a screen reader says before the value.
    pub fn screen_reader_text(&self) -> (text: &'static str)
        ensures
            text@ == (match self.diff {
                Diff::Increase => "Increased by"@,
                Diff::Decrease => "Decreased by"@,
            }),
    {
        match self.diff {
            Diff::Increase => "Increased by",
            Diff::Decrease => "Decreased by",
        }
    }
}

impl Emotion {
    /// The colour in which the change is shown.
    pub fn color_class(&self) -> (class: &'static str)
        ensures
            class@ == (match self {
                Emotion::Happy => "text-green-600"@,
                Emotion::Sad => "text-red-600"@,
            }),
    {
        match self {
            Emotion::Happy => "text-green-600",
            Emotion::Sad => "text-red-600",
        }
    }

    /// The sentiment of the opposite movement.
    pub open spec fn spec_opposite(self) -> Emotion {
        match self {
            Emotion::Happy => Emotion::Sad,
            Emotion::Sad => Emotion::Happy,
        }
    }

    /// The sentiment of the opposite movement.
    pub fn opposite(&self) -> (other: Emotion)
        ensures
            other == self.spec_opposite(),
    {
        match self {
            Emotion::Happy => Emotion::Sad,
            Emotion::Sad => Emotion::Happy,
        }
    }
}

/// The weight of an icon.
#[derive(Clone, Copy, Debug, PartialEq, Eq, Structural)]
pub enum IconStyle {
    Solid,
    Regular,
    Light,
}

impl IconStyle {
    /// The class that selects the weight.
    pub fn class_name(&self) -> (class: &'static str)
        ensures
            class@ == (match self {
                IconStyle::Solid => "fa-solid"@,
                IconStyle::Regular => "fa-regular"@,
                IconStyle::Light => "fa-light"@,
            }),
    {
        match self {
            IconStyle::Solid => "fa-solid",
            IconStyle::Regular => "fa-regular",
            IconStyle::Light => "fa-light",
        }
    }
}

/// How many of `checkins[..to]` are successes.
pub open spec fn count_successes(checkins: Seq<Checkin>, to: int) -> int
    decreases to,
{
    if to <= 0 {
        0
    } else {
        count_successes(checkins, to - 1) + if checkins[to - 1].outcome == Outcome::Success {
            1int
        } else {
            0int
        }
    }
}

/// The success rate of `checkins` in millionths of a percent, rounded down:
/// a hundred times the successes, over the number of checkins. Meaningful
/// for a series that is not empty.
pub open spec fn success_percent(checkins: Seq<Checkin>) -> int {
    100_000_000 * count_successes(checkins, checkins.len() as int) / (checkins.len() as int)
}

/// The average response time of `checkins` in millionths of a millisecond,
/// which are nanoseconds, rounded down: the sum of the recorded durations
/// over the number of checkins, with or without a duration. Meaningful for a
/// series that is not empty.
pub open spec fn avg_response_time(checkins: Seq<Checkin>) -> int {
    total_duration(checkins, 0, checkins.len() as int) / (checkins.len() as int)
}

/// No more checkins succeed than there are.
pub proof fn lemma_count_successes_bounds(checkins: Seq<Checkin>, to: int)
    requires
        0 <= to <= checkins.len(),
    ensures
        0 <= count_successes(checkins, to) <= to,
        count_successes(checkins, to) == to <==> forall|i: int|
            0 <= i < to ==> (#[trigger] checkins[i]).outcome == Outcome::Success,
        count_successes(checkins, to) == 0 <==> forall|i: int|
            0 <= i < to ==> (#[trigger] checkins[i]).outcome != Outcome::Success,
    decreases to,
{
    if to > 0 {
        lemma_count_successes_bounds(checkins, to - 1);
        if count_successes(checkins, to) == to {
            assert forall|i: int| 0 <= i < to implies (#[trigger] checkins[i]).outcome
                == Outcome::Success by {
                if i < to - 1 {
                } else {
                    assert(checkins[to - 1].outcome == Outcome::Success);
                }
            }
        }
        if count_successes(checkins, to) == 0 {
            assert forall|i: int| 0 <= i < to implies (#[trigger] checkins[i]).outcome
                != Outcome::Success by {
                if i < to - 1 {
                } else {
                    assert(checkins[to - 1].outcome != Outcome::Success);
                }
            }
        }
    }
}

/// The success rate of a series in which every probe succeeded is exactly
/// 100 percent, and that of a series in which none did is exactly 0.
pub proof fn lemma_success_percent_extremes(checkins: Seq<Checkin>)
    requires
        checkins.len() > 0,
    ensures
        (forall|i: int| 0 <= i < checkins.len() ==> (#[trigger] checkins[i]).outcome == Outcome::Success)
            ==> success_percent(checkins) == 100_000_000,
        (forall|i: int| 0 <= i < checkins.len() ==> (#[trigger] checkins[i]).outcome != Outcome::Success)
            ==> success_percent(checkins) == 0,
{
    let n = checkins.len() as int;
    lemma_count_successes_bounds(checkins, n);
    let s = count_successes(checkins, n);
    if s == n {
        assert(100_000_000 * n / n == 100_000_000) by (nonlinear_arith)
            requires
                n > 0,
        ;
    }
    if s == 0 {
        assert(100_000_000 * 0int / n == 0) by (nonlinear_arith)
            requires
                n > 0,
        ;
    }
}

/// The average response time of a series lies between its least and its
/// greatest duration, a checkin without a duration counting as one of no
/// time at all.
pub proof fn lemma_average_between_extremes(checkins: Seq<Checkin>)
    requires
        checkins.len() > 0,
    ensures
        least_duration(checkins, 0, checkins.len() as int) <= avg_response_time(checkins)
            <= greatest_duration(checkins, 0, checkins.len() as int),
{
    let n = checkins.len() as int;
    let sum = total_duration(checkins, 0, n);
    let low = least_duration(checkins, 0, n);
    let high = greatest_duration(checkins, 0, n);
    lemma_total_between_extremes(checkins, 0, n);
    lemma_fundamental_div_mod(sum, n);
    assert(low <= sum / n <= high) by (nonlinear_arith)
        requires
            n * low <= sum <= n * high,
            sum == n * (sum / n) + sum % n,
            0 <= sum % n < n,
            n >= 1,
    ;
}

/// The success rate of `checkins` in percent, or `None` for an empty series,
/// which has none.
pub fn success_percent_for_checkins(checkins: &[Checkin]) -> (rate: Option<Fixed>)
    ensures
        checkins@.len() == 0 ==> rate is None,
        checkins@.len() > 0 ==> rate == Some(Fixed { millionths: success_percent(checkins@) as i128 }),
        rate matches Some(r) ==> 0 <= r.millionths <= 100_000_000 && r.millionths == success_percent(
            checkins@,
        ),
{
    let n: usize = checkins.len();
    if n == 0 {
        return None;
    }
    let mut successes: usize = 0;
    let mut i: usize = 0;
    while i < n
        invariant
            n == checkins@.len(),
            0 <= i <= n,
            successes == count_successes(checkins@, i as int),
            successes <= i,
        decreases n - i,
    {
        if checkins[i].outcome == Outcome::Success {
            successes = successes + 1;
        }
        i = i + 1;
    }
    let scaled: u128 = 100_000_000 * (successes as u128);
    let rate: u128 = scaled / (n as u128);
    proof {
        lemma_fundamental_div_mod(scaled as int, n as int);
        let r = (scaled as int) % (n as int);
        assert(0 <= rate <= 100_000_000) by (nonlinear_arith)
            requires
                scaled == n * rate + r,
                0 <= r < n,
                scaled == 100_000_000 * successes,
                0 <= successes <= n,
        ;
    }
    Some(Fixed { millionths: rate as i128 })
}

/// The average response time of `checkins` in milliseconds, or `None` for an
/// empty series, which has none.
pub fn avg_response_time_for_checkins(checkins: &[Checkin]) -> (average: Option<Fixed>)
    ensures
        checkins@.len() == 0 ==> average is None,
        checkins@.len() > 0 ==> average == Some(
            Fixed { millionths: avg_response_time(checkins@) as i128 },
        ),
        average matches Some(a) ==> a.millionths == avg_response_time(checkins@)
            && -0x8000_0000_0000_0000 <= a.millionths <= 0x7fff_ffff_ffff_ffff,
{
    let n: usize = checkins.len();
    if n == 0 {
        return None;
    }
    let mut total: i128 = 0;
    let mut i: usize = 0;
    while i < n
        invariant
            n == checkins@.len(),
            0 <= i <= n,
            total == total_duration(checkins@, 0, i as int),
            -i * 0x8000_0000_0000_0000 <= total <= i * 0x7fff_ffff_ffff_ffff,
        decreases n - i,
    {
        match checkins[i].duration_nanos {
            Some(nanos) => {
                total = total + nanos as i128;
            },
            None => {},
        }
        i = i + 1;
    }
    let average = floor_div(total, n as i128);
    proof {
        lemma_fundamental_div_mod(total as int, n as int);
        let r = (total as int) % (n as int);
        assert(-0x8000_0000_0000_0000 <= average <= 0x7fff_ffff_ffff_ffff) by (nonlinear_arith)
            requires
                total == n * average + r,
                0 <= r < n,
                -n * 0x8000_0000_0000_0000 <= total <= n * 0x7fff_ffff_ffff_ffff,
        ;
    }
    Some(Fixed { millionths: average })
}

/// `x` without its sign.
pub open spec fn magnitude(x: int) -> int {
    if x < 0 {
        -x
    } else {
        x
    }
}

/// The quotient of `num` by `den`, rounded to the nearest whole number, and
/// to the even one of the two where it lies halfway between them; for
/// `num >= 0` and `den > 0`.
pub open spec fn round_half_even(num: int, den: int) -> int {
    let q = num / den;
    let r = num % den;
    if 2 * r < den || (2 * r == den && q % 2 == 0) {
        q
    } else {
        q + 1
    }
}

/// A number of tenths as text with one decimal: `123` is `12.3`.
pub open spec fn tenths_text(tenths: nat) -> Seq<char> {
    decimal_text(tenths / 10) + seq!['.', digit_char((tenths % 10) as int)]
}

/// A fixed-point number as text, rounded to one decimal, halves to the even
/// digit. A negative number keeps its sign where it rounds to zero.
pub open spec fn one_decimal_text(millionths: int) -> Seq<char> {
    let sign = if millionths < 0 {
        seq!['-']
    } else {
        Seq::<char>::empty()
    };
    sign + tenths_text(round_half_even(magnitude(millionths), 100_000) as nat)
}

/// Whether a statistic that was `previous` and is `recent` moved enough to
/// be reported: there is no movement relative to zero, and a movement of
/// less than a hundred-thousandth of a percent is none.
pub open spec fn has_change(previous: int, recent: int) -> bool {
    previous != 0 && magnitude(recent - previous) * 10_000_000 >= magnitude(previous)
}

/// By how much a statistic moved, relative to what it was before, in tenths
/// of a percent.
pub open spec fn change_tenths(previous: int, recent: int) -> int {
    round_half_even(magnitude(recent - previous) * 1000, magnitude(previous))
}

/// Whether `change` reports the movement from `previous` to `recent` of a
/// statistic whose rise has the sentiment `rising`.
pub open spec fn is_change(change: Change, previous: int, recent: int, rising: Emotion) -> bool {
    &&& change.value@ == tenths_text(change_tenths(previous, recent) as nat) + seq!['%']
    &&& change.diff == if recent > previous {
        Diff::Increase
    } else {
        Diff::Decrease
    }
    &&& change.emotion == if recent > previous {
        rising
    } else {
        rising.spec_opposite()
    }
}

/// Computes [`round_half_even`].
pub fn round_div(num: u128, den: u128) -> (q: u128)
    requires
        den > 0,
    ensures
        q == round_half_even(num as int, den as int),
{
    let whole: u128 = num / den;
    let rest: u128 = num % den;
    proof {
        lemma_fundamental_div_mod(num as int, den as int);
        if rest != 0 {
            assert(whole <= 0x7fff_ffff_ffff_ffff_ffff_ffff_ffff_ffff) by (nonlinear_arith)
                requires
                    num == den * whole + rest,
                    0 < rest < den,
                    num <= 0xffff_ffff_ffff_ffff_ffff_ffff_ffff_ffff,
            ;
        }
    }
    let other: u128 = den - rest;
    if rest < other || (rest == other && whole % 2 == 0) {
        whole
    } else {
        whole + 1
    }
}

/// Appends a number of tenths as text with one decimal.
pub fn push_tenths(text: &mut String, tenths: u128)
    ensures
        final(text)@ == old(text)@ + tenths_text(tenths as nat),
{
    push_decimal(text, tenths / 10);
    text.append(".");
    push_decimal(text, tenths % 10);
    proof {
        reveal_strlit(".");
        let last = (tenths % 10) as nat;
        assert(decimal_text(last) =~= seq![digit_char(last as int)]);
        assert(text@ =~= old(text)@ + tenths_text(tenths as nat));
    }
}

impl Fixed {
    /// The number as text, rounded to one decimal.
    pub fn to_one_decimal(&self) -> (text: String)
        ensures
            text@ == one_decimal_text(self.millionths as int),
    {
        let mut text = String::new();
        let size: u128 = if self.millionths < 0 {
            text.append("-");
            (-(self.millionths + 1)) as u128 + 1
        } else {
            self.millionths as u128
        };
        proof {
            reveal_strlit("-");
        }
        let ghost sign = text@;
        assert(sign =~= if self.millionths < 0 {
            seq!['-']
        } else {
            Seq::<char>::empty()
        });
        push_tenths(&mut text, round_div(size, 100_000));
        text
    }
}

/// Reports the movement of a statistic from `previous` to `recent`, if it
/// moved; `rising` is the sentiment of a rise.
pub fn relative_change(previous: i64, recent: i64, rising: Emotion) -> (change: Option<Change>)
    ensures
        change is Some <==> has_change(previous as int, recent as int),
        change matches Some(c) ==> is_change(c, previous as int, recent as int, rising),
{
    if previous == 0 {
        return None;
    }
    let base: u128 = if previous < 0 {
        (-(previous as i128)) as u128
    } else {
        previous as u128
    };
    let moved: u128 = if recent >= previous {
        (recent as i128 - previous as i128) as u128
    } else {
        (previous as i128 - recent as i128) as u128
    };
    if moved * 10_000_000 < base {
        return None;
    }
    let mut value = String::new();
    push_tenths(&mut value, round_div(moved * 1000, base));
    value.append("%");
    proof {
        reveal_strlit("%");
        assert(value@ =~= tenths_text(change_tenths(previous as int, recent as int) as nat)
            + seq!['%']);
    }
    if recent > previous {
        Some(Change { value, diff: Diff::Increase, emotion: rising })
    } else {
        Some(Change { value, diff: Diff::Decrease, emotion: rising.opposite() })
    }
}

/// A fixed-point statistic that fits 64 bits, as its count of millionths.
fn narrow(value: Fixed) -> (millionths: i64)
    requires
        -0x8000_0000_0000_0000 <= value.millionths <= 0x7fff_ffff_ffff_ffff,
    ensures
        millionths == value.millionths,
{
    value.millionths as i64
}

/// How the average response time moved from `old_checkins` to
/// `new_checkins`. A response time that went up is bad news.
///
/// There is nothing to report where either series is empty or the average
/// did not move.
pub fn calculate_response_time_change(old_checkins: &[Checkin], new_checkins: &[Checkin]) -> (change:
    Option<Change>)
    ensures
        change is Some <==> old_checkins@.len() > 0 && new_checkins@.len() > 0 && has_change(
            avg_response_time(old_checkins@),
            avg_response_time(new_checkins@),
        ),
        change matches Some(c) ==> is_change(
            c,
            avg_response_time(old_checkins@),
            avg_response_time(new_checkins@),
            Emotion::Sad,
        ),
{
    match (avg_response_time_for_checkins(old_checkins), avg_response_time_for_checkins(new_checkins)) {
        (Some(previous), Some(recent)) => relative_change(
            narrow(previous),
            narrow(recent),
            Emotion::Sad,
        ),
        _ => None,
    }
}

/// How the success rate moved from `old_checkins` to `new_checkins`. A
/// success rate that went up is good news.
///
/// There is nothing to report where either series is empty, where no probe
/// of `old_checkins` succeeded, or where the rate did not move.
pub fn calculate_percentile_change(old_checkins: &[Checkin], new_checkins: &[Checkin]) -> (change:
    Option<Change>)
    ensures
        change is Some <==> old_checkins@.len() > 0 && new_checkins@.len() > 0 && has_change(
            success_percent(old_checkins@),
            success_percent(new_checkins@),
        ),
        change matches Some(c) ==> is_change(
            c,
            success_percent(old_checkins@),
            success_percent(new_checkins@),
            Emotion::Happy,
        ),
{
    match (success_percent_for_checkins(old_checkins), success_percent_for_checkins(new_checkins)) {
        (Some(previous), Some(recent)) => relative_change(
            narrow(previous),
            narrow(recent),
            Emotion::Happy,
        ),
        _ => None,
    }
}

} // verus!
