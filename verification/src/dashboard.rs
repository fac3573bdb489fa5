//! The numbers and the plot that the page of a site or of a page shows.

use vstd::prelude::*;
use crate::checkin::Checkin;
use crate::checkin::all_timed;
use crate::graph::Plot;
use crate::graph::SampledCheckinGraph;
use crate::graph::SampledSeries;
use crate::graph::TimeRange;
use crate::stats::Change;
use crate::stats::Emotion;
use crate::stats::avg_response_time;
use crate::stats::avg_response_time_for_checkins;
use crate::stats::calculate_percentile_change;
use crate::stats::calculate_response_time_change;
use crate::stats::has_change;
use crate::stats::is_change;
use crate::stats::one_decimal_text;
use crate::stats::success_percent;
use crate::stats::success_percent_for_checkins;
use crate::window::previous_end;
use crate::window::recent_end;
use crate::window::reversed;
use crate::window::split_windows;
use crate::window::lemma_first_before;

verus! {

/// Into how many buckets the plot of a page samples its checkins.
pub const GRAPH_CHUNKS: usize = 20;

/// The recent window of the overview of a site: thirty days, in
/// microseconds.
pub const SITE_RECENT_SPAN: i64 = 2_592_000_000_000;

/// The recent window of the page of a page as it is first shown: six hours,
/// in microseconds.
pub const PAGE_RECENT_SPAN: i64 = 21_600_000_000;

/// The statistics of the recent window, as they are shown, and how each
/// moved against the window before.
#[derive(Debug)]
pub struct StatsOverview {
    /// How many checkins the recent window holds.
    pub checkins: usize,
    /// The average response time, such as `12.3 ms`; `None` without data.
    pub avg_response_time: Option<String>,
    pub response_time_change: Option<Change>,
    /// The success rate, such as `99.1%`; `None` without data.
    pub success_rate: Option<String>,
    pub success_rate_change: Option<Change>,
}

/// What is shown for the average response time of `checkins`.
pub open spec fn avg_response_time_text(checkins: Seq<Checkin>) -> Option<Seq<char>> {
    if checkins.len() == 0 {
        None
    } else {
        Some(one_decimal_text(avg_response_time(checkins)) + " ms"@)
    }
}

/// What is shown for the success rate of `checkins`.
pub open spec fn success_rate_text(checkins: Seq<Checkin>) -> Option<Seq<char>> {
    if checkins.len() == 0 {
        None
    } else {
        Some(one_decimal_text(success_percent(checkins)) + "%"@)
    }
}

/// A text that may be missing, as plain values.
pub open spec fn text_of(text: Option<String>) -> Option<Seq<char>> {
    match text {
        Some(t) => Some(t@),
        None => None,
    }
}

/// Whether `change` is what is reported of a statistic that was `before`
/// over `previous` and is `after` over `recent`: a change where both windows
/// hold data and the statistic moved, and nothing otherwise.
pub open spec fn reports(
    change: Option<Change>,
    previous: Seq<Checkin>,
    recent: Seq<Checkin>,
    before: int,
    after: int,
    rising: Emotion,
) -> bool {
    match change {
        Some(c) => previous.len() > 0 && recent.len() > 0 && has_change(before, after)
            && is_change(c, before, after, rising),
        None => !(previous.len() > 0 && recent.len() > 0 && has_change(before, after)),
    }
}

impl StatsOverview {
    /// Whether this is the overview of the window `recent`, set against the
    /// window `previous`.
    pub open spec fn summarises(self, recent: Seq<Checkin>, previous: Seq<Checkin>) -> bool {
        &&& self.checkins == recent.len()
        &&& text_of(self.avg_response_time) == avg_response_time_text(recent)
        &&& reports(
            self.response_time_change,
            previous,
            recent,
            avg_response_time(previous),
            avg_response_time(recent),
            Emotion::Sad,
        )
        &&& text_of(self.success_rate) == success_rate_text(recent)
        &&& reports(
            self.success_rate_change,
            previous,
            recent,
            success_percent(previous),
            success_percent(recent),
            Emotion::Happy,
        )
    }

    /// The overview of the window `new_checkins`, set against the window
    /// `old_checkins`.
    pub fn of(new_checkins: &[Checkin], old_checkins: &[Checkin]) -> (overview: StatsOverview)
        ensures
            overview.summarises(new_checkins@, old_checkins@),
    {
        let avg_response_time = match avg_response_time_for_checkins(new_checkins) {
            Some(average) => {
                let mut text = average.to_one_decimal();
                text.append(" ms");
                Some(text)
            },
            None => None,
        };
        let success_rate = match success_percent_for_checkins(new_checkins) {
            Some(rate) => {
                let mut text = rate.to_one_decimal();
                text.append("%");
                Some(text)
            },
            None => None,
        };
        StatsOverview {
            checkins: new_checkins.len(),
            avg_response_time,
            response_time_change: calculate_response_time_change(old_checkins, new_checkins),
            success_rate,
            success_rate_change: calculate_percentile_change(old_checkins, new_checkins),
        }
    }
}

/// The overview of a site: the statistics of the checkins of the last
/// `recent_span` microseconds before `now`, set against those of the span
/// before. `all_checkins` runs from the newest to the oldest.
pub fn site_stats_overview(all_checkins: &[Checkin], now: i64, recent_span: i64) -> (overview:
    StatsOverview)
    ensures
        overview.summarises(
            all_checkins@.subrange(0, recent_end(all_checkins@, now as int, recent_span as int)),
            all_checkins@.subrange(
                recent_end(all_checkins@, now as int, recent_span as int),
                previous_end(all_checkins@, now as int, recent_span as int),
            ),
        ),
{
    let windows = split_windows(all_checkins, now, recent_span);
    StatsOverview::of(windows.recent.as_slice(), windows.previous.as_slice())
}

/// What the page of a page shows: the overview and the plot of the recent
/// window.
pub struct PageDashboard {
    pub overview: StatsOverview,
    /// The plot; `None` where the recent window holds no checkin.
    pub graph: Option<Plot>,
}

/// What the plot of a page samples: the recent window from the oldest
/// checkin to the newest, in twenty buckets, over the time from
/// `now - recent_span` to `now`.
pub open spec fn page_series(recent: Seq<Checkin>, now: i64, recent_span: i64) -> SampledSeries {
    SampledSeries {
        checkins: recent.reverse(),
        chunks: GRAPH_CHUNKS as int,
        range: Some(TimeRange { start: (now - recent_span) as i64, end: now }),
    }
}

/// What the page of a page shows for the timed checkins `all_checkins`,
/// which run from the newest to the oldest.
pub fn page_dashboard(all_checkins: &[Checkin], now: i64, recent_span: i64) -> (dashboard:
    PageDashboard)
    requires
        all_timed(all_checkins@),
        i64::MIN <= now - recent_span <= i64::MAX,
    ensures
        dashboard.overview.summarises(
            all_checkins@.subrange(0, recent_end(all_checkins@, now as int, recent_span as int)),
            all_checkins@.subrange(
                recent_end(all_checkins@, now as int, recent_span as int),
                previous_end(all_checkins@, now as int, recent_span as int),
            ),
        ),
        dashboard.graph is None <==> recent_end(all_checkins@, now as int, recent_span as int) == 0,
        dashboard.graph matches Some(plot) ==> page_series(
            all_checkins@.subrange(0, recent_end(all_checkins@, now as int, recent_span as int)),
            now,
            recent_span,
        ).is_plot(plot),
{
    proof {
        lemma_first_before(all_checkins@, 0, now - recent_span);
    }
    let windows = split_windows(all_checkins, now, recent_span);
    let overview = StatsOverview::of(windows.recent.as_slice(), windows.previous.as_slice());
    let graph = SampledCheckinGraph {
        checkins: reversed(windows.recent.as_slice()),
        number_of_chunks: GRAPH_CHUNKS,
        range: Some(TimeRange { start: now - recent_span, end: now }),
    };
    assert(graph@ == page_series(windows.recent@, now, recent_span));
    PageDashboard { overview, graph: graph.plot() }
}

} // verus!
