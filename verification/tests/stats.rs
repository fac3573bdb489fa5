use status::checkin::Checkin;
use status::checkin::Outcome;
use status::dashboard::site_stats_overview;
use status::dashboard::StatsOverview;
use status::fixed::Fixed;
use status::stats::avg_response_time_for_checkins;
use status::stats::calculate_percentile_change;
use status::stats::calculate_response_time_change;
use status::stats::relative_change;
use status::stats::round_div;
use status::stats::success_percent_for_checkins;
use status::stats::Change;
use status::stats::Diff;
use status::stats::Emotion;
use status::stats::IconStyle;
use status::window::reversed;
use status::window::split_point;
use status::window::split_windows;

const MS: i64 = 1_000_000;

fn ok(at: i64, nanos: i64) -> Checkin {
    Checkin {
        checkin_id: 0,
        page_id: 1,
        outcome: Outcome::Success,
        status_code: Some(200),
        duration_nanos: Some(nanos),
        created_at: at,
    }
}

fn bad(at: i64, nanos: i64) -> Checkin {
    Checkin {
        checkin_id: 0,
        page_id: 1,
        outcome: Outcome::Failure,
        status_code: Some(500),
        duration_nanos: Some(nanos),
        created_at: at,
    }
}

fn lost(at: i64) -> Checkin {
    Checkin {
        checkin_id: 0,
        page_id: 1,
        outcome: Outcome::Error,
        status_code: None,
        duration_nanos: None,
        created_at: at,
    }
}

fn parts(change: &Change) -> (&str, Diff, Emotion) {
    (change.value.as_str(), change.diff, change.emotion)
}

#[test]
fn statistics_of_no_checkins_are_no_data() {
    assert_eq!(avg_response_time_for_checkins(&[]), None);
    assert_eq!(success_percent_for_checkins(&[]), None);
}

#[test]
fn success_rate_of_all_successes_is_one_hundred() {
    let all = [ok(0, MS), ok(1, MS), ok(2, MS)];
    let rate = success_percent_for_checkins(&all).unwrap();
    assert_eq!(rate, Fixed { millionths: 100_000_000 });
    assert_eq!(rate.to_one_decimal(), "100.0");
}

#[test]
fn success_rate_of_all_failures_is_zero() {
    let all = [bad(0, MS), lost(1), bad(2, MS)];
    let rate = success_percent_for_checkins(&all).unwrap();
    assert_eq!(rate, Fixed { millionths: 0 });
    assert_eq!(rate.to_one_decimal(), "0.0");
}

#[test]
fn success_rate_is_a_hundred_times_successes_over_count() {
    let all = [ok(0, MS), bad(1, MS), ok(2, MS), ok(3, MS)];
    assert_eq!(success_percent_for_checkins(&all), Some(Fixed { millionths: 75_000_000 }));
    let thirds = [ok(0, MS), bad(1, MS), lost(2)];
    assert_eq!(success_percent_for_checkins(&thirds), Some(Fixed { millionths: 33_333_333 }));
    let two_thirds = [ok(0, MS), ok(1, MS), lost(2)];
    assert_eq!(success_percent_for_checkins(&two_thirds), Some(Fixed { millionths: 66_666_666 }));
}

#[test]
fn average_of_ten_twenty_and_thirty_milliseconds_is_twenty() {
    let all = [ok(0, 10 * MS), ok(1, 20 * MS), ok(2, 30 * MS)];
    let average = avg_response_time_for_checkins(&all).unwrap();
    assert_eq!(average, Fixed { millionths: 20_000_000 });
    assert_eq!(average.to_one_decimal(), "20.0");
}

#[test]
fn average_counts_checkins_without_a_duration() {
    let all = [ok(0, 30 * MS), lost(1), ok(2, 30 * MS)];
    assert_eq!(avg_response_time_for_checkins(&all), Some(Fixed { millionths: 20_000_000 }));
}

#[test]
fn average_is_rounded_down_to_the_nanosecond() {
    let all = [ok(0, 1), ok(1, 2), ok(2, 2)];
    assert_eq!(avg_response_time_for_checkins(&all), Some(Fixed { millionths: 1 }));
    let below = [bad(0, -1), bad(1, -2), bad(2, -2)];
    assert_eq!(avg_response_time_for_checkins(&below), Some(Fixed { millionths: -2 }));
}

#[test]
fn average_of_the_longest_durations_does_not_overflow() {
    let all = [ok(0, i64::MAX), ok(1, i64::MAX), ok(2, i64::MAX)];
    assert_eq!(
        avg_response_time_for_checkins(&all),
        Some(Fixed { millionths: i64::MAX as i128 })
    );
}

#[test]
fn halves_round_to_the_even_neighbour() {
    assert_eq!(round_div(5, 10), 0);
    assert_eq!(round_div(15, 10), 2);
    assert_eq!(round_div(25, 10), 2);
    assert_eq!(round_div(35, 10), 4);
    assert_eq!(round_div(14, 10), 1);
    assert_eq!(round_div(16, 10), 2);
    assert_eq!(round_div(7, 1), 7);
    assert_eq!(round_div(u128::MAX, 1), u128::MAX);
    assert_eq!(round_div(u128::MAX, u128::MAX), 1);
    assert_eq!(round_div(u128::MAX - 1, u128::MAX), 1);
    assert_eq!(round_div(1, u128::MAX), 0);
    assert_eq!(round_div(0, 3), 0);
}

#[test]
fn one_decimal_text_rounds_halves_to_even() {
    assert_eq!(Fixed { millionths: 250_000 }.to_one_decimal(), "0.2");
    assert_eq!(Fixed { millionths: 350_000 }.to_one_decimal(), "0.4");
    assert_eq!(Fixed { millionths: 150_000 }.to_one_decimal(), "0.2");
    assert_eq!(Fixed { millionths: 50_000 }.to_one_decimal(), "0.0");
    assert_eq!(Fixed { millionths: 50_001 }.to_one_decimal(), "0.1");
    assert_eq!(Fixed { millionths: 12_349_999 }.to_one_decimal(), "12.3");
    assert_eq!(Fixed { millionths: 999_950_000 }.to_one_decimal(), "1000.0");
    assert_eq!(Fixed { millionths: 99_949_999 }.to_one_decimal(), "99.9");
}

#[test]
fn one_decimal_text_keeps_the_sign() {
    assert_eq!(Fixed { millionths: -1_500_000 }.to_one_decimal(), "-1.5");
    assert_eq!(Fixed { millionths: -40_000 }.to_one_decimal(), "-0.0");
    assert_eq!(
        Fixed { millionths: i128::MIN }.to_one_decimal(),
        "-170141183460469231731687303715884.1"
    );
}

#[test]
fn rise_of_the_response_time_is_bad_news() {
    let change = relative_change(100, 150, Emotion::Sad).unwrap();
    assert_eq!(parts(&change), ("50.0%", Diff::Increase, Emotion::Sad));
}

#[test]
fn fall_of_the_response_time_is_good_news() {
    let change = relative_change(200, 100, Emotion::Sad).unwrap();
    assert_eq!(parts(&change), ("50.0%", Diff::Decrease, Emotion::Happy));
}

#[test]
fn rise_of_the_success_rate_is_good_news() {
    let change = relative_change(50_000_000, 75_000_000, Emotion::Happy).unwrap();
    assert_eq!(parts(&change), ("50.0%", Diff::Increase, Emotion::Happy));
}

#[test]
fn fall_of_the_success_rate_is_bad_news() {
    let change = relative_change(100_000_000, 90_000_000, Emotion::Happy).unwrap();
    assert_eq!(parts(&change), ("10.0%", Diff::Decrease, Emotion::Sad));
}

#[test]
fn change_is_relative_to_what_was_before() {
    let change = relative_change(3, 4, Emotion::Sad).unwrap();
    assert_eq!(change.value, "33.3%");
    let change = relative_change(4, 3, Emotion::Sad).unwrap();
    assert_eq!(change.value, "25.0%");
    let change = relative_change(1, 1_000, Emotion::Sad).unwrap();
    assert_eq!(change.value, "99900.0%");
    let change = relative_change(-4, -3, Emotion::Sad).unwrap();
    assert_eq!(parts(&change), ("25.0%", Diff::Increase, Emotion::Sad));
}

#[test]
fn no_change_where_nothing_moved() {
    assert!(relative_change(100, 100, Emotion::Sad).is_none());
    assert!(relative_change(-5, -5, Emotion::Happy).is_none());
}

#[test]
fn no_change_relative_to_zero() {
    assert!(relative_change(0, 100, Emotion::Sad).is_none());
    assert!(relative_change(0, 0, Emotion::Sad).is_none());
    assert!(relative_change(0, -1, Emotion::Happy).is_none());
}

#[test]
fn no_change_below_a_hundred_thousandth_of_a_percent() {
    assert!(relative_change(100_000_000, 100_000_009, Emotion::Sad).is_none());
    assert!(relative_change(100_000_000, 99_999_991, Emotion::Sad).is_none());
    let change = relative_change(100_000_000, 100_000_010, Emotion::Sad).unwrap();
    assert_eq!(parts(&change), ("0.0%", Diff::Increase, Emotion::Sad));
}

#[test]
fn change_across_the_whole_range_does_not_overflow() {
    let change = relative_change(i64::MIN, i64::MAX, Emotion::Sad).unwrap();
    assert_eq!(parts(&change), ("200.0%", Diff::Increase, Emotion::Sad));
    let change = relative_change(1, i64::MIN, Emotion::Happy).unwrap();
    assert_eq!(change.value, "922337203685477580900.0%");
    assert_eq!(change.diff, Diff::Decrease);
    assert_eq!(change.emotion, Emotion::Sad);
}

#[test]
fn response_time_change_compares_the_two_averages() {
    let old = [ok(0, 10 * MS), ok(1, 30 * MS)];
    let new = [ok(2, 30 * MS), lost(3), ok(4, 60 * MS)];
    let change = calculate_response_time_change(&old, &new).unwrap();
    assert_eq!(parts(&change), ("50.0%", Diff::Increase, Emotion::Sad));
    let change = calculate_response_time_change(&new, &old).unwrap();
    assert_eq!(parts(&change), ("33.3%", Diff::Decrease, Emotion::Happy));
}

#[test]
fn success_rate_change_compares_the_two_rates() {
    let old = [ok(0, MS), bad(1, MS), ok(2, MS), bad(3, MS)];
    let new = [ok(4, MS), ok(5, MS), ok(6, MS), bad(7, MS)];
    let change = calculate_percentile_change(&old, &new).unwrap();
    assert_eq!(parts(&change), ("50.0%", Diff::Increase, Emotion::Happy));
    let change = calculate_percentile_change(&new, &old).unwrap();
    assert_eq!(parts(&change), ("33.3%", Diff::Decrease, Emotion::Sad));
}

#[test]
fn no_comparison_without_a_previous_window() {
    let new = [ok(0, MS)];
    assert!(calculate_response_time_change(&[], &new).is_none());
    assert!(calculate_percentile_change(&[], &new).is_none());
}

#[test]
fn no_comparison_without_a_recent_window() {
    let old = [ok(0, MS)];
    assert!(calculate_response_time_change(&old, &[]).is_none());
    assert!(calculate_percentile_change(&old, &[]).is_none());
}

#[test]
fn no_comparison_against_a_rate_of_zero() {
    let old = [bad(0, MS)];
    let new = [ok(1, MS)];
    assert!(calculate_percentile_change(&old, &new).is_none());
    let change = calculate_percentile_change(&new, &old).unwrap();
    assert_eq!(parts(&change), ("100.0%", Diff::Decrease, Emotion::Sad));
}

#[test]
fn classes_of_a_change() {
    let up = Change { value: "1.0%".to_string(), diff: Diff::Increase, emotion: Emotion::Sad };
    let down = Change { value: "1.0%".to_string(), diff: Diff::Decrease, emotion: Emotion::Happy };
    assert_eq!(up.icon_class(), "fa-arrow-up");
    assert_eq!(down.icon_class(), "fa-arrow-down");
    assert_eq!(up.screen_reader_text(), "Increased by");
    assert_eq!(down.screen_reader_text(), "Decreased by");
    assert_eq!(Emotion::Happy.color_class(), "text-green-600");
    assert_eq!(Emotion::Sad.color_class(), "text-red-600");
    assert_eq!(Emotion::Happy.opposite(), Emotion::Sad);
    assert_eq!(Emotion::Sad.opposite(), Emotion::Happy);
    assert_eq!(IconStyle::Solid.class_name(), "fa-solid");
    assert_eq!(IconStyle::Regular.class_name(), "fa-regular");
    assert_eq!(IconStyle::Light.class_name(), "fa-light");
}

#[test]
fn split_point_is_the_first_older_checkin() {
    let all = [ok(100, MS), ok(90, MS), ok(50, MS), ok(40, MS), ok(10, MS)];
    assert_eq!(split_point(&all, 0, 50), 3);
    assert_eq!(split_point(&all, 0, 51), 2);
    assert_eq!(split_point(&all, 0, 101), 0);
    assert_eq!(split_point(&all, 0, 10), 5);
    assert_eq!(split_point(&all, 4, 50), 4);
    assert_eq!(split_point(&all, 5, 50), 5);
    assert_eq!(split_point(&[], 0, 50), 0);
}

#[test]
fn windows_part_the_series_by_age() {
    let all = [ok(100, MS), ok(90, MS), ok(50, MS), ok(40, MS), ok(10, MS)];
    let windows = split_windows(&all, 100, 50);
    assert_eq!(windows.recent, vec![ok(100, MS), ok(90, MS), ok(50, MS)]);
    assert_eq!(windows.previous, vec![ok(40, MS), ok(10, MS)]);
    let windows = split_windows(&all, 100, 30);
    assert_eq!(windows.recent, vec![ok(100, MS), ok(90, MS)]);
    assert_eq!(windows.previous, vec![ok(50, MS), ok(40, MS)]);
    let windows = split_windows(&all, 1_000, 30);
    assert!(windows.recent.is_empty());
    assert!(windows.previous.is_empty());
}

#[test]
fn windows_at_the_ends_of_the_clock_do_not_overflow() {
    let all = [ok(i64::MAX, MS), ok(0, MS), ok(i64::MIN, MS)];
    let windows = split_windows(&all, i64::MIN, i64::MAX);
    assert_eq!(windows.recent.len(), 3);
    let windows = split_windows(&all, i64::MAX, i64::MAX);
    assert_eq!(windows.recent, vec![ok(i64::MAX, MS), ok(0, MS)]);
    assert!(windows.previous.is_empty());
    let windows = split_windows(&all, 0, i64::MAX);
    assert_eq!(windows.recent, vec![ok(i64::MAX, MS), ok(0, MS)]);
    assert_eq!(windows.previous, vec![ok(i64::MIN, MS)]);
    let windows = split_windows(&all, i64::MAX, i64::MIN);
    assert!(windows.recent.is_empty());
    assert!(windows.previous.is_empty());
}

#[test]
fn reversed_turns_the_series_round() {
    let all = [ok(3, MS), ok(2, MS), ok(1, MS)];
    assert_eq!(reversed(&all), vec![ok(1, MS), ok(2, MS), ok(3, MS)]);
    assert_eq!(reversed(&[]), Vec::<Checkin>::new());
}

#[test]
fn overview_shows_the_recent_window_against_the_previous_one() {
    let all = [
        ok(100, 30 * MS),
        ok(90, 30 * MS),
        bad(80, 30 * MS),
        ok(70, 30 * MS),
        ok(40, 20 * MS),
        bad(30, 20 * MS),
    ];
    let overview = site_stats_overview(&all, 100, 50);
    assert_eq!(overview.checkins, 4);
    assert_eq!(overview.avg_response_time.as_deref(), Some("30.0 ms"));
    assert_eq!(overview.success_rate.as_deref(), Some("75.0%"));
    let time = overview.response_time_change.unwrap();
    assert_eq!(parts(&time), ("50.0%", Diff::Increase, Emotion::Sad));
    let rate = overview.success_rate_change.unwrap();
    assert_eq!(parts(&rate), ("50.0%", Diff::Increase, Emotion::Happy));
}

#[test]
fn overview_without_checkins_has_no_data() {
    let overview = site_stats_overview(&[], 100, 50);
    assert_eq!(overview.checkins, 0);
    assert_eq!(overview.avg_response_time, None);
    assert_eq!(overview.success_rate, None);
    assert!(overview.response_time_change.is_none());
    assert!(overview.success_rate_change.is_none());
}

#[test]
fn overview_without_a_previous_window_has_no_changes() {
    let new = [ok(100, 1_250_000), ok(90, 1_250_000)];
    let overview = StatsOverview::of(&new, &[]);
    assert_eq!(overview.checkins, 2);
    assert_eq!(overview.avg_response_time.as_deref(), Some("1.2 ms"));
    assert_eq!(overview.success_rate.as_deref(), Some("100.0%"));
    assert!(overview.response_time_change.is_none());
    assert!(overview.success_rate_change.is_none());
}
