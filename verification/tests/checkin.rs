use status::checkin::Checkin;
use status::checkin::Outcome;

fn checkin(outcome: Outcome, status_code: Option<i32>, duration_nanos: Option<i64>) -> Checkin {
    Checkin { checkin_id: 7, page_id: 9, outcome, status_code, duration_nanos, created_at: 0 }
}

#[test]
fn outcome_names_are_the_stored_words() {
    assert_eq!(Outcome::Success.as_str(), "success");
    assert_eq!(Outcome::Failure.as_str(), "failure");
    assert_eq!(Outcome::Error.as_str(), "error");
}

#[test]
fn outcome_is_read_back_from_its_name() {
    for outcome in [Outcome::Success, Outcome::Failure, Outcome::Error] {
        assert_eq!(Outcome::parse(outcome.as_str()), Some(outcome));
    }
}

#[test]
fn unknown_outcome_name_is_refused() {
    assert_eq!(Outcome::parse("Success"), None);
    assert_eq!(Outcome::parse(""), None);
    assert_eq!(Outcome::parse("timeout"), None);
}

#[test]
fn checkin_with_response_needs_a_status_code() {
    assert!(checkin(Outcome::Success, Some(200), Some(5)).is_well_formed());
    assert!(checkin(Outcome::Failure, Some(500), Some(5)).is_well_formed());
    assert!(!checkin(Outcome::Success, None, Some(5)).is_well_formed());
    assert!(!checkin(Outcome::Failure, None, None).is_well_formed());
}

#[test]
fn checkin_without_response_has_no_status_code() {
    assert!(checkin(Outcome::Error, None, None).is_well_formed());
    assert!(!checkin(Outcome::Error, Some(502), None).is_well_formed());
}

#[test]
fn checkin_without_response_has_no_duration() {
    assert!(!checkin(Outcome::Error, None, Some(12)).is_well_formed());
}

#[test]
fn checkin_outcome_agrees_with_its_status_code() {
    assert!(!checkin(Outcome::Success, Some(404), Some(1)).is_well_formed());
    assert!(!checkin(Outcome::Failure, Some(204), Some(1)).is_well_formed());
    assert!(checkin(Outcome::Success, Some(299), None).is_well_formed());
    assert!(checkin(Outcome::Failure, Some(300), None).is_well_formed());
    assert!(checkin(Outcome::Failure, Some(199), None).is_well_formed());
}

#[test]
fn checkin_duration_is_not_negative() {
    assert!(!checkin(Outcome::Success, Some(200), Some(-1)).is_well_formed());
    assert!(checkin(Outcome::Success, Some(200), Some(0)).is_well_formed());
}

#[test]
fn stored_record_is_read_back() {
    let read = Checkin::from_stored(1, 2, "failure", Some(503), Some(9), 77).unwrap();
    assert_eq!(
        read,
        Checkin {
            checkin_id: 1,
            page_id: 2,
            outcome: Outcome::Failure,
            status_code: Some(503),
            duration_nanos: Some(9),
            created_at: 77
        }
    );
    assert_eq!(Checkin::from_stored(1, 2, "broken", None, None, 77), None);
}

#[test]
fn series_for_a_plot_is_timed() {
    let good = checkin(Outcome::Success, Some(200), Some(5));
    let instant = checkin(Outcome::Failure, Some(500), Some(0));
    let untimed = checkin(Outcome::Failure, Some(500), None);
    let lost = checkin(Outcome::Error, None, None);
    let backwards = checkin(Outcome::Success, Some(200), Some(-5));
    assert!(status::checkin::can_be_plotted(&[]));
    assert!(status::checkin::can_be_plotted(&[good, instant, good]));
    assert!(!status::checkin::can_be_plotted(&[good, untimed]));
    assert!(!status::checkin::can_be_plotted(&[lost, good]));
    assert!(!status::checkin::can_be_plotted(&[good, backwards, good]));
}

#[test]
fn page_is_probed_at_its_path_on_the_domain_of_its_site() {
    let site = status::site::Site {
        site_id: 1,
        user_id: 2,
        name: "Blog".to_string(),
        domain: "coreyja.com".to_string(),
        description: None,
    };
    let page = status::site::Page {
        page_id: 3,
        site_id: 1,
        path: "/posts".to_string(),
        name: "Posts".to_string(),
    };
    assert_eq!(page.url(&site), "https://coreyja.com/posts");
}
