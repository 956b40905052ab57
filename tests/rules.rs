use omaha_client::common::{App, AppSet, Cohort, UserCounting};
use omaha_client::error::{OmahaRequestError, ResponseParseError, StateMachineGone, UpdateCheckError};
use omaha_client::metrics::{failure_reason, UpdateCheckFailureReason};
use omaha_client::policy::CheckDecision;
use omaha_client::protocol::{DayStart, OmahaApp, OmahaResponse, OmahaStatus};
use omaha_client::retry::{backoff_ms, check_status, randomize, randomize_with, retry_after, HttpReply};
use omaha_client::state_machine::{micros_between, StorageKey};
use omaha_client::update_check::{any_install_failed, make_response, Action, AppResponse};

fn json_error() -> serde_json::Error {
    serde_json::from_str::<serde_json::Value>("invalid response").unwrap_err()
}

fn http_error() -> http::Error {
    http::Request::builder().method("bad method\n").body(()).unwrap_err()
}

#[test]
fn randomize_with_picks_from_the_window() {
    assert_eq!(randomize_with(1000, 1000, 0), 500);
    assert_eq!(randomize_with(1000, 1000, 999), 1499);
    assert_eq!(randomize_with(1000, 1000, 1234), 734);
    assert_eq!(randomize_with(4000, 1000, 1000), 3500);
}

#[test]
fn randomize_stays_in_the_window() {
    for _ in 0..200 {
        let r = randomize(2000, 1000);
        assert!((1500..2500).contains(&r));
    }
}

#[test]
fn backoff_grows_with_each_attempt() {
    for _ in 0..100 {
        assert!((500..1500).contains(&backoff_ms(1)));
        assert!((1500..2500).contains(&backoff_ms(2)));
        assert!((3500..4500).contains(&backoff_ms(3)));
    }
}

#[test]
fn retries_follow_the_error_kind() {
    assert!(!retry_after(&OmahaRequestError::Json(json_error()), 1));
    assert!(!retry_after(&OmahaRequestError::HttpBuilder(http_error()), 1));
    assert!(retry_after(&OmahaRequestError::Transport { user_error: false }, 1));
    assert!(!retry_after(&OmahaRequestError::Transport { user_error: true }, 1));
    assert!(retry_after(&OmahaRequestError::HttpStatus(503), 2));
    assert!(!retry_after(&OmahaRequestError::HttpStatus(503), 3));
    assert!(!retry_after(&OmahaRequestError::Transport { user_error: false }, 3));
}

#[test]
fn status_outside_success_is_an_error() {
    assert!(check_status(HttpReply { status: 200, body: vec![1] }).is_ok());
    assert!(check_status(HttpReply { status: 299, body: vec![] }).is_ok());
    assert!(matches!(
        check_status(HttpReply { status: 300, body: vec![] }),
        Err(OmahaRequestError::HttpStatus(300))
    ));
    assert!(matches!(
        check_status(HttpReply { status: 199, body: vec![] }),
        Err(OmahaRequestError::HttpStatus(199))
    ));
    assert!(matches!(check_status(HttpReply { status: 42, body: vec![] }), Err(OmahaRequestError::HttpStatus(42))));
}

#[test]
fn failure_reasons_classify_every_error() {
    assert_eq!(
        failure_reason(&UpdateCheckError::Policy(CheckDecision::TooSoon)),
        UpdateCheckFailureReason::Internal
    );
    assert_eq!(
        failure_reason(&UpdateCheckError::OmahaRequest(OmahaRequestError::Json(json_error()))),
        UpdateCheckFailureReason::Internal
    );
    assert_eq!(
        failure_reason(&UpdateCheckError::OmahaRequest(OmahaRequestError::HttpBuilder(http_error()))),
        UpdateCheckFailureReason::Internal
    );
    assert_eq!(
        failure_reason(&UpdateCheckError::OmahaRequest(OmahaRequestError::Transport { user_error: false })),
        UpdateCheckFailureReason::Network
    );
    assert_eq!(
        failure_reason(&UpdateCheckError::OmahaRequest(OmahaRequestError::HttpStatus(500))),
        UpdateCheckFailureReason::Network
    );
    assert_eq!(
        failure_reason(&UpdateCheckError::ResponseParser(ResponseParseError::Json(json_error()))),
        UpdateCheckFailureReason::Omaha
    );
    assert_eq!(
        failure_reason(&UpdateCheckError::InstallPlan(anyhow::Error::msg("no plan"))),
        UpdateCheckFailureReason::Omaha
    );
}

#[test]
fn micros_between_is_none_for_the_future() {
    assert_eq!(micros_between(10, 25), Some(15));
    assert_eq!(micros_between(25, 25), Some(0));
    assert_eq!(micros_between(26, 25), None);
    assert_eq!(micros_between(i64::MIN, i64::MAX), Some(u64::MAX));
}

#[test]
fn storage_keys_have_their_names() {
    assert_eq!(StorageKey::LastCheckTime.name(), "last_check_time");
    assert_eq!(StorageKey::LastUpdateTime.name(), "last_update_time");
    assert_eq!(StorageKey::InstallPlanId.name(), "install_plan_id");
    assert_eq!(StorageKey::UpdateFirstSeenTime.name(), "update_first_seen_time");
    assert_eq!(StorageKey::ConsecutiveFailedUpdateChecks.name(), "consecutive_failed_update_checks");
    assert_eq!(StorageKey::ServerDictatedPollInterval.name(), "server_dictated_poll_interval");
}

fn app(id: &str) -> App {
    App::new(id.to_string(), vec![1], Cohort { id: None, hint: Some("h".to_string()), name: None })
}

#[test]
fn app_set_validity() {
    assert!(AppSet::new(vec![app("a")]).valid());
    assert!(!AppSet::new(vec![]).valid());
    assert!(!AppSet::new(vec![app("a"), app("")]).valid());
}

#[test]
fn update_from_omaha_applies_sent_fields_to_named_apps() {
    let mut set = AppSet::new(vec![app("a"), app("b")]);
    let responses = vec![
        AppResponse {
            app_id: "b".to_string(),
            cohort: Cohort { id: Some("1".to_string()), hint: None, name: Some("stable".to_string()) },
            user_counting: UserCounting::ClientRegulatedByDate(Some(7)),
            result: Action::NoUpdate,
        },
        AppResponse {
            app_id: "c".to_string(),
            cohort: Cohort { id: Some("9".to_string()), hint: None, name: None },
            user_counting: UserCounting::ClientRegulatedByDate(Some(9)),
            result: Action::NoUpdate,
        },
    ];
    set.update_from_omaha(&responses);
    assert_eq!(set.apps[0], app("a"));
    assert_eq!(set.apps[1].cohort, Cohort { id: Some("1".to_string()), hint: Some("h".to_string()), name: Some("stable".to_string()) });
    assert_eq!(set.apps[1].user_counting, UserCounting::ClientRegulatedByDate(Some(7)));
    assert_eq!(set.apps[1].id, "b");
}

#[test]
fn make_response_covers_every_app_of_the_response() {
    let response = OmahaResponse {
        protocol_version: "3.0".to_string(),
        daystart: Some(DayStart { elapsed_days: Some(12), elapsed_seconds: None }),
        apps: vec![
            OmahaApp { id: "a".to_string(), cohort: Cohort { id: Some("1".to_string()), hint: None, name: None }, update_check: Some(OmahaStatus::Available) },
            OmahaApp { id: "b".to_string(), cohort: Cohort { id: None, hint: None, name: None }, update_check: None },
        ],
    };
    assert!(response.has_update());
    let r = make_response(&response, Action::Updated);
    assert_eq!(r.server_dictated_poll_interval, None);
    assert_eq!(r.app_responses.len(), 2);
    assert_eq!(r.app_responses[0].app_id, "a");
    assert_eq!(r.app_responses[0].cohort.id, Some("1".to_string()));
    assert_eq!(r.app_responses[1].app_id, "b");
    assert_eq!(r.app_responses[1].user_counting, UserCounting::ClientRegulatedByDate(Some(12)));
    assert_eq!(r.app_responses[1].result, Action::Updated);
    assert!(!any_install_failed(&r.app_responses));
    let failed = make_response(&response, Action::InstallPlanExecutionError);
    assert!(any_install_failed(&failed.app_responses));
}

#[test]
fn request_errors_convert_from_their_sources() {
    assert!(matches!(OmahaRequestError::from(json_error()), OmahaRequestError::Json(_)));
    assert!(matches!(OmahaRequestError::from(http_error()), OmahaRequestError::HttpBuilder(_)));
}

#[test]
fn state_machine_gone_says_why() {
    assert_eq!(StateMachineGone.message(), "state machine dropped before all its control handles");
}
