use omaha_client::common::{App, AppSet, CheckOptions, Cohort, ComplexTime, Context, InstallSource, ProtocolState, RequestParams, UpdateCheckSchedule};
use omaha_client::error::OmahaRequestError;
use omaha_client::metrics::Metrics;
use omaha_client::policy::{CheckDecision, UpdateDecision};
use omaha_client::protocol::{OmahaApp, OmahaResponse, OmahaStatus};
use omaha_client::retry::HttpReply;
use omaha_client::state_machine::{Effect, Query, StartUpdateCheckResponse, State, StateMachine, StateMachineEvent, Step, REBOOT_RETRY_MS};

fn machine(checks: u32) -> StateMachine {
    let app = App::new("a".to_string(), vec![1], Cohort { id: None, hint: None, name: None });
    let mut state = ProtocolState::initial();
    state.consecutive_failed_update_checks = checks;
    StateMachine::new(AppSet::new(vec![app]), Context { schedule: UpdateCheckSchedule::empty(), state })
}

fn now() -> ComplexTime {
    ComplexTime { wall_micros: 1000, mono_micros: 50 }
}

fn params() -> RequestParams {
    RequestParams { source: InstallSource::ScheduledTask, use_configured_proxies: true }
}

fn collect(all: &mut Vec<Effect>, step: Step) -> Query {
    all.extend(step.effects);
    step.next
}

/// Runs an attempt whose exchanges all fail with `reply`.
fn failing_attempt(sm: &mut StateMachine, reply: fn() -> Result<HttpReply, OmahaRequestError>) -> Vec<Effect> {
    let mut all = Vec::new();
    let s = sm.start_update_check(CheckOptions::scheduled());
    collect(&mut all, s);
    let s = sm.on_check_decision(CheckDecision::Allowed(params()));
    collect(&mut all, s);
    let s = sm.on_last_check_time(now(), None);
    let mut q = collect(&mut all, s);
    loop {
        match q {
            Query::Exchange(_) => {
                let s = sm.on_exchanged(now(), reply());
                q = collect(&mut all, s);
            }
            Query::Wait(_) => {
                let s = sm.on_waited();
                q = collect(&mut all, s);
            }
            Query::FailedCheckCount => {
                let s = sm.on_failed_check_count(now(), None);
                q = collect(&mut all, s);
            }
            Query::Idle => break,
            other => panic!("unexpected query {:?}", other),
        }
    }
    all
}

fn results(effects: &[Effect]) -> usize {
    effects
        .iter()
        .filter(|e| matches!(e, Effect::Emit(StateMachineEvent::UpdateCheckResult(_))))
        .count()
}

#[test]
fn failed_attempt_ends_idle_with_one_result() {
    let mut sm = machine(0);
    let effects = failing_attempt(&mut sm, || Err(OmahaRequestError::Transport { user_error: false }));
    assert!(matches!(effects.last(), Some(Effect::Emit(StateMachineEvent::StateChange(State::Idle)))));
    assert_eq!(results(&effects), 1);
    assert_eq!(sm.context.state.consecutive_failed_update_checks, 1);
    let retries: Vec<u64> = effects
        .iter()
        .filter_map(|e| match e {
            Effect::Report(Metrics::UpdateCheckRetries(n)) => Some(*n),
            _ => None,
        })
        .collect();
    assert!(retries.iter().all(|n| *n <= 3));
}

#[test]
fn user_error_is_not_retried() {
    let mut sm = machine(0);
    let effects = failing_attempt(&mut sm, || Err(OmahaRequestError::Transport { user_error: true }));
    assert!(!effects.is_empty());
    assert_eq!(results(&effects), 1);
}

#[test]
fn success_resets_failed_checks_and_failure_raises_them() {
    let mut sm = machine(5);
    let mut all = Vec::new();
    let s = sm.start_update_check(CheckOptions::scheduled());
    collect(&mut all, s);
    let s = sm.on_check_decision(CheckDecision::Allowed(params()));
    collect(&mut all, s);
    let s = sm.on_last_check_time(now(), Some(400));
    collect(&mut all, s);
    assert!(matches!(all[1], Effect::Report(Metrics::UpdateCheckInterval(600))));
    let body = br#"{"response":{"protocol":"3.0","app":[]}}"#.to_vec();
    let s = sm.on_exchanged(now(), Ok(HttpReply { status: 200, body }));
    collect(&mut all, s);
    let parsed = omaha_client::protocol::OmahaResponse { protocol_version: "3.0".to_string(), daystart: None, apps: vec![] };
    let s = sm.on_parsed(Ok(parsed));
    collect(&mut all, s);
    let s = sm.on_failed_check_count(now(), Some(4));
    let q = collect(&mut all, s);
    assert!(matches!(q, Query::Idle));
    assert_eq!(sm.context.state.consecutive_failed_update_checks, 0);
    assert!(all.iter().any(|e| matches!(e, Effect::Report(Metrics::AttemptsToSucceed(5)))));

    let mut sm = machine(u32::MAX);
    failing_attempt(&mut sm, || Ok(HttpReply { status: 404, body: vec![] }));
    assert_eq!(sm.context.state.consecutive_failed_update_checks, u32::MAX);
}

#[test]
fn denied_check_ends_without_a_request() {
    let mut sm = machine(0);
    let mut all = Vec::new();
    let s = sm.start_update_check(CheckOptions::scheduled());
    collect(&mut all, s);
    let s = sm.on_check_decision(CheckDecision::ThrottledByPolicy);
    let q = collect(&mut all, s);
    assert!(matches!(q, Query::FailedCheckCount));
    assert!(all.is_empty());
    let s = sm.on_failed_check_count(now(), Some(2));
    collect(&mut all, s);
    assert_eq!(sm.state, State::Idle);
    assert_eq!(sm.context.schedule.last_update_time, None);
    assert_eq!(results(&all), 1);
}

#[test]
fn control_requests_while_running_are_refused() {
    let mut sm = machine(0);
    let (r, step) = sm.handle_control_request(CheckOptions { source: InstallSource::OnDemand });
    assert_eq!(r, StartUpdateCheckResponse::Started);
    assert!(matches!(step.unwrap().next, Query::CheckAllowed(CheckOptions { source: InstallSource::OnDemand })));
    for _ in 0..3 {
        let (r, step) = sm.handle_control_request(CheckOptions::scheduled());
        assert_eq!(r, StartUpdateCheckResponse::AlreadyRunning);
        assert!(step.is_none());
        assert_eq!(sm.options.source, InstallSource::OnDemand);
    }
}

#[test]
fn reboot_waits_thirty_minutes_until_allowed() {
    let mut sm = machine(0);
    let mut all = Vec::new();
    let s = sm.start_update_check(CheckOptions::scheduled());
    collect(&mut all, s);
    let s = sm.on_check_decision(CheckDecision::Allowed(params()));
    collect(&mut all, s);
    let s = sm.on_last_check_time(now(), None);
    collect(&mut all, s);
    let s = sm.on_exchanged(now(), Ok(HttpReply { status: 200, body: b"{}".to_vec() }));
    collect(&mut all, s);
    let parsed = OmahaResponse {
        protocol_version: "3.0".to_string(),
        daystart: None,
        apps: vec![OmahaApp {
            id: "a".to_string(),
            cohort: Cohort { id: None, hint: None, name: None },
            update_check: Some(OmahaStatus::Available),
        }],
    };
    let s = sm.on_parsed(Ok(parsed));
    assert!(matches!(collect(&mut all, s), Query::CreatePlan(..)));
    let s = sm.on_plan_created(Ok("plan".to_string()));
    assert!(matches!(collect(&mut all, s), Query::CanStart));
    let s = sm.on_update_decision(UpdateDecision::Allowed);
    assert!(matches!(collect(&mut all, s), Query::FirstSeen));
    let s = sm.on_first_seen(now(), Some("plan".to_string()), Some(400));
    assert!(matches!(collect(&mut all, s), Query::Install));
    let done = ComplexTime { wall_micros: 1500, mono_micros: 550 };
    let s = sm.on_installed(done, true);
    collect(&mut all, s);
    let s = sm.on_failed_check_count(done, None);
    assert!(matches!(collect(&mut all, s), Query::RebootAllowed(_)));
    assert_eq!(sm.state, State::WaitingForReboot);
    assert_eq!(results(&all), 1);
    assert!(all.iter().any(|e| matches!(e, Effect::Report(Metrics::SuccessfulUpdateDuration(500)))));
    assert!(all.iter().any(|e| matches!(e, Effect::Report(Metrics::SuccessfulUpdateFromFirstSeen(1100)))));

    for _ in 0..2 {
        let s = sm.on_reboot_allowed(false);
        match collect(&mut all, s) {
            Query::Wait(ms) => assert_eq!(ms, REBOOT_RETRY_MS),
            other => panic!("unexpected query {:?}", other),
        }
        let s = sm.on_waited();
        assert!(matches!(collect(&mut all, s), Query::RebootAllowed(_)));
    }
    let s = sm.on_reboot_allowed(true);
    assert!(matches!(collect(&mut all, s), Query::Reboot));
    let s = sm.on_rebooted();
    assert!(matches!(collect(&mut all, s), Query::Idle));
    assert!(matches!(all.last(), Some(Effect::Emit(StateMachineEvent::StateChange(State::Idle)))));
    assert_eq!(results(&all), 1);
    assert!(!sm.in_progress());
}
