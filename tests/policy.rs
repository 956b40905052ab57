use omaha_client::common::{CheckOptions, ComplexTime, InstallSource, ProtocolState, RequestParams, UpdateCheckSchedule};
use omaha_client::policy::{CheckDecision, PolicyData, StubPolicy, StubPolicyEngine, TimeSource, UpdateDecision};

struct FixedTime(ComplexTime);

impl TimeSource for FixedTime {
    fn now(&self) -> ComplexTime {
        self.0
    }
}

fn policy_data() -> PolicyData {
    PolicyData { current_time: ComplexTime { wall_micros: 1_600_000_000_000_000, mono_micros: 42 } }
}

#[test]
fn test_compute_next_update_time() {
    let policy_data = policy_data();
    let update_check_schedule = UpdateCheckSchedule::empty();
    let result = StubPolicy::compute_next_update_time(&policy_data, &[], &update_check_schedule, &ProtocolState::initial());
    assert_eq!(result.time, policy_data.current_time);
    assert_eq!(result.minimum_wait, None);
}

#[test]
fn test_update_check_allowed_on_demand() {
    let policy_data = policy_data();
    let check_options = CheckOptions { source: InstallSource::OnDemand };
    let result = StubPolicy::update_check_allowed(
        &policy_data,
        &[],
        &UpdateCheckSchedule::empty(),
        &ProtocolState::initial(),
        &check_options,
    );
    let expected = CheckDecision::Allowed(RequestParams { source: check_options.source, use_configured_proxies: true });
    assert_eq!(result, expected);
}

#[test]
fn test_update_check_allowed_scheduled_task() {
    let policy_data = policy_data();
    let check_options = CheckOptions { source: InstallSource::ScheduledTask };
    let result = StubPolicy::update_check_allowed(
        &policy_data,
        &[],
        &UpdateCheckSchedule::empty(),
        &ProtocolState::initial(),
        &check_options,
    );
    let expected = CheckDecision::Allowed(RequestParams { source: check_options.source, use_configured_proxies: true });
    assert_eq!(result, expected);
}

#[test]
fn test_update_can_start() {
    let policy_data = policy_data();
    let result = StubPolicy::update_can_start(&policy_data, "");
    assert_eq!(result, UpdateDecision::Allowed);
}

#[test]
fn stub_engine_reads_its_time_source() {
    let now = ComplexTime { wall_micros: 5, mono_micros: 6 };
    let mut engine = StubPolicyEngine::new(FixedTime(now));
    let timing = engine.compute_next_update_time(&[], &UpdateCheckSchedule::empty(), &ProtocolState::initial());
    assert_eq!(timing.time, now);
    assert_eq!(timing.minimum_wait, None);
    let options = CheckOptions::scheduled();
    assert_eq!(
        engine.update_check_allowed(&[], &UpdateCheckSchedule::empty(), &ProtocolState::initial(), &options),
        CheckDecision::Allowed(RequestParams { source: InstallSource::ScheduledTask, use_configured_proxies: true })
    );
    assert_eq!(engine.update_can_start("plan"), UpdateDecision::Allowed);
    assert!(engine.reboot_allowed(&options));
}
