use vstd::prelude::*;
use crate::common::{App, CheckOptions, CheckTiming, ComplexTime, ProtocolState, RequestParams, UpdateCheckSchedule};

verus! {

/// The policy's answer to whether a check may happen now.
#[derive(Clone, Copy, Debug, PartialEq, Eq, Structural)]
pub enum CheckDecision {
    Allowed(RequestParams),
    /// The check may happen, but an update it finds is to be deferred.
    OkUpdateDeferred(RequestParams),
    TooSoon,
    ThrottledByPolicy,
    DeniedByPolicy,
}

/// The policy's answer to whether an install plan may start.
#[derive(Clone, Copy, Debug, PartialEq, Eq, Structural)]
pub enum UpdateDecision {
    Allowed,
    DeferredByPolicy,
    DeniedByPolicy,
}

/// What a policy decides from.
#[derive(Clone, Copy, Debug, PartialEq, Eq, Structural)]
pub struct PolicyData {
    pub current_time: ComplexTime,
}

/// A source of the current time.
pub trait TimeSource {
    fn now(&self) -> ComplexTime;
}

/// A policy that allows everything immediately.
pub struct StubPolicy;

impl StubPolicy {
    pub fn compute_next_update_time(
        policy_data: &PolicyData,
        _apps: &[App],
        _scheduling: &UpdateCheckSchedule,
        _protocol_state: &ProtocolState,
    ) -> (r: CheckTiming)
        ensures
            r == (CheckTiming { time: policy_data.current_time, minimum_wait: None }),
    {
        CheckTiming { time: policy_data.current_time, minimum_wait: None }
    }

    pub fn update_check_allowed(
        _policy_data: &PolicyData,
        _apps: &[App],
        _scheduling: &UpdateCheckSchedule,
        _protocol_state: &ProtocolState,
        check_options: &CheckOptions,
    ) -> (r: CheckDecision)
        ensures
            r == CheckDecision::Allowed(RequestParams { source: check_options.source, use_configured_proxies: true }),
    {
        CheckDecision::Allowed(RequestParams { source: check_options.source, use_configured_proxies: true })
    }

    pub fn update_can_start(_policy_data: &PolicyData, _proposed_install_plan_id: &str) -> (r: UpdateDecision)
        ensures
            r == UpdateDecision::Allowed,
    {
        UpdateDecision::Allowed
    }
}

/// A policy engine that reads the current time from its time source and hands it to
/// `StubPolicy`.
pub struct StubPolicyEngine<T: TimeSource> {
    pub time_source: T,
}

impl<T: TimeSource> StubPolicyEngine<T> {
    pub fn new(time_source: T) -> (r: Self)
        ensures
            r.time_source == time_source,
    {
        StubPolicyEngine { time_source }
    }

    fn policy_data(&self) -> PolicyData {
        PolicyData { current_time: self.time_source.now() }
    }

    /// The next check is due now, with no minimum wait.
    pub fn compute_next_update_time(
        &mut self,
        apps: &[App],
        scheduling: &UpdateCheckSchedule,
        protocol_state: &ProtocolState,
    ) -> (r: CheckTiming)
        ensures
            r.minimum_wait.is_none(),
    {
        let data = self.policy_data();
        StubPolicy::compute_next_update_time(&data, apps, scheduling, protocol_state)
    }

    pub fn update_check_allowed(
        &mut self,
        apps: &[App],
        scheduling: &UpdateCheckSchedule,
        protocol_state: &ProtocolState,
        check_options: &CheckOptions,
    ) -> (r: CheckDecision)
        ensures
            r == CheckDecision::Allowed(RequestParams { source: check_options.source, use_configured_proxies: true }),
    {
        let data = self.policy_data();
        StubPolicy::update_check_allowed(&data, apps, scheduling, protocol_state, check_options)
    }

    pub fn update_can_start(&mut self, proposed_install_plan_id: &str) -> (r: UpdateDecision)
        ensures
            r == UpdateDecision::Allowed,
    {
        let data = self.policy_data();
        StubPolicy::update_can_start(&data, proposed_install_plan_id)
    }

    /// The stub always allows the reboot.
    pub fn reboot_allowed(&mut self, _check_options: &CheckOptions) -> (r: bool)
        ensures
            r,
    {
        true
    }
}

} // verus!
