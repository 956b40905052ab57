use vstd::prelude::*;
use crate::common::{same_app, same_apps, updated_app, AppSet, CheckOptions, CheckTiming, ComplexTime, Context, ProtocolState, RequestParams, UpdateCheckSchedule};
use crate::error::{OmahaRequestError, ResponseParseError, UpdateCheckError};
use crate::metrics::{failure_reason, failure_reason_of, Metrics, UpdateCheckFailureReason};
use crate::policy::{CheckDecision, UpdateDecision};
use crate::protocol::{event_request, is_event_request, is_update_check_request, some_app_has_update, update_check_request, Event, EventErrorCode, EventType, OmahaResponse};
use crate::retry::{backoff_base_ms, backoff_ms, check_status, retry_after, should_retry, HttpReply, BACKOFF_JITTER_MS};
use crate::state_machine::{accepts, attempts_of, first_seen_time, is_reboot_phase, micros_between, same_plan, trace_ok, Effect, Input, InstallProgress, InstallTimes, Phase, Query, StartUpdateCheckResponse, State, StateMachine, StateMachineEvent, Step, StorageKey, StorageOp, REBOOT_RETRY_MS};
use crate::trace::{count, lemma_count_concat, lemma_count_push, lemma_quiet_concat, lemma_retries_concat, quiet, retries_in_bounds, Counted};
use crate::update_check::{any_install_failed, is_response_of, make_response, some_install_failed, Action, Response};

verus! {

broadcast use lemma_count_push;

/// An attempt under way whose result has not been emitted yet.
pub open spec fn open_trace(trace: Seq<Effect>, install: Option<InstallTimes>) -> bool {
    &&& install is None
    &&& count(trace, Counted::CheckResult) == 0
    &&& count(trace, Counted::SuccessfulUpdateDuration) == 0
    &&& count(trace, Counted::SuccessfulUpdateFromFirstSeen) == 0
    &&& forall|i: int| 0 <= i < trace.len() ==> #[trigger] retries_in_bounds(trace[i])
}

/// A phase of an attempt that comes before its result.
pub open spec fn is_open_phase(p: Phase) -> bool {
    !(p is Idle) && !is_reboot_phase(p) && !(p is Record)
}

/// The error that ends an exchange, if any: the transport's, or a bad status.
pub open spec fn exchange_error(reply: Result<HttpReply, OmahaRequestError>) -> Option<OmahaRequestError> {
    match reply {
        Ok(r) => if 200 <= r.status < 300 {
            None
        } else {
            Some(OmahaRequestError::HttpStatus(r.status))
        },
        Err(e) => Some(e),
    }
}

/// The interval since the last check that is reported when a check starts.
pub open spec fn interval_reports(stored: Option<i64>, now: i64) -> Seq<Effect> {
    match stored {
        Some(last) => if now >= last {
            seq![Effect::Report(Metrics::UpdateCheckInterval((now - last) as u64))]
        } else {
            seq![]
        },
        None => seq![],
    }
}

/// The duration metrics of a successful install that started at `start`, whose plan was
/// first seen at `first_seen`, and that ended at `now`: each one only where its time is
/// not in the future.
pub open spec fn success_reports(start: i64, first_seen: i64, now: i64) -> Seq<Effect> {
    (if now >= start {
        seq![Effect::Report(Metrics::SuccessfulUpdateDuration((now - start) as u64))]
    } else {
        seq![]
    }) + (if now >= first_seen {
        seq![Effect::Report(Metrics::SuccessfulUpdateFromFirstSeen((now - first_seen) as u64))]
    } else {
        seq![]
    })
}

/// The duration metric of a failed install.
pub open spec fn failure_reports(start: i64, now: i64) -> Seq<Effect> {
    if now >= start {
        seq![Effect::Report(Metrics::FailedUpdateDuration((now - start) as u64))]
    } else {
        seq![]
    }
}

/// `n + 1`, or `n` at the top of the range.
pub open spec fn bumped(n: u32) -> u32 {
    if n == u32::MAX { n } else { (n + 1) as u32 }
}

/// The count of failed checks and its metric, as the attempt's result is recorded.
pub open spec fn count_effects(result: Result<Response, UpdateCheckError>, stored: Option<i64>) -> Seq<Effect> {
    match result {
        Ok(_) => seq![
            Effect::Store(StorageOp::Remove(StorageKey::ConsecutiveFailedUpdateChecks)),
            Effect::Report(Metrics::AttemptsToSucceed(#[verifier::truncate] (attempts_of(stored) as u64))),
        ],
        Err(e) => seq![
            Effect::Report(Metrics::UpdateCheckFailureReason(failure_reason_of(e))),
            Effect::Store(StorageOp::SetInt(StorageKey::ConsecutiveFailedUpdateChecks, attempts_of(stored))),
        ],
    }
}

/// The context after an attempt with this result, recorded at `now`.
pub open spec fn recorded_context(old: Context, result: Result<Response, UpdateCheckError>, now: ComplexTime) -> Context {
    match result {
        Ok(resp) => Context {
            schedule: UpdateCheckSchedule { last_update_time: Some(now), ..old.schedule },
            state: ProtocolState {
                server_dictated_poll_interval: resp.server_dictated_poll_interval,
                consecutive_failed_update_attempts: if some_install_failed(resp.app_responses@) {
                    bumped(old.state.consecutive_failed_update_attempts)
                } else {
                    0
                },
                consecutive_failed_update_checks: 0,
                ..old.state
            },
        },
        Err(e) => Context {
            schedule: if failure_reason_of(e) == UpdateCheckFailureReason::Omaha {
                UpdateCheckSchedule { last_update_time: Some(now), ..old.schedule }
            } else {
                old.schedule
            },
            state: ProtocolState {
                consecutive_failed_update_checks: bumped(old.state.consecutive_failed_update_checks),
                ..old.state
            },
        },
    }
}

/// What `on_check_decision` does.
pub open spec fn check_decision_done(old: StateMachine, decision: CheckDecision, new: StateMachine, r: Step) -> bool {
    &&& new.context == old.context
    &&& new.app_set == old.app_set
    &&& match decision {
        CheckDecision::Allowed(params) | CheckDecision::OkUpdateDeferred(params) => {
            &&& new.phase == (Phase::LastCheckTime { params })
            &&& new.state == State::CheckingForUpdates
            &&& r.effects@ == seq![Effect::Emit(StateMachineEvent::StateChange(State::CheckingForUpdates))]
            &&& r.next is LastCheckTime
        },
        _ => {
            &&& new.phase == (Phase::Record {
                result: Err(UpdateCheckError::Policy(decision)),
            })
            &&& new.state == old.state
            &&& r.effects@.len() == 0
            &&& r.next is FailedCheckCount
        },
    }
}

/// What `on_last_check_time` does.
pub open spec fn last_check_time_done(old: StateMachine, now: ComplexTime, stored: Option<i64>, new: StateMachine, r: Step) -> bool {
    &&& new.keeps_data(&old)
    &&& new.phase == (Phase::Exchange {
        params: old.phase->LastCheckTime_params,
        attempt: 1,
        start_mono: now.mono_micros,
    })
    &&& r.effects@ == interval_reports(stored, now.wall_micros) + seq![
        Effect::Store(StorageOp::SetOptionInt(StorageKey::LastCheckTime, Some(now.wall_micros))),
        Effect::Store(StorageOp::Commit),
    ]
    &&& r.next is Exchange
    &&& is_update_check_request(r.next->Exchange_0, old.phase->LastCheckTime_params, old.apps@)
}

/// What `on_exchanged` does.
pub open spec fn exchanged_done(old: StateMachine, now: ComplexTime, reply: Result<HttpReply, OmahaRequestError>, new: StateMachine, r: Step) -> bool {
    &&& new.context == old.context
    &&& new.app_set == old.app_set
    &&& ({
        let params = old.phase->Exchange_params;
        let attempt = old.phase->Exchange_attempt;
        let start = old.phase->Exchange_start_mono;
        match exchange_error(reply) {
            None => {
                &&& new.phase == (Phase::Parse { params })
                &&& r.effects@ == seq![
                    Effect::Report(Metrics::UpdateCheckResponseTime(
                        if now.mono_micros >= start { (now.mono_micros - start) as u64 } else { 0 },
                    )),
                    Effect::Report(Metrics::UpdateCheckRetries(attempt)),
                ]
                &&& r.next == Query::Parse(reply->Ok_0.body)
                &&& new.state == old.state
            },
            Some(e) => if should_retry(e, attempt) {
                &&& new.phase == (Phase::Backoff { params, attempt, start_mono: start })
                &&& r.effects@.len() == 0
                &&& r.next is Wait
                &&& backoff_base_ms(attempt) - BACKOFF_JITTER_MS / 2 <= r.next->Wait_0
                &&& r.next->Wait_0 < backoff_base_ms(attempt) + BACKOFF_JITTER_MS / 2
                &&& new.state == old.state
            } else {
                &&& new.phase == (Phase::Record {
                    result: Err(UpdateCheckError::OmahaRequest(e)),
                })
                &&& r.effects@ == seq![Effect::Emit(StateMachineEvent::StateChange(State::ErrorCheckingForUpdate))]
                &&& r.next is FailedCheckCount
                &&& new.state == State::ErrorCheckingForUpdate
            },
        }
    })
}

/// What `on_waited` does.
pub open spec fn waited_done(old: StateMachine, new: StateMachine, r: Step) -> bool {
    &&& new.keeps_data(&old)
    &&& r.effects@.len() == 0
    &&& old.phase is Backoff ==> {
        &&& new.phase == (Phase::Exchange {
            params: old.phase->Backoff_params,
            attempt: (old.phase->Backoff_attempt + 1) as u64,
            start_mono: old.phase->Backoff_start_mono,
        })
        &&& r.next is Exchange
        &&& is_update_check_request(r.next->Exchange_0, old.phase->Backoff_params, old.apps@)
    }
    &&& old.phase is RebootWait ==> {
        &&& new.phase is RebootAllowed
        &&& r.next == Query::RebootAllowed(old.options)
    }
}

/// What `on_parsed` does.
pub open spec fn parsed_done(old: StateMachine, parsed: Result<OmahaResponse, ResponseParseError>, new: StateMachine, r: Step) -> bool {
    &&& new.context == old.context
    &&& new.app_set == old.app_set
    &&& ({
        let params = old.phase->Parse_params;
        match parsed {
            Err(e) => {
                &&& new.phase == (Phase::Record { result: Err(UpdateCheckError::ResponseParser(e)) })
                &&& new.state == State::ErrorCheckingForUpdate
                &&& r.effects@.len() == 2
                &&& r.effects@[0] == Effect::Emit(StateMachineEvent::StateChange(State::ErrorCheckingForUpdate))
                &&& r.effects@[1] is SendEvent
                &&& is_event_request(r.effects@[1]->SendEvent_0, params, old.apps@,
                    Event::error_of(EventErrorCode::ParseResponse))
                &&& r.next is FailedCheckCount
            },
            Ok(resp) => {
                &&& r.effects@[0] is Emit
                &&& r.effects@[0]->Emit_0 is OmahaServerResponse
                &&& r.effects@[0]->Emit_0->OmahaServerResponse_0.protocol_version == resp.protocol_version
                &&& r.effects@[0]->Emit_0->OmahaServerResponse_0.daystart == resp.daystart
                &&& r.effects@[0]->Emit_0->OmahaServerResponse_0.apps@ == resp.apps@
                &&& if some_app_has_update(resp.apps@) {
                    &&& r.effects@.len() == 1
                    &&& new.phase == (Phase::CreatePlan { params, response: resp })
                    &&& new.state == old.state
                    &&& r.next is CreatePlan
                    &&& r.next->CreatePlan_0 == params
                    &&& r.next->CreatePlan_1.protocol_version == resp.protocol_version
                    &&& r.next->CreatePlan_1.daystart == resp.daystart
                    &&& r.next->CreatePlan_1.apps@ == resp.apps@
                } else {
                    &&& r.effects@.len() == 2
                    &&& r.effects@[1] == Effect::Emit(StateMachineEvent::StateChange(State::NoUpdateAvailable))
                    &&& new.state == State::NoUpdateAvailable
                    &&& new.phase is Record
                    &&& new.phase->Record_result is Ok
                    &&& is_response_of(new.phase->Record_result->Ok_0, resp, Action::NoUpdate)
                    &&& r.next is FailedCheckCount
                }
            },
        }
    })
}

/// What `on_plan_created` does.
pub open spec fn plan_created_done(old: StateMachine, created: Result<String, anyhow::Error>, new: StateMachine, r: Step) -> bool {
    &&& new.context == old.context
    &&& new.app_set == old.app_set
    &&& ({
        let params = old.phase->CreatePlan_params;
        let response = old.phase->CreatePlan_response;
        match created {
            Ok(id) => {
                &&& new.phase == (Phase::CanStart { params, response, plan_id: id })
                &&& r.effects@.len() == 0
                &&& r.next == Query::CanStart
                &&& new.state == old.state
            },
            Err(e) => {
                &&& new.phase == (Phase::Record { result: Err(UpdateCheckError::InstallPlan(e)) })
                &&& r.effects@.len() == 3
                &&& r.effects@[0] == Effect::Emit(StateMachineEvent::StateChange(State::InstallingUpdate))
                &&& r.effects@[1] == Effect::Emit(StateMachineEvent::StateChange(State::InstallationError))
                &&& r.effects@[2] is SendEvent
                &&& is_event_request(r.effects@[2]->SendEvent_0, params, old.apps@,
                    Event::error_of(EventErrorCode::ConstructInstallPlan))
                &&& new.state == State::InstallationError
                &&& r.next is FailedCheckCount
            },
        }
    })
}

/// What `on_update_decision` does.
pub open spec fn update_decision_done(old: StateMachine, decision: UpdateDecision, new: StateMachine, r: Step) -> bool {
    &&& new.context == old.context
    &&& new.app_set == old.app_set
    &&& ({
        let params = old.phase->CanStart_params;
        let response = old.phase->CanStart_response;
        let plan_id = old.phase->CanStart_plan_id;
        match decision {
            UpdateDecision::Allowed => {
                &&& new.phase == (Phase::FirstSeen { params, response, plan_id })
                &&& r.effects@.len() == 2
                &&& r.effects@[0] == Effect::Emit(StateMachineEvent::StateChange(State::InstallingUpdate))
                &&& r.effects@[1] is SendEvent
                &&& is_event_request(r.effects@[1]->SendEvent_0, params, old.apps@,
                    Event::success_of(EventType::UpdateDownloadStarted))
                &&& new.state == State::InstallingUpdate
                &&& r.next == Query::FirstSeen
            },
            UpdateDecision::DeferredByPolicy => {
                &&& r.effects@.len() == 2
                &&& r.effects@[0] is SendEvent
                &&& is_event_request(r.effects@[0]->SendEvent_0, params, old.apps@,
                    Event::deferred_of())
                &&& r.effects@[1] == Effect::Emit(StateMachineEvent::StateChange(State::InstallationDeferredByPolicy))
                &&& new.state == State::InstallationDeferredByPolicy
                &&& new.phase is Record
                &&& new.phase->Record_result is Ok
                &&& is_response_of(new.phase->Record_result->Ok_0, response, Action::DeferredByPolicy)
                &&& r.next is FailedCheckCount
            },
            UpdateDecision::DeniedByPolicy => {
                &&& r.effects@.len() == 3
                &&& r.effects@[0] == Effect::Emit(StateMachineEvent::StateChange(State::InstallingUpdate))
                &&& r.effects@[1] == Effect::Emit(StateMachineEvent::StateChange(State::InstallationError))
                &&& r.effects@[2] is SendEvent
                &&& is_event_request(r.effects@[2]->SendEvent_0, params, old.apps@,
                    Event::error_of(EventErrorCode::DeniedByPolicy))
                &&& new.state == State::InstallationError
                &&& new.phase is Record
                &&& new.phase->Record_result is Ok
                &&& is_response_of(new.phase->Record_result->Ok_0, response, Action::DeniedByPolicy)
                &&& r.next is FailedCheckCount
            },
        }
    })
}

/// What `on_first_seen` does.
pub open spec fn first_seen_done(old: StateMachine, now: ComplexTime, install_plan_id: Option<String>, first_seen: Option<i64>, new: StateMachine, r: Step) -> bool {
    &&& new.keeps_data(&old)
    &&& r.effects@.len() == 0
    &&& ({
        let params = old.phase->FirstSeen_params;
        let response = old.phase->FirstSeen_response;
        let plan_id = old.phase->FirstSeen_plan_id;
        if same_plan(install_plan_id, plan_id) {
            &&& new.phase == (Phase::Install {
                params,
                response,
                start: now.wall_micros,
                first_seen: match first_seen {
                    Some(t) => t,
                    None => now.wall_micros,
                },
            })
            &&& r.next == Query::Install
        } else {
            &&& new.phase == (Phase::WriteFirstSeenId { params, response, start: now.wall_micros })
            &&& r.next is Write
            &&& r.next->Write_0 is SetString
            &&& r.next->Write_0->SetString_0 == StorageKey::InstallPlanId
            &&& r.next->Write_0->SetString_1@ == plan_id@
        }
    })
}

/// What `on_written` does.
pub open spec fn written_done(old: StateMachine, succeeded: bool, new: StateMachine, r: Step) -> bool {
    &&& new.keeps_data(&old)
    &&& old.phase is WriteFirstSeenId ==> {
        let params = old.phase->WriteFirstSeenId_params;
        let response = old.phase->WriteFirstSeenId_response;
        let start = old.phase->WriteFirstSeenId_start;
        &&& r.effects@.len() == 0
        &&& if succeeded {
            &&& new.phase == (Phase::WriteFirstSeenTime { params, response, start })
            &&& r.next is Write
            &&& r.next->Write_0 == StorageOp::SetOptionInt(StorageKey::UpdateFirstSeenTime, Some(start))
        } else {
            &&& new.phase == (Phase::Install { params, response, start, first_seen: start })
            &&& r.next == Query::Install
        }
    }
    &&& old.phase is WriteFirstSeenTime ==> {
        let params = old.phase->WriteFirstSeenTime_params;
        let response = old.phase->WriteFirstSeenTime_response;
        let start = old.phase->WriteFirstSeenTime_start;
        &&& new.phase == (Phase::Install { params, response, start, first_seen: start })
        &&& r.next == Query::Install
        &&& r.effects@ == if succeeded {
            seq![Effect::Store(StorageOp::Commit)]
        } else {
            seq![Effect::Store(StorageOp::Remove(StorageKey::InstallPlanId))]
        }
    }
}

/// What `on_progress` does.
pub open spec fn progress_done(old: StateMachine, progress: InstallProgress, new: StateMachine, r: Step) -> bool {
    &&& new.keeps_data(&old)
    &&& new.phase == old.phase
    &&& r.effects@ == seq![Effect::Emit(StateMachineEvent::InstallProgressChange(progress))]
    &&& r.next == Query::Install
}

/// What `on_installed` does.
pub open spec fn installed_done(old: StateMachine, now: ComplexTime, succeeded: bool, new: StateMachine, r: Step) -> bool {
    &&& new.context == old.context
    &&& new.app_set == old.app_set
    &&& r.next is FailedCheckCount
    &&& ({
        let params = old.phase->Install_params;
        let response = old.phase->Install_response;
        let start = old.phase->Install_start;
        let first_seen = old.phase->Install_first_seen;
        &&& new.install@ == Some(InstallTimes {
            succeeded,
            start: start as int,
            first_seen: first_seen as int,
            finish: now.wall_micros as int,
        })
        &&& new.phase is Record
        &&& new.phase->Record_result is Ok
        &&& if succeeded {
            &&& is_response_of(new.phase->Record_result->Ok_0, response, Action::Updated)
            &&& new.state == State::WaitingForReboot
            &&& r.effects@.len() >= 3
            &&& r.effects@[0] is SendEvent
            &&& is_event_request(r.effects@[0]->SendEvent_0, params, old.apps@,
                Event::success_of(EventType::UpdateDownloadFinished))
            &&& r.effects@[1] is SendEvent
            &&& is_event_request(r.effects@[1]->SendEvent_0, params, old.apps@,
                Event::success_of(EventType::UpdateComplete))
            &&& r.effects@.subrange(2, r.effects@.len() as int) == success_reports(start, first_seen, now.wall_micros)
                + seq![Effect::Emit(StateMachineEvent::StateChange(State::WaitingForReboot))]
        } else {
            &&& is_response_of(new.phase->Record_result->Ok_0, response, Action::InstallPlanExecutionError)
            &&& new.state == State::InstallationError
            &&& r.effects@.len() >= 2
            &&& r.effects@[0] == Effect::Emit(StateMachineEvent::StateChange(State::InstallationError))
            &&& r.effects@[1] is SendEvent
            &&& is_event_request(r.effects@[1]->SendEvent_0, params, old.apps@,
                Event::error_of(EventErrorCode::Installation))
            &&& r.effects@.subrange(2, r.effects@.len() as int) == failure_reports(start, now.wall_micros)
        }
    })
}

/// What `on_failed_check_count` does.
pub open spec fn failed_check_count_done(old: StateMachine, now: ComplexTime, stored: Option<i64>, new: StateMachine, r: Step) -> bool {
    &&& ({
        let result = old.phase->Record_result;
        let n = old.app_set.apps@.len() as int;
        &&& new.context == recorded_context(old.context, result, now)
        &&& (new.context.state.consecutive_failed_update_checks == 0) == (result is Ok)
        &&& new.app_set.apps@.len() == n
        &&& forall|i: int| 0 <= i < n ==> #[trigger] new.app_set.apps@[i] == match result {
            Ok(resp) => updated_app(old.app_set.apps@[i], resp.app_responses@),
            Err(_) => old.app_set.apps@[i],
        }
        &&& r.effects@.len() >= 8 + n
        &&& r.effects@.subrange(0, 2) == count_effects(result, stored)
        &&& r.effects@[2] == Effect::Emit(StateMachineEvent::ScheduleChange(new.context.schedule))
        &&& r.effects@[3] == Effect::Emit(StateMachineEvent::ProtocolStateChange(new.context.state))
        &&& r.effects@[4] == Effect::Emit(StateMachineEvent::UpdateCheckResult(result))
        &&& r.effects@[5] == Effect::Store(StorageOp::SetOptionInt(
            StorageKey::LastUpdateTime,
            match new.context.schedule.last_update_time {
                Some(t) => Some(t.wall_micros),
                None => None,
            },
        ))
        &&& r.effects@[6] == Effect::Store(StorageOp::SetOptionInt(
            StorageKey::ServerDictatedPollInterval,
            match new.context.state.server_dictated_poll_interval {
                Some(t) => Some(#[verifier::truncate] (t as i64)),
                None => None,
            },
        ))
        &&& forall|i: int| 0 <= i < n ==> {
            &&& #[trigger] r.effects@[7 + i] is Store
            &&& r.effects@[7 + i]->Store_0 is SaveApp
            &&& same_app(r.effects@[7 + i]->Store_0->SaveApp_0, new.app_set.apps@[i])
        }
        &&& r.effects@[7 + n] == Effect::Store(StorageOp::Commit)
        &&& if old.state == State::WaitingForReboot {
            &&& r.effects@.len() == 8 + n
            &&& new.phase is RebootAllowed
            &&& new.state == old.state
            &&& r.next == Query::RebootAllowed(old.options)
        } else {
            &&& r.effects@.len() == 9 + n
            &&& r.effects@[8 + n] == Effect::Emit(StateMachineEvent::StateChange(State::Idle))
            &&& new.phase is Idle
            &&& new.state == State::Idle
            &&& r.next == Query::Idle
        }
    })
}

/// What `on_reboot_allowed` does.
pub open spec fn reboot_allowed_done(old: StateMachine, allowed: bool, new: StateMachine, r: Step) -> bool {
    &&& new.keeps_data(&old)
    &&& r.effects@.len() == 0
    &&& allowed ==> new.phase is Reboot && r.next == Query::Reboot
    &&& !allowed ==> new.phase is RebootWait && r.next == Query::Wait(REBOOT_RETRY_MS)
}

/// What `on_rebooted` does.
pub open spec fn rebooted_done(old: StateMachine, new: StateMachine, r: Step) -> bool {
    &&& new.phase is Idle
    &&& new.state == State::Idle
    &&& new.context == old.context
    &&& new.app_set == old.app_set
    &&& r.effects@ == seq![Effect::Emit(StateMachineEvent::StateChange(State::Idle))]
    &&& r.next == Query::Idle
}

impl StateMachine {
    /// Lengths stay within what the machine can address, exchange numbers within the
    /// allowed attempts, and the attempt's effects so far obey `trace_ok`.
    pub open spec fn wf(&self) -> bool {
        &&& 2 * self.apps@.len() <= usize::MAX
        &&& 2 * self.app_set.apps@.len() <= usize::MAX
        &&& match self.phase {
            Phase::Exchange { attempt, .. } => 1 <= attempt <= 3,
            Phase::Backoff { attempt, .. } => 1 <= attempt < 3,
            _ => true,
        }
        &&& trace_ok(self.phase, self.trace@, self.install@)
    }

    /// An attempt is under way.
    pub open spec fn spec_in_progress(&self) -> bool {
        !(self.phase is Idle)
    }

    /// Everything but the phase and the trace stays.
    pub open spec fn keeps_data(&self, other: &StateMachine) -> bool {
        &&& self.context == other.context
        &&& self.state == other.state
        &&& self.app_set == other.app_set
        &&& self.options == other.options
        &&& self.apps == other.apps
        &&& self.install == other.install
    }

    pub fn new(app_set: AppSet, context: Context) -> (r: StateMachine)
        requires
            2 * app_set.apps@.len() <= usize::MAX,
        ensures
            r.wf(),
            r.context == context,
            r.app_set == app_set,
            r.state == State::Idle,
            r.phase is Idle,
            r.trace@.len() == 0,
    {
        StateMachine {
            context,
            state: State::Idle,
            app_set,
            phase: Phase::Idle,
            options: CheckOptions::scheduled(),
            apps: Vec::new(),
            trace: Ghost(Seq::empty()),
            install: Ghost(None),
        }
    }

    pub fn in_progress(&self) -> (r: bool)
        ensures
            r == self.spec_in_progress(),
    {
        !matches!(self.phase, Phase::Idle)
    }

    /// Records the timing that the policy computed for the next check, and gives the
    /// schedule to observe.
    pub fn update_next_update_time(&mut self, timing: CheckTiming) -> (r: StateMachineEvent)
        requires
            old(self).wf(),
        ensures
            final(self).wf(),
            final(self).context.schedule == (UpdateCheckSchedule {
                next_update_time: Some(timing),
                ..old(self).context.schedule
            }),
            final(self).context.state == old(self).context.state,
            final(self).phase == old(self).phase,
            r == StateMachineEvent::ScheduleChange(final(self).context.schedule),
    {
        self.context.schedule.next_update_time = Some(timing);
        StateMachineEvent::ScheduleChange(self.context.schedule)
    }

    /// Starts an attempt with these options; the policy is asked first.
    pub fn start_update_check(&mut self, options: CheckOptions) -> (r: Step)
        requires
            old(self).wf(),
            !old(self).spec_in_progress(),
        ensures
            final(self).wf(),
            final(self).phase is CheckAllowed,
            final(self).options == options,
            same_apps(final(self).apps@, old(self).app_set.apps@),
            final(self).trace@.len() == 0,
            final(self).context == old(self).context,
            final(self).app_set == old(self).app_set,
            final(self).state == old(self).state,
            r.effects@.len() == 0,
            r.next == Query::CheckAllowed(options),
    {
        self.options = options;
        self.apps = self.app_set.to_vec();
        self.trace = Ghost(Seq::empty());
        self.install = Ghost(None);
        self.phase = Phase::CheckAllowed;
        Step { effects: Vec::new(), next: Query::CheckAllowed(options) }
    }

    /// A request to check now: ignored while an attempt is under way, else it starts
    /// one with its options.
    pub fn handle_control_request(&mut self, options: CheckOptions) -> (r: (StartUpdateCheckResponse, Option<Step>))
        requires
            old(self).wf(),
        ensures
            final(self).wf(),
            old(self).spec_in_progress() ==> r.0 == StartUpdateCheckResponse::AlreadyRunning && r.1 is None
                && *final(self) == *old(self),
            !old(self).spec_in_progress() ==> r.0 == StartUpdateCheckResponse::Started && r.1 is Some
                && final(self).phase is CheckAllowed && final(self).options == options
                && r.1->Some_0.next == Query::CheckAllowed(options),
    {
        if self.in_progress() {
            (StartUpdateCheckResponse::AlreadyRunning, None)
        } else {
            let step = self.start_update_check(options);
            (StartUpdateCheckResponse::Started, Some(step))
        }
    }

    fn take_phase(&mut self) -> (p: Phase)
        ensures
            p == old(self).phase,
            final(self).phase is Idle,
            final(self).keeps_data(old(self)),
            final(self).trace == old(self).trace,
    {
        let mut p = Phase::Idle;
        std::mem::swap(&mut p, &mut self.phase);
        p
    }

    fn set_state(&mut self, effects: &mut Vec<Effect>, state: State)
        ensures
            final(effects)@ == old(effects)@.push(Effect::Emit(StateMachineEvent::StateChange(state))),
            final(self).state == state,
            final(self).context == old(self).context,
            final(self).app_set == old(self).app_set,
            final(self).options == old(self).options,
            final(self).apps == old(self).apps,
            final(self).install == old(self).install,
            final(self).phase == old(self).phase,
            final(self).trace == old(self).trace,
    {
        self.state = state;
        effects.push(Effect::Emit(StateMachineEvent::StateChange(state)));
    }

    /// Ends a step of an attempt that has no result yet: enters `phase`, and adds the
    /// effects to the trace.
    fn conclude(&mut self, effects: Vec<Effect>, phase: Phase, next: Query) -> (r: Step)
        requires
            open_trace(old(self).trace@, old(self).install@),
            quiet(effects@),
            !(phase is Idle),
            !is_reboot_phase(phase),
        ensures
            final(self).keeps_data(old(self)),
            final(self).phase == phase,
            final(self).trace@ == old(self).trace@ + effects@,
            trace_ok(final(self).phase, final(self).trace@, final(self).install@),
            r.effects == effects,
            r.next == next,
    {
        proof {
            lemma_quiet_concat(self.trace@, effects@);
        }
        self.trace = Ghost(self.trace@ + effects@);
        self.phase = phase;
        Step { effects, next }
    }

    /// The policy's answer: an allowed check enters `CheckingForUpdates`; any other
    /// answer ends the attempt with `Policy`.
    pub fn on_check_decision(&mut self, decision: CheckDecision) -> (r: Step)
        requires
            old(self).wf(),
            old(self).phase is CheckAllowed,
        ensures
            final(self).wf(),
            final(self).trace@ == old(self).trace@ + r.effects@,
            check_decision_done(*old(self), decision, *final(self), r),
    {
        let _ = self.take_phase();
        let mut effects: Vec<Effect> = Vec::new();
        match decision {
            CheckDecision::Allowed(params) | CheckDecision::OkUpdateDeferred(params) => {
                self.set_state(&mut effects, State::CheckingForUpdates);
                self.conclude(effects, Phase::LastCheckTime { params }, Query::LastCheckTime)
            },
            _ => {
                self.conclude(
                    effects,
                    Phase::Record { result: Err(UpdateCheckError::Policy(decision)) },
                    Query::FailedCheckCount,
                )
            },
        }
    }

    /// The check starts: the interval since the stored last check is reported (when
    /// that time is not in the future), now becomes the last check time, and the
    /// first exchange is asked for.
    pub fn on_last_check_time(&mut self, now: ComplexTime, stored: Option<i64>) -> (r: Step)
        requires
            old(self).wf(),
            old(self).phase is LastCheckTime,
        ensures
            final(self).wf(),
            final(self).trace@ == old(self).trace@ + r.effects@,
            last_check_time_done(*old(self), now, stored, *final(self), r),
    {
        let params = match self.take_phase() {
            Phase::LastCheckTime { params } => params,
            _ => { proof { assert(false); } RequestParams { source: self.options.source, use_configured_proxies: true } },
        };
        let mut effects: Vec<Effect> = Vec::new();
        if let Some(last) = stored {
            if let Some(d) = micros_between(last, now.wall_micros) {
                effects.push(Effect::Report(Metrics::UpdateCheckInterval(d)));
            }
        }
        effects.push(Effect::Store(StorageOp::SetOptionInt(StorageKey::LastCheckTime, Some(now.wall_micros))));
        effects.push(Effect::Store(StorageOp::Commit));
        proof {
            assert(effects@ =~= interval_reports(stored, now.wall_micros) + seq![
                Effect::Store(StorageOp::SetOptionInt(StorageKey::LastCheckTime, Some(now.wall_micros))),
                Effect::Store(StorageOp::Commit),
            ]);
        }
        let request = update_check_request(params, &self.apps);
        self.conclude(
            effects,
            Phase::Exchange { params, attempt: 1, start_mono: now.mono_micros },
            Query::Exchange(request),
        )
    }
    /// The reply of exchange number `attempt`. A success (status 200..=299) reports the
    /// response time and the exchanges used, and asks to parse the body. A failure that
    /// `should_retry` allows waits a randomized backoff; any other enters
    /// `ErrorCheckingForUpdate` and ends the attempt with `OmahaRequest`.
    pub fn on_exchanged(&mut self, now: ComplexTime, reply: Result<HttpReply, OmahaRequestError>) -> (r: Step)
        requires
            old(self).wf(),
            old(self).phase is Exchange,
        ensures
            final(self).wf(),
            final(self).trace@ == old(self).trace@ + r.effects@,
            exchanged_done(*old(self), now, reply, *final(self), r),
    {
        let (params, attempt, start) = match self.take_phase() {
            Phase::Exchange { params, attempt, start_mono } => (params, attempt, start_mono),
            _ => { proof { assert(false); } (RequestParams { source: self.options.source, use_configured_proxies: true }, 1, 0) },
        };
        let mut effects: Vec<Effect> = Vec::new();
        let checked = match reply {
            Ok(r) => check_status(r),
            Err(e) => Err(e),
        };
        match checked {
            Ok(r) => {
                let elapsed = now.mono_micros.saturating_sub(start);
                effects.push(Effect::Report(Metrics::UpdateCheckResponseTime(elapsed)));
                effects.push(Effect::Report(Metrics::UpdateCheckRetries(attempt)));
                proof {
                    assert(effects@ =~= seq![
                        Effect::Report(Metrics::UpdateCheckResponseTime(elapsed)),
                        Effect::Report(Metrics::UpdateCheckRetries(attempt)),
                    ]);
                }
                self.conclude(effects, Phase::Parse { params }, Query::Parse(r.body))
            },
            Err(e) => {
                if retry_after(&e, attempt) {
                    let wait = backoff_ms(attempt);
                    self.conclude(effects, Phase::Backoff { params, attempt, start_mono: start }, Query::Wait(wait))
                } else {
                    self.set_state(&mut effects, State::ErrorCheckingForUpdate);
                    self.conclude(
                        effects,
                        Phase::Record { result: Err(UpdateCheckError::OmahaRequest(e)) },
                        Query::FailedCheckCount,
                    )
                }
            },
        }
    }

    /// A wait is over: after a backoff the next exchange is asked for; after a refused
    /// reboot the policy is asked again.
    pub fn on_waited(&mut self) -> (r: Step)
        requires
            old(self).wf(),
            old(self).phase is Backoff || old(self).phase is RebootWait,
        ensures
            final(self).wf(),
            final(self).trace@ == old(self).trace@ + r.effects@,
            waited_done(*old(self), *final(self), r),
    {
        match self.take_phase() {
            Phase::Backoff { params, attempt, start_mono } => {
                let request = update_check_request(params, &self.apps);
                self.conclude(
                    Vec::new(),
                    Phase::Exchange { params, attempt: attempt + 1, start_mono },
                    Query::Exchange(request),
                )
            },
            _ => {
                self.phase = Phase::RebootAllowed;
                proof {
                    assert(self.trace@ + Seq::<Effect>::empty() =~= self.trace@);
                }
                Step { effects: Vec::new(), next: Query::RebootAllowed(self.options) }
            },
        }
    }

    /// The parsed reply. A parse failure enters `ErrorCheckingForUpdate`, reports a
    /// `ParseResponse` error event and ends the attempt with `ResponseParser`. A
    /// response is observed; without an app that has an update the attempt ends in
    /// `NoUpdateAvailable` with `NoUpdate` for every app, else an install plan is asked
    /// for.
    pub fn on_parsed(&mut self, parsed: Result<OmahaResponse, ResponseParseError>) -> (r: Step)
        requires
            old(self).wf(),
            old(self).phase is Parse,
        ensures
            final(self).wf(),
            final(self).trace@ == old(self).trace@ + r.effects@,
            parsed_done(*old(self), parsed, *final(self), r),
    {
        let params = match self.take_phase() {
            Phase::Parse { params } => params,
            _ => { proof { assert(false); } RequestParams { source: self.options.source, use_configured_proxies: true } },
        };
        let mut effects: Vec<Effect> = Vec::new();
        match parsed {
            Err(e) => {
                self.set_state(&mut effects, State::ErrorCheckingForUpdate);
                effects.push(Effect::SendEvent(event_request(params, &self.apps, Event::error(EventErrorCode::ParseResponse))));
                self.conclude(
                    effects,
                    Phase::Record { result: Err(UpdateCheckError::ResponseParser(e)) },
                    Query::FailedCheckCount,
                )
            },
            Ok(resp) => {
                effects.push(Effect::Emit(StateMachineEvent::OmahaServerResponse(resp.duplicate())));
                if resp.has_update() {
                    let copy = resp.duplicate();
                    self.conclude(effects, Phase::CreatePlan { params, response: resp }, Query::CreatePlan(params, copy))
                } else {
                    self.set_state(&mut effects, State::NoUpdateAvailable);
                    let result = make_response(&resp, Action::NoUpdate);
                    self.conclude(effects, Phase::Record { result: Ok(result) }, Query::FailedCheckCount)
                }
            },
        }
    }

    /// Enters `InstallingUpdate` and then `InstallationError`, and reports the error to
    /// the service.
    fn report_error(&mut self, effects: &mut Vec<Effect>, params: RequestParams, errorcode: EventErrorCode)
        ensures
            final(effects)@.len() == old(effects)@.len() + 2,
            final(effects)@.subrange(0, old(effects)@.len() as int) == old(effects)@,
            final(effects)@[old(effects)@.len() as int] == Effect::Emit(StateMachineEvent::StateChange(State::InstallationError)),
            final(effects)@[old(effects)@.len() as int + 1] is SendEvent,
            is_event_request(final(effects)@[old(effects)@.len() as int + 1]->SendEvent_0, params, old(self).apps@,
                Event::error_of(errorcode)),
            final(self).state == State::InstallationError,
            final(self).context == old(self).context,
            final(self).app_set == old(self).app_set,
            final(self).options == old(self).options,
            final(self).apps == old(self).apps,
            final(self).install == old(self).install,
            final(self).phase == old(self).phase,
            final(self).trace == old(self).trace,
            count(final(effects)@, Counted::CheckResult) == count(old(effects)@, Counted::CheckResult),
            count(final(effects)@, Counted::SuccessfulUpdateDuration) == count(old(effects)@, Counted::SuccessfulUpdateDuration),
            count(final(effects)@, Counted::SuccessfulUpdateFromFirstSeen) == count(old(effects)@, Counted::SuccessfulUpdateFromFirstSeen),
            (forall|i: int| 0 <= i < old(effects)@.len() ==> #[trigger] retries_in_bounds(old(effects)@[i])) ==>
                (forall|i: int| 0 <= i < final(effects)@.len() ==> #[trigger] retries_in_bounds(final(effects)@[i])),
    {
        self.set_state(effects, State::InstallationError);
        effects.push(Effect::SendEvent(event_request(params, &self.apps, Event::error(errorcode))));
        proof {
            assert(effects@.subrange(0, old(effects)@.len() as int) =~= old(effects)@);
        }
    }

    /// The installer's plan. Without one the attempt enters `InstallingUpdate` then
    /// `InstallationError`, reports a `ConstructInstallPlan` error event and ends with
    /// `InstallPlan`; with one the policy is asked whether it may start.
    pub fn on_plan_created(&mut self, created: Result<String, anyhow::Error>) -> (r: Step)
        requires
            old(self).wf(),
            old(self).phase is CreatePlan,
        ensures
            final(self).wf(),
            final(self).trace@ == old(self).trace@ + r.effects@,
            plan_created_done(*old(self), created, *final(self), r),
    {
        let (params, response) = match self.take_phase() {
            Phase::CreatePlan { params, response } => (params, response),
            _ => { proof { assert(false); } (RequestParams { source: self.options.source, use_configured_proxies: true }, OmahaResponse { protocol_version: String::new(), daystart: None, apps: Vec::new() }) },
        };
        let mut effects: Vec<Effect> = Vec::new();
        match created {
            Ok(plan_id) => self.conclude(effects, Phase::CanStart { params, response, plan_id }, Query::CanStart),
            Err(e) => {
                self.set_state(&mut effects, State::InstallingUpdate);
                self.report_error(&mut effects, params, EventErrorCode::ConstructInstallPlan);
                self.conclude(effects, Phase::Record { result: Err(UpdateCheckError::InstallPlan(e)) }, Query::FailedCheckCount)
            },
        }
    }
    /// The policy's answer on the plan. `Allowed` enters `InstallingUpdate`, reports
    /// `UpdateDownloadStarted` and asks for the first-seen record. `DeferredByPolicy`
    /// reports an `UpdateDeferred` event, enters `InstallationDeferredByPolicy` and ends
    /// the attempt with `DeferredByPolicy` for every app. `DeniedByPolicy` enters
    /// `InstallingUpdate` then `InstallationError`, reports a `DeniedByPolicy` error event
    /// and ends the attempt with `DeniedByPolicy` for every app.
    pub fn on_update_decision(&mut self, decision: UpdateDecision) -> (r: Step)
        requires
            old(self).wf(),
            old(self).phase is CanStart,
        ensures
            final(self).wf(),
            final(self).trace@ == old(self).trace@ + r.effects@,
            update_decision_done(*old(self), decision, *final(self), r),
    {
        let (params, response, plan_id) = match self.take_phase() {
            Phase::CanStart { params, response, plan_id } => (params, response, plan_id),
            _ => { proof { assert(false); } (RequestParams { source: self.options.source, use_configured_proxies: true }, OmahaResponse { protocol_version: String::new(), daystart: None, apps: Vec::new() }, String::new()) },
        };
        let mut effects: Vec<Effect> = Vec::new();
        match decision {
            UpdateDecision::Allowed => {
                self.set_state(&mut effects, State::InstallingUpdate);
                effects.push(Effect::SendEvent(event_request(params, &self.apps, Event::success(EventType::UpdateDownloadStarted))));
                self.conclude(effects, Phase::FirstSeen { params, response, plan_id }, Query::FirstSeen)
            },
            UpdateDecision::DeferredByPolicy => {
                effects.push(Effect::SendEvent(event_request(params, &self.apps, Event::deferred())));
                self.set_state(&mut effects, State::InstallationDeferredByPolicy);
                let result = make_response(&response, Action::DeferredByPolicy);
                self.conclude(effects, Phase::Record { result: Ok(result) }, Query::FailedCheckCount)
            },
            UpdateDecision::DeniedByPolicy => {
                self.set_state(&mut effects, State::InstallingUpdate);
                self.report_error(&mut effects, params, EventErrorCode::DeniedByPolicy);
                let result = make_response(&response, Action::DeniedByPolicy);
                self.conclude(effects, Phase::Record { result: Ok(result) }, Query::FailedCheckCount)
            },
        }
    }

    /// The stored first-seen record, read as the install starts at `now`. The plan on
    /// record keeps its first-seen time and the install is asked for; a new plan has its
    /// id written first, then now as its first-seen time.
    pub fn on_first_seen(&mut self, now: ComplexTime, install_plan_id: Option<String>, first_seen: Option<i64>) -> (r: Step)
        requires
            old(self).wf(),
            old(self).phase is FirstSeen,
        ensures
            final(self).wf(),
            final(self).trace@ == old(self).trace@ + r.effects@,
            first_seen_done(*old(self), now, install_plan_id, first_seen, *final(self), r),
    {
        let (params, response, plan_id) = match self.take_phase() {
            Phase::FirstSeen { params, response, plan_id } => (params, response, plan_id),
            _ => { proof { assert(false); } (RequestParams { source: self.options.source, use_configured_proxies: true }, OmahaResponse { protocol_version: String::new(), daystart: None, apps: Vec::new() }, String::new()) },
        };
        let seen = first_seen_time(&install_plan_id, first_seen, &plan_id, now.wall_micros);
        if seen.record {
            self.conclude(
                Vec::new(),
                Phase::WriteFirstSeenId { params, response, start: now.wall_micros },
                Query::Write(StorageOp::SetString(StorageKey::InstallPlanId, plan_id)),
            )
        } else {
            self.conclude(
                Vec::new(),
                Phase::Install { params, response, start: now.wall_micros, first_seen: seen.time },
                Query::Install,
            )
        }
    }

    /// Whether a write of the first-seen record succeeded. After the id, the time is
    /// written; after the time, the record is committed. When the id could not be
    /// written, or the time could not (the id is then removed again), the install
    /// starts all the same; its first-seen time is its start.
    pub fn on_written(&mut self, succeeded: bool) -> (r: Step)
        requires
            old(self).wf(),
            old(self).phase is WriteFirstSeenId || old(self).phase is WriteFirstSeenTime,
        ensures
            final(self).wf(),
            final(self).trace@ == old(self).trace@ + r.effects@,
            written_done(*old(self), succeeded, *final(self), r),
    {
        match self.take_phase() {
            Phase::WriteFirstSeenId { params, response, start } => {
                if succeeded {
                    self.conclude(
                        Vec::new(),
                        Phase::WriteFirstSeenTime { params, response, start },
                        Query::Write(StorageOp::SetOptionInt(StorageKey::UpdateFirstSeenTime, Some(start))),
                    )
                } else {
                    self.conclude(Vec::new(), Phase::Install { params, response, start, first_seen: start }, Query::Install)
                }
            },
            Phase::WriteFirstSeenTime { params, response, start } => {
                let mut effects: Vec<Effect> = Vec::new();
                if succeeded {
                    effects.push(Effect::Store(StorageOp::Commit));
                } else {
                    effects.push(Effect::Store(StorageOp::Remove(StorageKey::InstallPlanId)));
                }
                self.conclude(effects, Phase::Install { params, response, start, first_seen: start }, Query::Install)
            },
            _ => {
                proof { assert(false); }
                Step { effects: Vec::new(), next: Query::Install }
            },
        }
    }

    /// A progress tick of the installer is relayed to observers.
    pub fn on_progress(&mut self, progress: InstallProgress) -> (r: Step)
        requires
            old(self).wf(),
            old(self).phase is Install,
        ensures
            final(self).wf(),
            final(self).trace@ == old(self).trace@ + r.effects@,
            progress_done(*old(self), progress, *final(self), r),
    {
        let phase = self.take_phase();
        let mut effects: Vec<Effect> = Vec::new();
        effects.push(Effect::Emit(StateMachineEvent::InstallProgressChange(progress)));
        self.conclude(effects, phase, Query::Install)
    }
    /// The installer is done at `now`. A failure enters `InstallationError`, reports an
    /// `Installation` error event and the failure's duration, and ends the attempt with
    /// `InstallPlanExecutionError` for every app. A success reports
    /// `UpdateDownloadFinished` and `UpdateComplete`, the durations since the start and
    /// since the plan was first seen, enters `WaitingForReboot` and ends the attempt with
    /// `Updated` for every app.
    pub fn on_installed(&mut self, now: ComplexTime, succeeded: bool) -> (r: Step)
        requires
            old(self).wf(),
            old(self).phase is Install,
        ensures
            final(self).wf(),
            final(self).trace@ == old(self).trace@ + r.effects@,
            installed_done(*old(self), now, succeeded, *final(self), r),
    {
        let (params, response, start, first_seen) = match self.take_phase() {
            Phase::Install { params, response, start, first_seen } => (params, response, start, first_seen),
            _ => { proof { assert(false); } (RequestParams { source: self.options.source, use_configured_proxies: true }, OmahaResponse { protocol_version: String::new(), daystart: None, apps: Vec::new() }, 0, 0) },
        };
        let mut effects: Vec<Effect> = Vec::new();
        let result;
        if !succeeded {
            self.report_error(&mut effects, params, EventErrorCode::Installation);
            if let Some(d) = micros_between(start, now.wall_micros) {
                effects.push(Effect::Report(Metrics::FailedUpdateDuration(d)));
            }
            proof {
                assert(effects@.subrange(2, effects@.len() as int) =~= failure_reports(start, now.wall_micros));
            }
            result = make_response(&response, Action::InstallPlanExecutionError);
        } else {
            effects.push(Effect::SendEvent(event_request(params, &self.apps, Event::success(EventType::UpdateDownloadFinished))));
            effects.push(Effect::SendEvent(event_request(params, &self.apps, Event::success(EventType::UpdateComplete))));
            if let Some(d) = micros_between(start, now.wall_micros) {
                effects.push(Effect::Report(Metrics::SuccessfulUpdateDuration(d)));
            }
            if let Some(d) = micros_between(first_seen, now.wall_micros) {
                effects.push(Effect::Report(Metrics::SuccessfulUpdateFromFirstSeen(d)));
            }
            self.set_state(&mut effects, State::WaitingForReboot);
            proof {
                assert(effects@.subrange(2, effects@.len() as int) =~= success_reports(start, first_seen, now.wall_micros)
                    + seq![Effect::Emit(StateMachineEvent::StateChange(State::WaitingForReboot))]);
            }
            result = make_response(&response, Action::Updated);
        }
        self.install = Ghost(Some(InstallTimes {
            succeeded,
            start: start as int,
            first_seen: first_seen as int,
            finish: now.wall_micros as int,
        }));
        proof {
            lemma_count_concat(self.trace@, effects@, Counted::CheckResult);
            lemma_count_concat(self.trace@, effects@, Counted::SuccessfulUpdateDuration);
            lemma_count_concat(self.trace@, effects@, Counted::SuccessfulUpdateFromFirstSeen);
            lemma_retries_concat(self.trace@, effects@);
        }
        self.trace = Ghost(self.trace@ + effects@);
        self.phase = Phase::Record { result: Ok(result) };
        Step { effects, next: Query::FailedCheckCount }
    }
    /// Records the attempt's result, at `now`, with the stored count of failed checks.
    /// The context becomes `recorded_context` (the failed-check count is zero exactly
    /// after a success), a success applies what the service sent to the apps, and the
    /// count of failed checks is removed (reported as attempts to succeed) or raised.
    /// Observers then see the schedule, the protocol state and the result, in that
    /// order, and everything is persisted and committed. After an update the machine
    /// asks whether it may reboot; otherwise it returns to `Idle`.
    pub fn on_failed_check_count(&mut self, now: ComplexTime, stored: Option<i64>) -> (r: Step)
        requires
            old(self).wf(),
            old(self).phase is Record,
        ensures
            final(self).wf(),
            final(self).trace@ == old(self).trace@ + r.effects@,
            failed_check_count_done(*old(self), now, stored, *final(self), r),
    {
        let result = match self.take_phase() {
            Phase::Record { result } => result,
            _ => { proof { assert(false); } Err(UpdateCheckError::Policy(CheckDecision::TooSoon)) },
        };
        let ghost trace0 = self.trace@;
        let mut effects = self.record_result(&result, now, stored);
        let ghost initial = effects@;
        effects.push(Effect::Emit(StateMachineEvent::ScheduleChange(self.context.schedule)));
        effects.push(Effect::Emit(StateMachineEvent::ProtocolStateChange(self.context.state)));
        let ghost result0 = result;
        effects.push(Effect::Emit(StateMachineEvent::UpdateCheckResult(result)));
        let ghost prefix = effects@;
        assert(prefix[2] == Effect::Emit(StateMachineEvent::ScheduleChange(self.context.schedule)));
        assert(prefix[3] == Effect::Emit(StateMachineEvent::ProtocolStateChange(self.context.state)));
        assert(prefix[4] == Effect::Emit(StateMachineEvent::UpdateCheckResult(result0)));
        assert(prefix.subrange(0, 2) =~= initial);
        self.persist(&mut effects);
        proof {
            assert forall|k: int| 0 <= k < 5 implies effects@[k] == prefix[k] by {
                assert(effects@.subrange(0, 5)[k] == effects@[k]);
            }
            assert(effects@.subrange(0, 2) =~= prefix.subrange(0, 2));
        }
        let ghost saved = effects@;
        let next;
        if self.state == State::WaitingForReboot {
            self.phase = Phase::RebootAllowed;
            next = Query::RebootAllowed(self.options);
        } else {
            self.set_state(&mut effects, State::Idle);
            next = Query::Idle;
        }
        proof {
            assert forall|j: int| 0 <= j < saved.len() implies effects@[j] == saved[j] by {}
            assert(effects@.subrange(0, 2) =~= saved.subrange(0, 2));
            lemma_count_concat(trace0, effects@, Counted::CheckResult);
            lemma_count_concat(trace0, effects@, Counted::SuccessfulUpdateDuration);
            lemma_count_concat(trace0, effects@, Counted::SuccessfulUpdateFromFirstSeen);
            lemma_retries_concat(trace0, effects@);
            assert((trace0 + effects@).last() == effects@.last());
        }
        self.trace = Ghost(trace0 + effects@);
        Step { effects, next }
    }

    /// Applies the result to the context and the apps, and gives the effects on the
    /// count of failed checks.
    fn record_result(&mut self, result: &Result<Response, UpdateCheckError>, now: ComplexTime, stored: Option<i64>) -> (r: Vec<Effect>)
        ensures
            final(self).context == recorded_context(old(self).context, *result, now),
            final(self).app_set.apps@.len() == old(self).app_set.apps@.len(),
            forall|i: int| 0 <= i < old(self).app_set.apps@.len() ==> #[trigger] final(self).app_set.apps@[i] == match *result {
                Ok(resp) => updated_app(old(self).app_set.apps@[i], resp.app_responses@),
                Err(_) => old(self).app_set.apps@[i],
            },
            r@ == count_effects(*result, stored),
            quiet(r@),
            final(self).state == old(self).state,
            final(self).phase == old(self).phase,
            final(self).options == old(self).options,
            final(self).apps == old(self).apps,
            final(self).install == old(self).install,
            final(self).trace == old(self).trace,
    {
        let mut effects: Vec<Effect> = Vec::new();
        let attempts: i64 = match stored {
            Some(n) => if n == i64::MAX { n } else { n + 1 },
            None => 1,
        };
        match result {
            Ok(resp) => {
                self.context.schedule.last_update_time = Some(now);
                self.context.state.server_dictated_poll_interval = resp.server_dictated_poll_interval;
                if any_install_failed(&resp.app_responses) {
                    let a = self.context.state.consecutive_failed_update_attempts;
                    self.context.state.consecutive_failed_update_attempts = if a == u32::MAX { a } else { a + 1 };
                } else {
                    self.context.state.consecutive_failed_update_attempts = 0;
                }
                self.context.state.consecutive_failed_update_checks = 0;
                self.app_set.update_from_omaha(&resp.app_responses);
                effects.push(Effect::Store(StorageOp::Remove(StorageKey::ConsecutiveFailedUpdateChecks)));
                effects.push(Effect::Report(Metrics::AttemptsToSucceed(#[verifier::truncate] (attempts as u64))));
            },
            Err(e) => {
                let c = self.context.state.consecutive_failed_update_checks;
                self.context.state.consecutive_failed_update_checks = if c == u32::MAX { c } else { c + 1 };
                let reason = failure_reason(e);
                if let UpdateCheckFailureReason::Omaha = reason {
                    self.context.schedule.last_update_time = Some(now);
                }
                effects.push(Effect::Report(Metrics::UpdateCheckFailureReason(reason)));
                effects.push(Effect::Store(StorageOp::SetInt(StorageKey::ConsecutiveFailedUpdateChecks, attempts)));
            },
        }
        proof {
            assert(effects@ =~= count_effects(*result, stored));
        }
        effects
    }

    /// Persists the context and every app, then commits.
    fn persist(&self, effects: &mut Vec<Effect>)
        ensures
            final(effects)@.len() == old(effects)@.len() + 3 + self.app_set.apps@.len(),
            final(effects)@.subrange(0, old(effects)@.len() as int) == old(effects)@,
            ({
                let b = old(effects)@.len() as int;
                let n = self.app_set.apps@.len() as int;
                &&& final(effects)@[b] == Effect::Store(StorageOp::SetOptionInt(
                    StorageKey::LastUpdateTime,
                    match self.context.schedule.last_update_time {
                        Some(t) => Some(t.wall_micros),
                        None => None,
                    },
                ))
                &&& final(effects)@[b + 1] == Effect::Store(StorageOp::SetOptionInt(
                    StorageKey::ServerDictatedPollInterval,
                    match self.context.state.server_dictated_poll_interval {
                        Some(t) => Some(#[verifier::truncate] (t as i64)),
                        None => None,
                    },
                ))
                &&& forall|i: int| 0 <= i < n ==> {
                    &&& #[trigger] final(effects)@[b + 2 + i] is Store
                    &&& final(effects)@[b + 2 + i]->Store_0 is SaveApp
                    &&& same_app(final(effects)@[b + 2 + i]->Store_0->SaveApp_0, self.app_set.apps@[i])
                }
                &&& final(effects)@[b + 2 + n] == Effect::Store(StorageOp::Commit)
            }),
            count(final(effects)@, Counted::CheckResult) == count(old(effects)@, Counted::CheckResult),
            count(final(effects)@, Counted::SuccessfulUpdateDuration) == count(old(effects)@, Counted::SuccessfulUpdateDuration),
            count(final(effects)@, Counted::SuccessfulUpdateFromFirstSeen) == count(old(effects)@, Counted::SuccessfulUpdateFromFirstSeen),
            (forall|i: int| 0 <= i < old(effects)@.len() ==> #[trigger] retries_in_bounds(old(effects)@[i])) ==>
                (forall|i: int| 0 <= i < final(effects)@.len() ==> #[trigger] retries_in_bounds(final(effects)@[i])),
    {
        let ghost e0 = effects@;
        let ghost b = e0.len() as int;
        let last_update = match self.context.schedule.last_update_time {
            Some(t) => Some(t.wall_micros),
            None => None,
        };
        effects.push(Effect::Store(StorageOp::SetOptionInt(StorageKey::LastUpdateTime, last_update)));
        let interval = match self.context.state.server_dictated_poll_interval {
            Some(t) => Some(#[verifier::truncate] (t as i64)),
            None => None,
        };
        effects.push(Effect::Store(StorageOp::SetOptionInt(StorageKey::ServerDictatedPollInterval, interval)));
        let ghost prefix = effects@;
        assert forall|k: int| 0 <= k < b implies prefix[k] == e0[k] by {}
        assert(prefix[b] == Effect::Store(StorageOp::SetOptionInt(StorageKey::LastUpdateTime, last_update)));
        assert(prefix[b + 1] == Effect::Store(StorageOp::SetOptionInt(StorageKey::ServerDictatedPollInterval, interval)));
        let mut i: usize = 0;
        while i < self.app_set.apps.len()
            invariant
                i <= self.app_set.apps@.len(),
                prefix.len() == b + 2,
                effects@.len() == b + 2 + i,
                effects@.subrange(0, b + 2) == prefix,
                forall|j: int| 0 <= j < i ==> {
                    &&& #[trigger] effects@[b + 2 + j] is Store
                    &&& effects@[b + 2 + j]->Store_0 is SaveApp
                    &&& same_app(effects@[b + 2 + j]->Store_0->SaveApp_0, self.app_set.apps@[j])
                },
                count(effects@, Counted::CheckResult) == count(e0, Counted::CheckResult),
                count(effects@, Counted::SuccessfulUpdateDuration) == count(e0, Counted::SuccessfulUpdateDuration),
                count(effects@, Counted::SuccessfulUpdateFromFirstSeen) == count(e0, Counted::SuccessfulUpdateFromFirstSeen),
                (forall|j: int| 0 <= j < e0.len() ==> #[trigger] retries_in_bounds(e0[j])) ==>
                    (forall|j: int| 0 <= j < effects@.len() ==> #[trigger] retries_in_bounds(effects@[j])),
            decreases self.app_set.apps@.len() - i,
        {
            let ghost before = effects@;
            effects.push(Effect::Store(StorageOp::SaveApp(self.app_set.apps[i].duplicate())));
            proof {
                assert(effects@.subrange(0, b + 2) =~= before.subrange(0, b + 2));
            }
            i = i + 1;
        }
        let ghost saved = effects@;
        effects.push(Effect::Store(StorageOp::Commit));
        proof {
            assert forall|k: int| 0 <= k < saved.len() implies effects@[k] == saved[k] by {}
            assert forall|k: int| 0 <= k < b + 2 implies effects@[k] == prefix[k] by {
                assert(saved.subrange(0, b + 2)[k] == saved[k]);
            }
            assert(effects@.subrange(0, b) =~= e0);
        }
    }

    /// The policy's answer on rebooting: if allowed, the reboot is asked for; if not,
    /// a wait of `REBOOT_RETRY_MS` before asking again.
    pub fn on_reboot_allowed(&mut self, allowed: bool) -> (r: Step)
        requires
            old(self).wf(),
            old(self).phase is RebootAllowed,
        ensures
            final(self).wf(),
            final(self).trace@ == old(self).trace@ + r.effects@,
            reboot_allowed_done(*old(self), allowed, *final(self), r),
    {
        proof {
            assert(self.trace@ + Seq::<Effect>::empty() =~= self.trace@);
        }
        if allowed {
            self.phase = Phase::Reboot;
            Step { effects: Vec::new(), next: Query::Reboot }
        } else {
            self.phase = Phase::RebootWait;
            Step { effects: Vec::new(), next: Query::Wait(REBOOT_RETRY_MS) }
        }
    }

    /// The reboot was attempted (a failure is only logged): the machine returns to
    /// `Idle`.
    pub fn on_rebooted(&mut self) -> (r: Step)
        requires
            old(self).wf(),
            old(self).phase is Reboot,
        ensures
            final(self).wf(),
            final(self).trace@ == old(self).trace@ + r.effects@,
            rebooted_done(*old(self), *final(self), r),
    {
        let _ = self.take_phase();
        let mut effects: Vec<Effect> = Vec::new();
        self.set_state(&mut effects, State::Idle);
        proof {
            lemma_quiet_concat(self.trace@, effects@);
            assert((self.trace@ + effects@).last() == effects@.last());
        }
        self.trace = Ghost(self.trace@ + effects@);
        Step { effects, next: Query::Idle }
    }
    /// Hands the answer to the pending query to the transition of the current phase.
    pub fn step(&mut self, input: Input) -> (r: Step)
        requires
            old(self).wf(),
            accepts(old(self).phase, input),
        ensures
            final(self).wf(),
            final(self).trace@ == old(self).trace@ + r.effects@,
            match input {
                Input::CheckDecision(decision) => check_decision_done(*old(self), decision, *final(self), r),
                Input::LastCheckTime { now, stored } => last_check_time_done(*old(self), now, stored, *final(self), r),
                Input::Exchanged { now, reply } => exchanged_done(*old(self), now, reply, *final(self), r),
                Input::Waited => waited_done(*old(self), *final(self), r),
                Input::Parsed(parsed) => parsed_done(*old(self), parsed, *final(self), r),
                Input::PlanCreated(created) => plan_created_done(*old(self), created, *final(self), r),
                Input::UpdateDecision(decision) => update_decision_done(*old(self), decision, *final(self), r),
                Input::FirstSeen { now, install_plan_id, first_seen } => first_seen_done(*old(self), now, install_plan_id, first_seen, *final(self), r),
                Input::Written(succeeded) => written_done(*old(self), succeeded, *final(self), r),
                Input::Progress(progress) => progress_done(*old(self), progress, *final(self), r),
                Input::Installed { now, succeeded } => installed_done(*old(self), now, succeeded, *final(self), r),
                Input::FailedCheckCount { now, stored } => failed_check_count_done(*old(self), now, stored, *final(self), r),
                Input::RebootAllowed(allowed) => reboot_allowed_done(*old(self), allowed, *final(self), r),
                Input::Rebooted => rebooted_done(*old(self), *final(self), r),
            },
    {
        match input {
            Input::CheckDecision(d) => self.on_check_decision(d),
            Input::LastCheckTime { now, stored } => self.on_last_check_time(now, stored),
            Input::Exchanged { now, reply } => self.on_exchanged(now, reply),
            Input::Waited => self.on_waited(),
            Input::Parsed(parsed) => self.on_parsed(parsed),
            Input::PlanCreated(created) => self.on_plan_created(created),
            Input::UpdateDecision(d) => self.on_update_decision(d),
            Input::FirstSeen { now, install_plan_id, first_seen } => self.on_first_seen(now, install_plan_id, first_seen),
            Input::Written(succeeded) => self.on_written(succeeded),
            Input::Progress(p) => self.on_progress(p),
            Input::Installed { now, succeeded } => self.on_installed(now, succeeded),
            Input::FailedCheckCount { now, stored } => self.on_failed_check_count(now, stored),
            Input::RebootAllowed(allowed) => self.on_reboot_allowed(allowed),
            Input::Rebooted => self.on_rebooted(),
        }
    }

    /// Whether the current phase takes this input.
    pub fn accepts(&self, input: &Input) -> (r: bool)
        ensures
            r == accepts(self.phase, *input),
    {
        match (&self.phase, input) {
            (Phase::CheckAllowed, Input::CheckDecision(_)) => true,
            (Phase::LastCheckTime { .. }, Input::LastCheckTime { .. }) => true,
            (Phase::Exchange { .. }, Input::Exchanged { .. }) => true,
            (Phase::Backoff { .. }, Input::Waited) => true,
            (Phase::Parse { .. }, Input::Parsed(_)) => true,
            (Phase::CreatePlan { .. }, Input::PlanCreated(_)) => true,
            (Phase::CanStart { .. }, Input::UpdateDecision(_)) => true,
            (Phase::FirstSeen { .. }, Input::FirstSeen { .. }) => true,
            (Phase::WriteFirstSeenId { .. }, Input::Written(_)) => true,
            (Phase::WriteFirstSeenTime { .. }, Input::Written(_)) => true,
            (Phase::Install { .. }, Input::Progress(_)) => true,
            (Phase::Install { .. }, Input::Installed { .. }) => true,
            (Phase::Record { .. }, Input::FailedCheckCount { .. }) => true,
            (Phase::RebootAllowed, Input::RebootAllowed(_)) => true,
            (Phase::RebootWait, Input::Waited) => true,
            (Phase::Reboot, Input::Rebooted) => true,
            _ => false,
        }
    }
}

} // verus!
