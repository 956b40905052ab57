use vstd::prelude::*;
use crate::common::{App, AppSet, CheckOptions, ComplexTime, Context, ProtocolState, RequestParams, UpdateCheckSchedule};
use crate::error::{OmahaRequestError, ResponseParseError, UpdateCheckError};
use crate::metrics::Metrics;
use crate::policy::{CheckDecision, UpdateDecision};
use crate::protocol::{OmahaResponse, Request};
use crate::retry::HttpReply;
use crate::trace::{count, ends_idle, retries_in_bounds, Counted};
use crate::update_check::Response;

verus! {


/// How long to wait before asking again whether a reboot is allowed: 30 minutes, in
/// milliseconds.
pub const REBOOT_RETRY_MS: u64 = 1800000;

/// The observable state of the machine.
#[derive(Clone, Copy, Debug, PartialEq, Eq, Structural)]
pub enum State {
    Idle,
    CheckingForUpdates,
    ErrorCheckingForUpdate,
    NoUpdateAvailable,
    InstallationDeferredByPolicy,
    InstallingUpdate,
    WaitingForReboot,
    InstallationError,
}

/// Installation progress, in millionths of the whole.
#[derive(Clone, Copy, Debug, PartialEq, Eq, Structural)]
pub struct InstallProgress {
    pub progress_ppm: u32,
}

/// What observers are told, in order.
#[derive(Debug)]
pub enum StateMachineEvent {
    StateChange(State),
    ScheduleChange(UpdateCheckSchedule),
    ProtocolStateChange(ProtocolState),
    OmahaServerResponse(OmahaResponse),
    UpdateCheckResult(Result<Response, UpdateCheckError>),
    InstallProgressChange(InstallProgress),
}

/// The keys under which the machine keeps its data.
#[derive(Clone, Copy, Debug, PartialEq, Eq, Structural)]
pub enum StorageKey {
    LastCheckTime,
    LastUpdateTime,
    ServerDictatedPollInterval,
    InstallPlanId,
    UpdateFirstSeenTime,
    ConsecutiveFailedUpdateChecks,
}

impl StorageKey {
    /// The name under which storage keeps the key.
    pub open spec fn spec_name(&self) -> Seq<char> {
        match self {
            StorageKey::LastCheckTime => "last_check_time"@,
            StorageKey::LastUpdateTime => "last_update_time"@,
            StorageKey::ServerDictatedPollInterval => "server_dictated_poll_interval"@,
            StorageKey::InstallPlanId => "install_plan_id"@,
            StorageKey::UpdateFirstSeenTime => "update_first_seen_time"@,
            StorageKey::ConsecutiveFailedUpdateChecks => "consecutive_failed_update_checks"@,
        }
    }

    pub fn name(&self) -> (r: &'static str)
        ensures
            r@ == self.spec_name(),
    {
        match self {
            StorageKey::LastCheckTime => {
                proof { reveal_strlit("last_check_time"); }
                "last_check_time"
            },
            StorageKey::LastUpdateTime => {
                proof { reveal_strlit("last_update_time"); }
                "last_update_time"
            },
            StorageKey::ServerDictatedPollInterval => {
                proof { reveal_strlit("server_dictated_poll_interval"); }
                "server_dictated_poll_interval"
            },
            StorageKey::InstallPlanId => {
                proof { reveal_strlit("install_plan_id"); }
                "install_plan_id"
            },
            StorageKey::UpdateFirstSeenTime => {
                proof { reveal_strlit("update_first_seen_time"); }
                "update_first_seen_time"
            },
            StorageKey::ConsecutiveFailedUpdateChecks => {
                proof { reveal_strlit("consecutive_failed_update_checks"); }
                "consecutive_failed_update_checks"
            },
        }
    }
}

/// A write to storage.
#[derive(Debug)]
pub enum StorageOp {
    SetInt(StorageKey, i64),
    /// Sets the key, or removes it for `None`.
    SetOptionInt(StorageKey, Option<i64>),
    SetString(StorageKey, String),
    Remove(StorageKey),
    /// Stores an app's cohort and user counting under its id.
    SaveApp(App),
    Commit,
}

/// Work that the driver performs, in order, without reporting back. Failures are logged.
#[derive(Debug)]
pub enum Effect {
    Emit(StateMachineEvent),
    Report(Metrics),
    /// Send the request to the service as a report; its answer is not read.
    SendEvent(Request),
    Store(StorageOp),
}

/// What the machine waits for; the answer comes back as an `Input`.
#[derive(Debug)]
pub enum Query {
    /// Ask the policy whether a check may happen, with the attempt's apps, schedule,
    /// protocol state and these options.
    CheckAllowed(CheckOptions),
    /// The current time and the stored `last_check_time`.
    LastCheckTime,
    /// Exchange this request with the service and collect the whole reply.
    Exchange(Request),
    /// Wait this many milliseconds.
    Wait(u64),
    /// Parse these bytes as a service response.
    Parse(Vec<u8>),
    /// Ask the installer for a plan for this response.
    CreatePlan(RequestParams, OmahaResponse),
    /// Ask the policy whether the plan may start.
    CanStart,
    /// The current time, and the stored `install_plan_id` and `update_first_seen_time`.
    FirstSeen,
    /// Perform this write and say whether it succeeded.
    Write(StorageOp),
    /// Run the installer on the plan, relaying its progress.
    Install,
    /// The current time and the stored `consecutive_failed_update_checks`.
    FailedCheckCount,
    /// Ask the policy whether a reboot is allowed.
    RebootAllowed(CheckOptions),
    /// Reboot the system.
    Reboot,
    /// The attempt is over.
    Idle,
}

/// The answer to a `Query`.
#[derive(Debug)]
pub enum Input {
    CheckDecision(CheckDecision),
    LastCheckTime { now: ComplexTime, stored: Option<i64> },
    Exchanged { now: ComplexTime, reply: Result<HttpReply, OmahaRequestError> },
    Waited,
    Parsed(Result<OmahaResponse, ResponseParseError>),
    /// The id of the plan that the installer made, or why it made none.
    PlanCreated(Result<String, anyhow::Error>),
    UpdateDecision(UpdateDecision),
    FirstSeen { now: ComplexTime, install_plan_id: Option<String>, first_seen: Option<i64> },
    Written(bool),
    Progress(InstallProgress),
    Installed { now: ComplexTime, succeeded: bool },
    FailedCheckCount { now: ComplexTime, stored: Option<i64> },
    RebootAllowed(bool),
    Rebooted,
}

/// What a step asks of the driver: the effects, in order, then the next query.
#[derive(Debug)]
pub struct Step {
    pub effects: Vec<Effect>,
    pub next: Query,
}

/// Where an attempt stands.
#[derive(Debug)]
pub enum Phase {
    Idle,
    CheckAllowed,
    LastCheckTime { params: RequestParams },
    Exchange { params: RequestParams, attempt: u64, start_mono: u64 },
    Backoff { params: RequestParams, attempt: u64, start_mono: u64 },
    Parse { params: RequestParams },
    CreatePlan { params: RequestParams, response: OmahaResponse },
    CanStart { params: RequestParams, response: OmahaResponse, plan_id: String },
    FirstSeen { params: RequestParams, response: OmahaResponse, plan_id: String },
    WriteFirstSeenId { params: RequestParams, response: OmahaResponse, start: i64 },
    WriteFirstSeenTime { params: RequestParams, response: OmahaResponse, start: i64 },
    Install { params: RequestParams, response: OmahaResponse, start: i64, first_seen: i64 },
    /// The attempt has its result, which is now recorded.
    Record { result: Result<Response, UpdateCheckError> },
    RebootAllowed,
    RebootWait,
    Reboot,
}

/// The phase takes this input.
pub open spec fn accepts(phase: Phase, input: Input) -> bool {
    match phase {
        Phase::Idle => false,
        Phase::CheckAllowed => input is CheckDecision,
        Phase::LastCheckTime { .. } => input is LastCheckTime,
        Phase::Exchange { .. } => input is Exchanged,
        Phase::Backoff { .. } => input is Waited,
        Phase::Parse { .. } => input is Parsed,
        Phase::CreatePlan { .. } => input is PlanCreated,
        Phase::CanStart { .. } => input is UpdateDecision,
        Phase::FirstSeen { .. } => input is FirstSeen,
        Phase::WriteFirstSeenId { .. } => input is Written,
        Phase::WriteFirstSeenTime { .. } => input is Written,
        Phase::Install { .. } => input is Progress || input is Installed,
        Phase::Record { .. } => input is FailedCheckCount,
        Phase::RebootAllowed => input is RebootAllowed,
        Phase::RebootWait => input is Waited,
        Phase::Reboot => input is Rebooted,
    }
}

/// The attempt's result has been emitted and the machine waits to reboot.
pub open spec fn is_reboot_phase(p: Phase) -> bool {
    p is RebootAllowed || p is RebootWait || p is Reboot
}

/// When an install ended: whether it succeeded, and its start, first-seen and finish
/// wall times.
pub struct InstallTimes {
    pub succeeded: bool,
    pub start: int,
    pub first_seen: int,
    pub finish: int,
}

/// How many `SuccessfulUpdateDuration` metrics an attempt reports, given its install.
pub open spec fn successful_durations(install: Option<InstallTimes>) -> nat {
    match install {
        Some(t) => if t.succeeded && t.finish >= t.start {
            1
        } else {
            0
        },
        None => 0,
    }
}

/// How many `SuccessfulUpdateFromFirstSeen` metrics an attempt reports, given its install.
pub open spec fn first_seen_durations(install: Option<InstallTimes>) -> nat {
    match install {
        Some(t) => if t.succeeded && t.finish >= t.first_seen {
            1
        } else {
            0
        },
        None => 0,
    }
}

/// What holds of the effects of the current attempt so far (`trace`), at `phase`.
pub open spec fn trace_ok(phase: Phase, trace: Seq<Effect>, install: Option<InstallTimes>) -> bool {
    let done = is_reboot_phase(phase) || (phase is Idle && trace.len() > 0);
    &&& forall|i: int| 0 <= i < trace.len() ==> #[trigger] retries_in_bounds(trace[i])
    &&& count(trace, Counted::CheckResult) == if done {
        1nat
    } else {
        0nat
    }
    &&& count(trace, Counted::SuccessfulUpdateDuration) == successful_durations(install)
    &&& count(trace, Counted::SuccessfulUpdateFromFirstSeen) == first_seen_durations(install)
    &&& (phase is Idle && trace.len() > 0 ==> ends_idle(trace))
    &&& (install is Some ==> phase is Record || is_reboot_phase(phase) || phase is Idle)
}

/// What the first-seen record says of a plan.
#[derive(Clone, Copy, Debug, PartialEq, Eq, Structural)]
pub struct FirstSeen {
    /// When the plan was first seen, in microseconds since the epoch.
    pub time: i64,
    /// The plan is new: its id and `time` are to be recorded.
    pub record: bool,
}

/// The stored plan id is this plan's.
pub open spec fn same_plan(stored_id: Option<String>, plan_id: String) -> bool {
    stored_id is Some && stored_id->Some_0@ == plan_id@
}

/// When a plan was first seen: for the plan that is on record, the stored time (now if
/// none is stored); for any other plan, now, which is then to be recorded with its id.
pub fn first_seen_time(stored_id: &Option<String>, stored_time: Option<i64>, plan_id: &String, now: i64) -> (r: FirstSeen)
    ensures
        same_plan(*stored_id, *plan_id) ==> r == (FirstSeen {
            time: match stored_time {
                Some(t) => t,
                None => now,
            },
            record: false,
        }),
        !same_plan(*stored_id, *plan_id) ==> r == (FirstSeen { time: now, record: true }),
{
    if let Some(id) = stored_id {
        if *id == *plan_id {
            return FirstSeen {
                time: match stored_time {
                    Some(t) => t,
                    None => now,
                },
                record: false,
            };
        }
    }
    FirstSeen { time: now, record: true }
}

/// The microseconds from `earlier` to `later`, when `later` is not earlier.
pub fn micros_between(earlier: i64, later: i64) -> (r: Option<u64>)
    ensures
        later >= earlier ==> r == Some((later - earlier) as u64),
        later < earlier ==> r is None,
{
    if later >= earlier {
        Some((later as i128 - earlier as i128) as u64)
    } else {
        None
    }
}

/// The stored count of failed checks, plus one.
pub open spec fn attempts_of(stored: Option<i64>) -> i64 {
    match stored {
        Some(n) => if n == i64::MAX { n } else { (n + 1) as i64 },
        None => 1,
    }
}

/// A reply to a request to start a check now.
#[derive(Clone, Copy, Debug, PartialEq, Eq, Structural)]
pub enum StartUpdateCheckResponse {
    /// The machine was idle and started a check.
    Started,
    /// A check was under way; the request and its options were ignored.
    AlreadyRunning,
}

/// The client's update-check state machine.
pub struct StateMachine {
    pub context: Context,
    pub state: State,
    pub app_set: AppSet,
    pub phase: Phase,
    /// The options of the current attempt.
    pub options: CheckOptions,
    /// The apps of the current attempt, as they were when it started.
    pub apps: Vec<App>,
    /// Every effect of the current attempt so far.
    pub trace: Ghost<Seq<Effect>>,
    /// How the current attempt's install ended, if it ran.
    pub install: Ghost<Option<InstallTimes>>,
}

} // verus!
