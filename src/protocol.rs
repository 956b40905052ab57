use vstd::prelude::*;
use crate::common::{same_app, App, Cohort, RequestParams};

verus! {

/// The status that the service gives an app's update check.
#[derive(Clone, Copy, Debug, PartialEq, Eq, Structural)]
pub enum OmahaStatus {
    /// An update is available.
    Available,
    NoUpdate,
    ErrorInternal,
    ErrorHash,
    ErrorOsNotSupported,
    ErrorUnsupportedProtocol,
}

/// The service's notion of the current day.
#[derive(Clone, Copy, Debug, PartialEq, Eq, Structural)]
pub struct DayStart {
    pub elapsed_days: Option<u32>,
    pub elapsed_seconds: Option<u32>,
}

/// One app in a parsed service response.
#[derive(Clone, Debug, PartialEq, Eq)]
pub struct OmahaApp {
    pub id: String,
    pub cohort: Cohort,
    /// The status of the app's update check, when the response holds one.
    pub update_check: Option<OmahaStatus>,
}

/// A parsed service response.
#[derive(Clone, Debug, PartialEq, Eq)]
pub struct OmahaResponse {
    pub protocol_version: String,
    pub daystart: Option<DayStart>,
    pub apps: Vec<OmahaApp>,
}

impl OmahaApp {
    pub fn duplicate(&self) -> (r: OmahaApp)
        ensures
            r == *self,
    {
        OmahaApp { id: self.id.clone(), cohort: self.cohort.duplicate(), update_check: self.update_check }
    }
}

/// Some app of the response has an update check with status `Ok`.
pub open spec fn some_app_has_update(apps: Seq<OmahaApp>) -> bool {
    exists|i: int| 0 <= i < apps.len() && #[trigger] apps[i].update_check == Some(OmahaStatus::Available)
}

impl OmahaResponse {
    pub fn duplicate(&self) -> (r: OmahaResponse)
        ensures
            r.protocol_version == self.protocol_version,
            r.daystart == self.daystart,
            r.apps@ == self.apps@,
    {
        let mut apps: Vec<OmahaApp> = Vec::new();
        let mut i: usize = 0;
        while i < self.apps.len()
            invariant
                i <= self.apps@.len(),
                apps@ == self.apps@.subrange(0, i as int),
            decreases self.apps@.len() - i,
        {
            apps.push(self.apps[i].duplicate());
            i = i + 1;
            assert(apps@ =~= self.apps@.subrange(0, i as int));
        }
        assert(apps@ =~= self.apps@);
        OmahaResponse { protocol_version: self.protocol_version.clone(), daystart: self.daystart, apps }
    }

    /// Whether some app of the response has an update waiting.
    pub fn has_update(&self) -> (r: bool)
        ensures
            r == some_app_has_update(self.apps@),
    {
        let mut i: usize = 0;
        while i < self.apps.len()
            invariant
                i <= self.apps@.len(),
                forall|j: int| 0 <= j < i ==> #[trigger] self.apps@[j].update_check != Some(OmahaStatus::Available),
            decreases self.apps@.len() - i,
        {
            if let Some(OmahaStatus::Available) = self.apps[i].update_check {
                return true;
            }
            i = i + 1;
        }
        false
    }
}

/// The kind of an event reported to the service.
#[derive(Clone, Copy, Debug, PartialEq, Eq, Structural)]
pub enum EventType {
    Unknown,
    DownloadComplete,
    InstallComplete,
    UpdateComplete,
    UpdateDownloadStarted,
    UpdateDownloadFinished,
    RebootedAfterUpdate,
}

/// The result that an event reports.
#[derive(Clone, Copy, Debug, PartialEq, Eq, Structural)]
pub enum EventResult {
    Error,
    Success,
    SuccessAndRestartRequired,
    SuccessAndAppRestartRequired,
    Cancelled,
    ErrorInSystemInstaller,
    UpdateDeferred,
}

/// Why an event reports an error.
#[derive(Clone, Copy, Debug, PartialEq, Eq, Structural)]
pub enum EventErrorCode {
    ParseResponse,
    ConstructInstallPlan,
    Installation,
    DeniedByPolicy,
}

/// An event reported to the service.
#[derive(Clone, Copy, Debug, PartialEq, Eq, Structural)]
pub struct Event {
    pub event_type: EventType,
    pub event_result: EventResult,
    pub errorcode: Option<EventErrorCode>,
}

impl Event {
    pub open spec fn error_of(errorcode: EventErrorCode) -> Event {
        Event { event_type: EventType::UpdateComplete, event_result: EventResult::Error, errorcode: Some(errorcode) }
    }

    /// An `UpdateComplete` event that reports an error.
    pub fn error(errorcode: EventErrorCode) -> (r: Event)
        ensures
            r == Event::error_of(errorcode),
    {
        Event { event_type: EventType::UpdateComplete, event_result: EventResult::Error, errorcode: Some(errorcode) }
    }

    pub open spec fn success_of(event_type: EventType) -> Event {
        Event { event_type, event_result: EventResult::Success, errorcode: None }
    }

    pub open spec fn deferred_of() -> Event {
        Event { event_type: EventType::UpdateComplete, event_result: EventResult::UpdateDeferred, errorcode: None }
    }

    /// An `UpdateComplete` event that reports an update deferred by policy.
    pub fn deferred() -> (r: Event)
        ensures
            r == Event::deferred_of(),
    {
        Event { event_type: EventType::UpdateComplete, event_result: EventResult::UpdateDeferred, errorcode: None }
    }

    /// An event of the given kind that reports success.
    pub fn success(event_type: EventType) -> (r: Event)
        ensures
            r == Event::success_of(event_type),
    {
        Event { event_type, event_result: EventResult::Success, errorcode: None }
    }
}

/// What a request says of one app.
#[derive(Clone, Copy, Debug, PartialEq, Eq, Structural)]
pub enum EntryKind {
    UpdateCheck,
    Ping,
    Event(Event),
}

/// One element of a request: what it says, and of which app.
#[derive(Clone, Debug, PartialEq, Eq)]
pub struct RequestEntry {
    pub app: App,
    pub kind: EntryKind,
}

/// A request to the service, before it is encoded.
#[derive(Clone, Debug, PartialEq, Eq)]
pub struct Request {
    pub params: RequestParams,
    pub entries: Vec<RequestEntry>,
}

/// The update-check request: for each app, in order, an update check and a ping.
pub open spec fn is_update_check_request(r: Request, params: RequestParams, apps: Seq<App>) -> bool {
    &&& r.params == params
    &&& r.entries@.len() == 2 * apps.len()
    &&& forall|i: int|
        0 <= i < apps.len() ==> {
            &&& same_app(#[trigger] r.entries@[2 * i].app, apps[i])
            &&& r.entries@[2 * i].kind == EntryKind::UpdateCheck
            &&& same_app(r.entries@[2 * i + 1].app, apps[i])
            &&& r.entries@[2 * i + 1].kind == EntryKind::Ping
        }
}

/// The request that reports `event` for each app, in order.
pub open spec fn is_event_request(r: Request, params: RequestParams, apps: Seq<App>, event: Event) -> bool {
    &&& r.params == params
    &&& r.entries@.len() == apps.len()
    &&& forall|i: int|
        0 <= i < apps.len() ==> {
            &&& same_app(#[trigger] r.entries@[i].app, apps[i])
            &&& r.entries@[i].kind == EntryKind::Event(event)
        }
}

pub fn update_check_request(params: RequestParams, apps: &Vec<App>) -> (r: Request)
    requires
        2 * apps@.len() <= usize::MAX,
    ensures
        is_update_check_request(r, params, apps@),
{
    let mut entries: Vec<RequestEntry> = Vec::new();
    let mut i: usize = 0;
    while i < apps.len()
        invariant
            i <= apps@.len(),
            2 * apps@.len() <= usize::MAX,
            entries@.len() == 2 * i,
            forall|j: int|
                0 <= j < i ==> {
                    &&& same_app(#[trigger] entries@[2 * j].app, apps@[j])
                    &&& entries@[2 * j].kind == EntryKind::UpdateCheck
                    &&& same_app(entries@[2 * j + 1].app, apps@[j])
                    &&& entries@[2 * j + 1].kind == EntryKind::Ping
                },
        decreases apps@.len() - i,
    {
        entries.push(RequestEntry { app: apps[i].duplicate(), kind: EntryKind::UpdateCheck });
        entries.push(RequestEntry { app: apps[i].duplicate(), kind: EntryKind::Ping });
        i = i + 1;
    }
    Request { params, entries }
}

pub fn event_request(params: RequestParams, apps: &Vec<App>, event: Event) -> (r: Request)
    ensures
        is_event_request(r, params, apps@, event),
{
    let mut entries: Vec<RequestEntry> = Vec::new();
    let mut i: usize = 0;
    while i < apps.len()
        invariant
            i <= apps@.len(),
            entries@.len() == i,
            forall|j: int|
                0 <= j < i ==> {
                    &&& same_app(#[trigger] entries@[j].app, apps@[j])
                    &&& entries@[j].kind == EntryKind::Event(event)
                },
        decreases apps@.len() - i,
    {
        entries.push(RequestEntry { app: apps[i].duplicate(), kind: EntryKind::Event(event) });
        i = i + 1;
    }
    Request { params, entries }
}

} // verus!
