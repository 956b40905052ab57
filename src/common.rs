use vstd::prelude::*;
use crate::update_check::AppResponse;

verus! {

/// Where an update check came from.
#[derive(Clone, Copy, Debug, PartialEq, Eq, Structural)]
pub enum InstallSource {
    ScheduledTask,
    OnDemand,
}

/// Options of one update check.
#[derive(Clone, Copy, Debug, PartialEq, Eq, Structural)]
pub struct CheckOptions {
    pub source: InstallSource,
}

impl CheckOptions {
    /// The options of a check that the schedule started.
    pub fn scheduled() -> (r: CheckOptions)
        ensures
            r.source == InstallSource::ScheduledTask,
    {
        CheckOptions { source: InstallSource::ScheduledTask }
    }
}

/// Parameters that the policy hands to the request of an allowed check.
#[derive(Clone, Copy, Debug, PartialEq, Eq, Structural)]
pub struct RequestParams {
    pub source: InstallSource,
    pub use_configured_proxies: bool,
}

/// A point in time, as a wall-clock time (microseconds since the Unix epoch) and a
/// monotonic time (microseconds since an arbitrary origin).
#[derive(Clone, Copy, Debug, PartialEq, Eq, Structural)]
pub struct ComplexTime {
    pub wall_micros: i64,
    pub mono_micros: u64,
}

/// When the next check should happen: at `time`, and not before `minimum_wait`
/// microseconds have passed since the timing was computed.
#[derive(Clone, Copy, Debug, PartialEq, Eq, Structural)]
pub struct CheckTiming {
    pub time: ComplexTime,
    pub minimum_wait: Option<u64>,
}

/// The schedule of update checks.
#[derive(Clone, Copy, Debug, PartialEq, Eq, Structural)]
pub struct UpdateCheckSchedule {
    pub last_update_time: Option<ComplexTime>,
    pub next_update_time: Option<CheckTiming>,
}

/// Counters and server-dictated parameters that persist across attempts.
#[derive(Clone, Copy, Debug, PartialEq, Eq, Structural)]
pub struct ProtocolState {
    /// The poll interval that the service asked for, in microseconds.
    pub server_dictated_poll_interval: Option<u64>,
    pub consecutive_failed_update_attempts: u32,
    pub consecutive_failed_update_checks: u32,
    /// Reserved: nothing updates it.
    pub consecutive_proxied_requests: u32,
}

/// What an update check carries from one attempt to the next.
#[derive(Clone, Copy, Debug, PartialEq, Eq, Structural)]
pub struct Context {
    pub schedule: UpdateCheckSchedule,
    pub state: ProtocolState,
}

impl UpdateCheckSchedule {
    pub fn empty() -> (r: UpdateCheckSchedule)
        ensures
            r.last_update_time.is_none(),
            r.next_update_time.is_none(),
    {
        UpdateCheckSchedule { last_update_time: None, next_update_time: None }
    }
}

impl ProtocolState {
    /// The state of a client that has never checked.
    pub fn initial() -> (r: ProtocolState)
        ensures
            r.server_dictated_poll_interval.is_none(),
            r.consecutive_failed_update_attempts == 0,
            r.consecutive_failed_update_checks == 0,
            r.consecutive_proxied_requests == 0,
    {
        ProtocolState {
            server_dictated_poll_interval: None,
            consecutive_failed_update_attempts: 0,
            consecutive_failed_update_checks: 0,
            consecutive_proxied_requests: 0,
        }
    }
}

/// The release channel of an application.
#[derive(Clone, Debug, PartialEq, Eq)]
pub struct Cohort {
    pub id: Option<String>,
    pub hint: Option<String>,
    pub name: Option<String>,
}

/// Coarse usage counting carried across pings.
#[derive(Clone, Copy, Debug, PartialEq, Eq, Structural)]
pub enum UserCounting {
    /// The number of days since the client's epoch, as the service last reported it.
    ClientRegulatedByDate(Option<u32>),
}

/// An application that the client keeps up to date.
#[derive(Clone, Debug, PartialEq, Eq)]
pub struct App {
    pub id: String,
    pub version: Vec<u32>,
    pub cohort: Cohort,
    pub user_counting: UserCounting,
}

/// A cohort as the service reports it: every field it sends replaces the one held.
pub open spec fn merged_cohort(held: Cohort, sent: Cohort) -> Cohort {
    Cohort {
        id: if sent.id.is_some() { sent.id } else { held.id },
        hint: if sent.hint.is_some() { sent.hint } else { held.hint },
        name: if sent.name.is_some() { sent.name } else { held.name },
    }
}

/// Two apps that hold the same values.
pub open spec fn same_app(a: App, b: App) -> bool {
    &&& a.id == b.id
    &&& a.version@ == b.version@
    &&& a.cohort == b.cohort
    &&& a.user_counting == b.user_counting
}

/// Two sequences of apps that hold the same values, place by place.
pub open spec fn same_apps(a: Seq<App>, b: Seq<App>) -> bool {
    &&& a.len() == b.len()
    &&& forall|i: int| 0 <= i < a.len() ==> #[trigger] same_app(a[i], b[i])
}

fn copy_string(s: &Option<String>) -> (r: Option<String>)
    ensures
        r == *s,
{
    match s {
        Some(v) => Some(v.clone()),
        None => None,
    }
}

impl Cohort {
    pub fn duplicate(&self) -> (r: Cohort)
        ensures
            r == *self,
    {
        Cohort { id: copy_string(&self.id), hint: copy_string(&self.hint), name: copy_string(&self.name) }
    }

    /// Takes over every field that `sent` holds.
    pub fn update_from_omaha(&mut self, sent: &Cohort)
        ensures
            *final(self) == merged_cohort(*old(self), *sent),
    {
        if sent.id.is_some() {
            self.id = copy_string(&sent.id);
        }
        if sent.hint.is_some() {
            self.hint = copy_string(&sent.hint);
        }
        if sent.name.is_some() {
            self.name = copy_string(&sent.name);
        }
    }
}

impl App {
    /// An app with no cohort hint or id and no user counting yet.
    pub fn new(id: String, version: Vec<u32>, cohort: Cohort) -> (r: App)
        ensures
            r.id == id,
            r.version@ == version@,
            r.cohort == cohort,
            r.user_counting == UserCounting::ClientRegulatedByDate(None),
    {
        App { id, version, cohort, user_counting: UserCounting::ClientRegulatedByDate(None) }
    }

    pub fn duplicate(&self) -> (r: App)
        ensures
            same_app(r, *self),
    {
        let mut version: Vec<u32> = Vec::new();
        let mut i: usize = 0;
        while i < self.version.len()
            invariant
                i <= self.version@.len(),
                version@ == self.version@.subrange(0, i as int),
            decreases self.version@.len() - i,
        {
            version.push(self.version[i]);
            i = i + 1;
        }
        assert(version@ =~= self.version@);
        App {
            id: self.id.clone(),
            version,
            cohort: self.cohort.duplicate(),
            user_counting: self.user_counting,
        }
    }

    /// An app is valid when it has an id.
    pub open spec fn spec_valid(&self) -> bool {
        self.id@.len() > 0
    }

    pub fn valid(&self) -> (r: bool)
        ensures
            r == self.spec_valid(),
    {
        !self.id.as_str().is_empty()
    }
}

/// The apps that the client keeps up to date, in order.
#[derive(Clone, Debug, PartialEq, Eq)]
pub struct AppSet {
    pub apps: Vec<App>,
}

/// What `app` becomes once the responses have been applied in order: each response for
/// its id replaces the cohort fields that it sends and the user counting.
pub open spec fn updated_app(app: App, responses: Seq<AppResponse>) -> App
    decreases responses.len(),
{
    if responses.len() == 0 {
        app
    } else {
        let before = updated_app(app, responses.drop_last());
        let r = responses.last();
        if r.app_id@ == app.id@ {
            App {
                cohort: merged_cohort(before.cohort, r.cohort),
                user_counting: r.user_counting,
                ..before
            }
        } else {
            before
        }
    }
}

pub proof fn lemma_updated_app_keeps_id_and_version(app: App, responses: Seq<AppResponse>)
    ensures
        updated_app(app, responses).id == app.id,
        updated_app(app, responses).version == app.version,
    decreases responses.len(),
{
    if responses.len() > 0 {
        lemma_updated_app_keeps_id_and_version(app, responses.drop_last());
    }
}

impl AppSet {
    pub fn new(apps: Vec<App>) -> (r: AppSet)
        ensures
            r.apps == apps,
    {
        AppSet { apps }
    }

    /// The set is valid when it is not empty and every app in it is valid.
    pub open spec fn spec_valid(&self) -> bool {
        &&& self.apps@.len() > 0
        &&& forall|i: int| 0 <= i < self.apps@.len() ==> #[trigger] self.apps@[i].spec_valid()
    }

    pub fn valid(&self) -> (r: bool)
        ensures
            r == self.spec_valid(),
    {
        if self.apps.len() == 0 {
            return false;
        }
        let mut i: usize = 0;
        while i < self.apps.len()
            invariant
                i <= self.apps@.len(),
                forall|j: int| 0 <= j < i ==> #[trigger] self.apps@[j].spec_valid(),
            decreases self.apps@.len() - i,
        {
            if !self.apps[i].valid() {
                return false;
            }
            i = i + 1;
        }
        true
    }

    /// A copy of the apps, in order.
    pub fn to_vec(&self) -> (r: Vec<App>)
        ensures
            same_apps(r@, self.apps@),
    {
        let mut r: Vec<App> = Vec::new();
        let mut i: usize = 0;
        while i < self.apps.len()
            invariant
                i <= self.apps@.len(),
                r@.len() == i,
                forall|j: int| 0 <= j < i ==> #[trigger] same_app(r@[j], self.apps@[j]),
            decreases self.apps@.len() - i,
        {
            r.push(self.apps[i].duplicate());
            i = i + 1;
        }
        r
    }

    /// Applies what the service reported for each app: cohort fields it sent and user
    /// counting. Apps that no response names stay as they are.
    pub fn update_from_omaha(&mut self, responses: &Vec<AppResponse>)
        ensures
            final(self).apps@.len() == old(self).apps@.len(),
            forall|i: int|
                0 <= i < old(self).apps@.len() ==> #[trigger] final(self).apps@[i] == updated_app(
                    old(self).apps@[i],
                    responses@,
                ),
    {
        let mut rest: Vec<App> = Vec::new();
        std::mem::swap(&mut rest, &mut self.apps);
        let ghost apps0 = rest@;
        assert(apps0.len() == rest.len());
        let mut k: usize = 0;
        while rest.len() > 0
            invariant
                k + rest@.len() == apps0.len(),
                apps0.len() <= usize::MAX,
                rest@ == apps0.subrange(k as int, apps0.len() as int),
                self.apps@.len() == k,
                forall|i: int| 0 <= i < k ==> #[trigger] self.apps@[i] == updated_app(apps0[i], responses@),
            decreases rest@.len(),
        {
            let mut app = rest.remove(0);
            let ghost app0 = app;
            let mut j: usize = 0;
            while j < responses.len()
                invariant
                    k < apps0.len(),
                    app0 == apps0[k as int],
                    j <= responses@.len(),
                    app == updated_app(app0, responses@.subrange(0, j as int)),
                decreases responses@.len() - j,
            {
                proof {
                    lemma_updated_app_keeps_id_and_version(app0, responses@.subrange(0, j as int));
                    assert(responses@.subrange(0, j + 1).drop_last() =~= responses@.subrange(0, j as int));
                }
                let r = &responses[j];
                if r.app_id == app.id {
                    app.cohort.update_from_omaha(&r.cohort);
                    app.user_counting = r.user_counting;
                }
                j = j + 1;
            }
            assert(responses@.subrange(0, responses@.len() as int) =~= responses@);
            self.apps.push(app);
            k = k + 1;
            assert(rest@ =~= apps0.subrange(k as int, apps0.len() as int));
        }
    }
}

} // verus!
