use vstd::prelude::*;
use crate::common::{Cohort, UserCounting};
use crate::protocol::{DayStart, OmahaApp, OmahaResponse};

verus! {

/// What an attempt did for one app.
#[derive(Clone, Copy, Debug, PartialEq, Eq, Structural)]
pub enum Action {
    NoUpdate,
    Updated,
    DeferredByPolicy,
    DeniedByPolicy,
    InstallPlanExecutionError,
}

/// The outcome of an attempt for one app, with what the service sent for it.
#[derive(Clone, Debug, PartialEq, Eq)]
pub struct AppResponse {
    pub app_id: String,
    pub cohort: Cohort,
    pub user_counting: UserCounting,
    pub result: Action,
}

/// The outcome of a completed attempt.
#[derive(Clone, Debug, PartialEq, Eq)]
pub struct Response {
    pub app_responses: Vec<AppResponse>,
    /// The poll interval the service asked for, in microseconds.
    pub server_dictated_poll_interval: Option<u64>,
}

/// The user counting that a response's day start carries.
pub open spec fn user_counting_of(daystart: Option<DayStart>) -> UserCounting {
    UserCounting::ClientRegulatedByDate(
        match daystart {
            Some(d) => d.elapsed_days,
            None => None,
        },
    )
}

pub fn user_counting_from(daystart: Option<DayStart>) -> (r: UserCounting)
    ensures
        r == user_counting_of(daystart),
{
    UserCounting::ClientRegulatedByDate(
        match daystart {
            Some(d) => d.elapsed_days,
            None => None,
        },
    )
}

/// The outcome for an app of the response, when the whole attempt ended in `action`.
pub open spec fn app_response_of(app: OmahaApp, daystart: Option<DayStart>, action: Action) -> AppResponse {
    AppResponse {
        app_id: app.id,
        cohort: app.cohort,
        user_counting: user_counting_of(daystart),
        result: action,
    }
}

/// The outcome of an attempt that ended in `action` for every app that the service named.
pub open spec fn is_response_of(r: Response, response: OmahaResponse, action: Action) -> bool {
    &&& r.server_dictated_poll_interval.is_none()
    &&& r.app_responses@.len() == response.apps@.len()
    &&& forall|i: int|
        0 <= i < response.apps@.len() ==> #[trigger] r.app_responses@[i] == app_response_of(
            response.apps@[i],
            response.daystart,
            action,
        )
}

pub fn make_response(response: &OmahaResponse, action: Action) -> (r: Response)
    ensures
        is_response_of(r, *response, action),
{
    let mut app_responses: Vec<AppResponse> = Vec::new();
    let mut i: usize = 0;
    while i < response.apps.len()
        invariant
            i <= response.apps@.len(),
            app_responses@.len() == i,
            forall|j: int|
                0 <= j < i ==> #[trigger] app_responses@[j] == app_response_of(
                    response.apps@[j],
                    response.daystart,
                    action,
                ),
        decreases response.apps@.len() - i,
    {
        let app = &response.apps[i];
        app_responses.push(
            AppResponse {
                app_id: app.id.clone(),
                cohort: app.cohort.duplicate(),
                user_counting: user_counting_from(response.daystart),
                result: action,
            },
        );
        i = i + 1;
    }
    Response { app_responses, server_dictated_poll_interval: None }
}

/// Some app of the outcome failed to install.
pub open spec fn some_install_failed(app_responses: Seq<AppResponse>) -> bool {
    exists|i: int|
        0 <= i < app_responses.len() && #[trigger] app_responses[i].result
            == Action::InstallPlanExecutionError
}

pub fn any_install_failed(app_responses: &Vec<AppResponse>) -> (r: bool)
    ensures
        r == some_install_failed(app_responses@),
{
    let mut i: usize = 0;
    while i < app_responses.len()
        invariant
            i <= app_responses@.len(),
            forall|j: int|
                0 <= j < i ==> #[trigger] app_responses@[j].result != Action::InstallPlanExecutionError,
        decreases app_responses@.len() - i,
    {
        if app_responses[i].result == Action::InstallPlanExecutionError {
            return true;
        }
        i = i + 1;
    }
    false
}

} // verus!
