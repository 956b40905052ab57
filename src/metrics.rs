use vstd::prelude::*;
use crate::error::{OmahaRequestError, UpdateCheckError};

verus! {

/// Why an attempt failed, as metrics report it.
#[derive(Clone, Copy, Debug, PartialEq, Eq, Structural)]
pub enum UpdateCheckFailureReason {
    /// The service was reached, but the attempt failed after that.
    Omaha,
    Network,
    Internal,
}

/// A measurement reported to the metrics sink. Durations are in microseconds.
#[derive(Clone, Copy, Debug, PartialEq, Eq, Structural)]
pub enum Metrics {
    UpdateCheckResponseTime(u64),
    UpdateCheckRetries(u64),
    UpdateCheckFailureReason(UpdateCheckFailureReason),
    AttemptsToSucceed(u64),
    UpdateCheckInterval(u64),
    SuccessfulUpdateDuration(u64),
    FailedUpdateDuration(u64),
    SuccessfulUpdateFromFirstSeen(u64),
}

pub open spec fn failure_reason_of(e: UpdateCheckError) -> UpdateCheckFailureReason {
    match e {
        UpdateCheckError::ResponseParser(_) | UpdateCheckError::InstallPlan(_) => UpdateCheckFailureReason::Omaha,
        UpdateCheckError::Policy(_) => UpdateCheckFailureReason::Internal,
        UpdateCheckError::OmahaRequest(r) => match r {
            OmahaRequestError::Json(_) | OmahaRequestError::HttpBuilder(_) => UpdateCheckFailureReason::Internal,
            OmahaRequestError::Transport { .. } | OmahaRequestError::HttpStatus(_) => UpdateCheckFailureReason::Network,
        },
    }
}

/// Classifies a failed attempt: the service was reached, the network failed, or the
/// client itself failed.
pub fn failure_reason(e: &UpdateCheckError) -> (r: UpdateCheckFailureReason)
    ensures
        r == failure_reason_of(*e),
{
    match e {
        UpdateCheckError::ResponseParser(_) | UpdateCheckError::InstallPlan(_) => UpdateCheckFailureReason::Omaha,
        UpdateCheckError::Policy(_) => UpdateCheckFailureReason::Internal,
        UpdateCheckError::OmahaRequest(r) => match r {
            OmahaRequestError::Json(_) | OmahaRequestError::HttpBuilder(_) => UpdateCheckFailureReason::Internal,
            OmahaRequestError::Transport { .. } | OmahaRequestError::HttpStatus(_) => UpdateCheckFailureReason::Network,
        },
    }
}

} // verus!
