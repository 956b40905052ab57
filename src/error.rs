use vstd::prelude::*;
use crate::policy::CheckDecision;

verus! {

#[verifier::external_type_specification]
#[verifier::external_body]
pub struct ExJsonError(serde_json::Error);

#[verifier::external_type_specification]
#[verifier::external_body]
pub struct ExHttpError(http::Error);

#[verifier::external_type_specification]
#[verifier::external_body]
pub struct ExAnyhowError(anyhow::Error);

/// What can go wrong in one exchange with the update service.
#[derive(Debug)]
pub enum OmahaRequestError {
    /// The request body could not be encoded.
    Json(serde_json::Error),
    /// The HTTP request could not be built.
    HttpBuilder(http::Error),
    /// The transport failed; `user_error` tells a misuse by the caller.
    Transport { user_error: bool },
    /// The service answered with a status outside 200..=299.
    HttpStatus(u16),
}

impl From<serde_json::Error> for OmahaRequestError {
    fn from(e: serde_json::Error) -> Self {
        OmahaRequestError::Json(e)
    }
}

impl vstd::std_specs::convert::FromSpecImpl<serde_json::Error> for OmahaRequestError {
    open spec fn obeys_from_spec() -> bool {
        true
    }

    open spec fn from_spec(e: serde_json::Error) -> Self {
        OmahaRequestError::Json(e)
    }
}

impl From<http::Error> for OmahaRequestError {
    fn from(e: http::Error) -> Self {
        OmahaRequestError::HttpBuilder(e)
    }
}

impl vstd::std_specs::convert::FromSpecImpl<http::Error> for OmahaRequestError {
    open spec fn obeys_from_spec() -> bool {
        true
    }

    open spec fn from_spec(e: http::Error) -> Self {
        OmahaRequestError::HttpBuilder(e)
    }
}

/// What can go wrong when reading the service's answer.
#[derive(Debug)]
pub enum ResponseParseError {
    Utf8,
    Json(serde_json::Error),
}

/// Why an attempt failed.
#[derive(Debug)]
pub enum UpdateCheckError {
    /// The policy did not allow the check.
    Policy(CheckDecision),
    OmahaRequest(OmahaRequestError),
    ResponseParser(ResponseParseError),
    /// No install plan could be made of a valid response.
    InstallPlan(anyhow::Error),
}

/// The state machine's task is gone: no check can be started.
#[derive(Clone, Copy, Debug, PartialEq, Eq, Structural)]
pub struct StateMachineGone;

impl StateMachineGone {
    pub fn message(&self) -> (r: &'static str)
        ensures
            r@ == "state machine dropped before all its control handles"@,
    {
        proof {
            reveal_strlit("state machine dropped before all its control handles");
        }
        "state machine dropped before all its control handles"
    }
}

} // verus!
