use vstd::prelude::*;
use crate::error::OmahaRequestError;

verus! {

/// The most exchanges that one attempt makes with the service.
pub const MAX_OMAHA_REQUEST_ATTEMPTS: u64 = 3;

/// The width of the window around each backoff, in milliseconds.
pub const BACKOFF_JITTER_MS: u64 = 1000;

/// Relies on rand::random: a uniformly drawn `u64`; nothing is known of its value.
#[verifier::external_body]
fn random_u64() -> u64 {
    rand::random::<u64>()
}

/// `n - range / 2 + draw % range`: a number in `[n - range / 2, n - range / 2 + range)`
/// picked by `draw`.
pub fn randomize_with(n: u64, range: u64, draw: u64) -> (r: u64)
    requires
        range > 0,
        range / 2 <= n,
        n - range / 2 + range <= u64::MAX,
    ensures
        r == n - range / 2 + draw % range,
        n - range / 2 <= r < n - range / 2 + range,
{
    n - range / 2 + draw % range
}

/// A random number in `[n - range / 2, n - range / 2 + range)`.
pub fn randomize(n: u64, range: u64) -> (r: u64)
    requires
        range > 0,
        range / 2 <= n,
        n - range / 2 + range <= u64::MAX,
    ensures
        n - range / 2 <= r < n - range / 2 + range,
{
    randomize_with(n, range, random_u64())
}

/// The middle of the backoff after a failed exchange: 1, 2, then 4 seconds.
pub open spec fn backoff_base_ms(attempt: u64) -> u64 {
    if attempt <= 1 {
        1000
    } else if attempt == 2 {
        2000
    } else {
        4000
    }
}

/// How long to wait, in milliseconds, after failed exchange number `attempt`:
/// `backoff_base_ms(attempt)` give or take half a second.
pub fn backoff_ms(attempt: u64) -> (r: u64)
    requires
        1 <= attempt <= MAX_OMAHA_REQUEST_ATTEMPTS,
    ensures
        backoff_base_ms(attempt) - BACKOFF_JITTER_MS / 2 <= r < backoff_base_ms(attempt) + BACKOFF_JITTER_MS / 2,
{
    let mut base: u64 = 1000;
    let mut k: u64 = 1;
    while k < attempt
        invariant
            1 <= k <= attempt <= MAX_OMAHA_REQUEST_ATTEMPTS,
            base == backoff_base_ms(k),
        decreases attempt - k,
    {
        base = base * 2;
        k = k + 1;
    }
    randomize(base, BACKOFF_JITTER_MS)
}

/// Whether an exchange that failed with `e` is tried again: a failed encoding or
/// request build never is; a transport failure is unless the caller misused the
/// transport; a bad status is; and none is after the last allowed exchange.
pub open spec fn should_retry(e: OmahaRequestError, attempt: u64) -> bool {
    match e {
        OmahaRequestError::Json(_) | OmahaRequestError::HttpBuilder(_) => false,
        OmahaRequestError::Transport { user_error } => attempt < MAX_OMAHA_REQUEST_ATTEMPTS && !user_error,
        OmahaRequestError::HttpStatus(_) => attempt < MAX_OMAHA_REQUEST_ATTEMPTS,
    }
}

pub fn retry_after(e: &OmahaRequestError, attempt: u64) -> (r: bool)
    ensures
        r == should_retry(*e, attempt),
{
    match e {
        OmahaRequestError::Json(_) | OmahaRequestError::HttpBuilder(_) => false,
        OmahaRequestError::Transport { user_error } => attempt < MAX_OMAHA_REQUEST_ATTEMPTS && !*user_error,
        OmahaRequestError::HttpStatus(_) => attempt < MAX_OMAHA_REQUEST_ATTEMPTS,
    }
}

/// Relies on http::StatusCode::from_u16 and StatusCode::is_success: a code in 200..=299
/// is a success; codes outside 100..=999 are not status codes at all.
#[verifier::external_body]
fn status_is_success(code: u16) -> (r: bool)
    ensures
        r == (200 <= code && code < 300),
{
    http::StatusCode::from_u16(code).map_or(false, |s| s.is_success())
}

/// A reply from the service: its HTTP status and the whole body.
#[derive(Clone, Debug, PartialEq, Eq)]
pub struct HttpReply {
    pub status: u16,
    pub body: Vec<u8>,
}

/// Turns a reply whose status is not a success into `HttpStatus`.
pub fn check_status(reply: HttpReply) -> (r: Result<HttpReply, OmahaRequestError>)
    ensures
        (200 <= reply.status < 300) ==> r == Ok::<HttpReply, OmahaRequestError>(reply),
        !(200 <= reply.status < 300) ==> r == Err::<HttpReply, OmahaRequestError>(
            OmahaRequestError::HttpStatus(reply.status),
        ),
{
    if status_is_success(reply.status) {
        Ok(reply)
    } else {
        Err(OmahaRequestError::HttpStatus(reply.status))
    }
}

} // verus!
