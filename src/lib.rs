//! The core of an update-check client: a state machine that asks a policy whether to
//! check, exchanges requests with an update service (retrying with randomized backoff),
//! drives an installer, keeps protocol continuity data and coordinates the reboot.
//!
//! Every await point of the client is outside the library: the machine says what it
//! needs next (a `Query`), the driver does it and hands back the answer (an `Input`),
//! and the machine replies with the effects to perform, in order.
pub mod common;
pub mod update_check;
pub mod protocol;
pub mod error;
pub mod metrics;
pub mod policy;
pub mod retry;
pub mod state_machine;
pub mod trace;
pub mod attempt;
pub mod laws;
