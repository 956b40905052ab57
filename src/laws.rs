use vstd::prelude::*;
use crate::attempt::interval_reports;
use crate::metrics::Metrics;
use crate::state_machine::{Effect, StateMachine};
use crate::trace::{count, ends_idle, Counted};

verus! {

/// Once an attempt is over, the last thing observers were told is that the machine is
/// `Idle` again.
pub proof fn lemma_completed_attempt_ends_idle(sm: StateMachine)
    requires
        sm.wf(),
        sm.phase is Idle,
        sm.trace@.len() > 0,
    ensures
        ends_idle(sm.trace@),
{
}

/// Every attempt emits exactly one `UpdateCheckResult` (its `Ok` or its `Err`): none
/// before the result is known, one from then on, and one in a completed attempt.
pub proof fn lemma_one_result_per_attempt(sm: StateMachine)
    requires
        sm.wf(),
    ensures
        count(sm.trace@, Counted::CheckResult) <= 1,
        sm.phase is Idle && sm.trace@.len() > 0 ==> count(sm.trace@, Counted::CheckResult) == 1,
{
}

/// No attempt reports more retries than the allowed number of exchanges.
pub proof fn lemma_reported_retries_bounded(sm: StateMachine, i: int)
    requires
        sm.wf(),
        0 <= i < sm.trace@.len(),
        sm.trace@[i] is Report,
        sm.trace@[i]->Report_0 is UpdateCheckRetries,
    ensures
        sm.trace@[i]->Report_0->UpdateCheckRetries_0 <= 3,
{
    assert(crate::trace::retries_in_bounds(sm.trace@[i]));
}

/// A failed install reports no `SuccessfulUpdateDuration` and no
/// `SuccessfulUpdateFromFirstSeen`; a successful one reports each exactly once, when
/// the clock did not run backwards between the start (and the first sighting of the
/// plan) and the end of the install. An attempt without an install reports neither.
pub proof fn lemma_update_durations(sm: StateMachine)
    requires
        sm.wf(),
    ensures
        match sm.install@ {
            None => {
                &&& count(sm.trace@, Counted::SuccessfulUpdateDuration) == 0
                &&& count(sm.trace@, Counted::SuccessfulUpdateFromFirstSeen) == 0
            },
            Some(t) => if t.succeeded {
                &&& (t.finish >= t.start ==> count(sm.trace@, Counted::SuccessfulUpdateDuration) == 1)
                &&& (t.finish >= t.first_seen ==> count(sm.trace@, Counted::SuccessfulUpdateFromFirstSeen) == 1)
            } else {
                &&& count(sm.trace@, Counted::SuccessfulUpdateDuration) == 0
                &&& count(sm.trace@, Counted::SuccessfulUpdateFromFirstSeen) == 0
            },
        },
{
}

/// A check writes now as the last check time. Unless the clock ran back behind the stored
/// time, that value is not below the stored one, and the interval between them is
/// reported; when it ran back, nothing is reported.
pub proof fn lemma_last_check_time_monotone(stored: i64, now: i64)
    ensures
        stored <= now ==> interval_reports(Some(stored), now) == seq![
            Effect::Report(Metrics::UpdateCheckInterval((now - stored) as u64)),
        ],
        stored > now ==> interval_reports(Some(stored), now).len() == 0,
        interval_reports(None, now).len() == 0,
{
}

} // verus!
