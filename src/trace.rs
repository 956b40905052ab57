use vstd::prelude::*;
use crate::metrics::Metrics;
use crate::state_machine::{Effect, State, StateMachineEvent};

verus! {

/// The effects that the laws of an attempt count.
#[derive(Clone, Copy, Debug, PartialEq, Eq, Structural)]
pub enum Counted {
    /// An `UpdateCheckResult` event.
    CheckResult,
    /// A `SuccessfulUpdateDuration` metric.
    SuccessfulUpdateDuration,
    /// A `SuccessfulUpdateFromFirstSeen` metric.
    SuccessfulUpdateFromFirstSeen,
}

pub open spec fn is_counted(e: Effect, k: Counted) -> bool {
    match k {
        Counted::CheckResult => e is Emit && e->Emit_0 is UpdateCheckResult,
        Counted::SuccessfulUpdateDuration => e is Report && e->Report_0 is SuccessfulUpdateDuration,
        Counted::SuccessfulUpdateFromFirstSeen => e is Report && e->Report_0 is SuccessfulUpdateFromFirstSeen,
    }
}

/// How many effects of kind `k` the sequence holds.
pub open spec fn count(s: Seq<Effect>, k: Counted) -> nat
    decreases s.len(),
{
    if s.len() == 0 {
        0
    } else {
        count(s.drop_last(), k) + if is_counted(s.last(), k) {
            1nat
        } else {
            0nat
        }
    }
}

/// A retry count that is reported stays within the allowed number of exchanges.
pub open spec fn retries_in_bounds(e: Effect) -> bool {
    match e {
        Effect::Report(Metrics::UpdateCheckRetries(n)) => n <= 3,
        _ => true,
    }
}

/// Effects that hold none of the counted kinds and no out-of-bounds retry count.
pub open spec fn quiet(s: Seq<Effect>) -> bool {
    &&& count(s, Counted::CheckResult) == 0
    &&& count(s, Counted::SuccessfulUpdateDuration) == 0
    &&& count(s, Counted::SuccessfulUpdateFromFirstSeen) == 0
    &&& forall|i: int| 0 <= i < s.len() ==> #[trigger] retries_in_bounds(s[i])
}

pub open spec fn ends_idle(s: Seq<Effect>) -> bool {
    s.len() > 0 && s.last() == Effect::Emit(StateMachineEvent::StateChange(State::Idle))
}

pub broadcast proof fn lemma_count_push(s: Seq<Effect>, e: Effect, k: Counted)
    ensures
        #[trigger] count(s.push(e), k) == count(s, k) + if is_counted(e, k) {
            1nat
        } else {
            0nat
        },
{
    assert(s.push(e).drop_last() =~= s);
}

pub proof fn lemma_count_concat(a: Seq<Effect>, b: Seq<Effect>, k: Counted)
    ensures
        count(a + b, k) == count(a, k) + count(b, k),
    decreases b.len(),
{
    if b.len() == 0 {
        assert(a + b =~= a);
    } else {
        lemma_count_concat(a, b.drop_last(), k);
        assert((a + b).drop_last() =~= a + b.drop_last());
    }
}

pub proof fn lemma_retries_concat(a: Seq<Effect>, b: Seq<Effect>)
    requires
        forall|i: int| 0 <= i < a.len() ==> #[trigger] retries_in_bounds(a[i]),
        forall|i: int| 0 <= i < b.len() ==> #[trigger] retries_in_bounds(b[i]),
    ensures
        forall|i: int| 0 <= i < (a + b).len() ==> #[trigger] retries_in_bounds((a + b)[i]),
{
    assert forall|i: int| 0 <= i < (a + b).len() implies #[trigger] retries_in_bounds((a + b)[i]) by {
        if i >= a.len() {
            assert((a + b)[i] == b[i - a.len()]);
        }
    }
}

/// Appending quiet effects changes no count.
pub proof fn lemma_quiet_concat(a: Seq<Effect>, b: Seq<Effect>)
    requires
        quiet(b),
    ensures
        count(a + b, Counted::CheckResult) == count(a, Counted::CheckResult),
        count(a + b, Counted::SuccessfulUpdateDuration) == count(a, Counted::SuccessfulUpdateDuration),
        count(a + b, Counted::SuccessfulUpdateFromFirstSeen) == count(a, Counted::SuccessfulUpdateFromFirstSeen),
        (forall|i: int| 0 <= i < a.len() ==> #[trigger] retries_in_bounds(a[i])) ==> (forall|i: int|
            0 <= i < (a + b).len() ==> #[trigger] retries_in_bounds((a + b)[i])),
{
    lemma_count_concat(a, b, Counted::CheckResult);
    lemma_count_concat(a, b, Counted::SuccessfulUpdateDuration);
    lemma_count_concat(a, b, Counted::SuccessfulUpdateFromFirstSeen);
    if forall|i: int| 0 <= i < a.len() ==> #[trigger] retries_in_bounds(a[i]) {
        assert forall|i: int| 0 <= i < (a + b).len() implies #[trigger] retries_in_bounds((a + b)[i]) by {
            if i >= a.len() {
                assert((a + b)[i] == b[i - a.len()]);
            }
        }
    }
}

} // verus!
