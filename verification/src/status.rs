use vstd::prelude::*;

verus! {

/// The lifecycle of one computation request. Status only ever advances
/// forward along `Queued -> Executing -> (Completed | Aborted)`; both
/// terminal states are final.
#[derive(Clone, Copy, Debug, PartialEq, Eq, Structural)]
pub enum RequestStatus {
    Queued,
    Executing,
    Completed,
    Aborted,
}

/// Whether a request in this status has finished its lifecycle.
pub open spec fn is_terminal(s: RequestStatus) -> bool {
    s == RequestStatus::Completed || s == RequestStatus::Aborted
}

/// How far along its lifecycle a request in this status has come.
pub open spec fn status_rank(s: RequestStatus) -> nat {
    match s {
        RequestStatus::Queued => 0,
        RequestStatus::Executing => 1,
        RequestStatus::Completed => 2,
        RequestStatus::Aborted => 2,
    }
}

/// The transition relation of the request state machine: the hand-off to the
/// cluster, and the two verified-delivery outcomes.
pub open spec fn allowed_step(a: RequestStatus, b: RequestStatus) -> bool {
    ||| (a == RequestStatus::Queued && b == RequestStatus::Executing)
    ||| (a == RequestStatus::Executing && b == RequestStatus::Completed)
    ||| (a == RequestStatus::Executing && b == RequestStatus::Aborted)
}

/// Status is monotonic: every allowed transition strictly advances the
/// lifecycle, and none re-enters `Queued`.
pub proof fn lemma_step_monotonic(a: RequestStatus, b: RequestStatus)
    requires
        allowed_step(a, b),
    ensures
        status_rank(a) < status_rank(b),
        b != RequestStatus::Queued,
{
}

/// Terminal states are final: no transition leaves `Completed` or `Aborted`,
/// so `Queued` and `Executing` are never revisited after a terminal state.
pub proof fn lemma_terminal_is_final(a: RequestStatus, b: RequestStatus)
    requires
        is_terminal(a),
    ensures
        !allowed_step(a, b),
{
}

} // verus!
