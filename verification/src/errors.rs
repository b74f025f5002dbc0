use vstd::prelude::*;

verus! {

/// Typed failures of the orchestration protocol.
///
/// Every protocol operation reports its failure as one of these kinds, so a
/// caller can branch programmatically; no error is swallowed or retried by
/// the protocol itself.
#[derive(Clone, Copy, Debug, PartialEq, Eq, Structural)]
pub enum ErrorCode {
    /// A request referenced a circuit identifier with no completed
    /// registration.
    UnregisteredDefinition,
    /// A circuit identifier was registered a second time; re-registration is
    /// rejected, never treated as a silent no-op.
    AlreadyRegistered,
    /// The chosen offset collides with a live (non-terminal) request.
    DuplicateOffset,
    /// An argument's declared width does not match the circuit's expected
    /// parameter type at that position.
    EncodingMismatch,
    /// The cluster output's signature did not validate against the configured
    /// quorum; the request was aborted.
    AbortedComputation,
    /// No cluster configuration could be resolved for the submitting action.
    ClusterNotSet,
    /// A delivery or hand-off named an offset with no request awaiting that
    /// step, for instance a second delivery after a terminal state.
    InvalidRequestState,
}

} // verus!
