use vstd::prelude::*;

use crate::bytes_util::clone_bytes;
use crate::errors::ErrorCode;
use crate::registry::ComputationDefinitionRegistry;
use crate::status::{allowed_step, is_terminal, RequestStatus};
use crate::cluster::VerifyResult;

verus! {

/// How the cluster's output is to be handed back: which circuit's callback
/// handles it. The originating offset is carried by the request itself.
#[derive(Clone, Copy, Debug, PartialEq, Eq, Structural)]
pub struct CallbackSpec {
    pub circuit_id: u32,
}

/// One in-flight computation: the caller-chosen offset that names it, the
/// registered circuit it invokes, the encoded argument bytes, its callback
/// specification, and where it stands in its lifecycle.
pub struct ComputationRequest {
    pub offset: u64,
    pub circuit_id: u32,
    pub encoded_args: Vec<u8>,
    pub callback: CallbackSpec,
    pub status: RequestStatus,
}

/// The event emitted exactly once per completed request: the originating
/// offset and the still-encrypted result ciphertext, decrypted only by the
/// original requester off this protocol's path.
#[derive(Debug, PartialEq, Eq)]
pub struct SpinEvent {
    pub offset: u64,
    pub result: Vec<u8>,
}

/// Admits computation requests under caller-chosen unique offsets and owns
/// each request's record for its full lifetime. The queue executes nothing
/// itself: it is the hand-off point to the external cluster, and the place
/// where verified outputs are delivered back.
pub struct ComputationRequestQueue {
    requests: Vec<ComputationRequest>,
}

impl ComputationRequestQueue {
    /// Every request ever admitted, in admission order.
    pub closed spec fn reqs(self) -> Seq<ComputationRequest> {
        self.requests@
    }

    /// Whether the request at index `i` is live (not yet terminal) and named
    /// by `offset`.
    pub open spec fn live_at(self, offset: u64, i: int) -> bool {
        &&& 0 <= i < self.reqs().len()
        &&& self.reqs()[i].offset == offset
        &&& !is_terminal(self.reqs()[i].status)
    }

    /// Whether some live request is named by `offset`.
    pub open spec fn has_live(self, offset: u64) -> bool {
        exists|i: int| self.live_at(offset, i)
    }

    /// The index of the live request named by `offset`; meaningful when
    /// `has_live(offset)` holds, and then unique under `wf()`.
    pub open spec fn live_index(self, offset: u64) -> int {
        choose|i: int| self.live_at(offset, i)
    }

    /// Whether `offset` names a request awaiting delivery: live and in the
    /// hands of the cluster.
    pub open spec fn deliverable(self, offset: u64) -> bool {
        self.has_live(offset) && self.reqs()[self.live_index(offset)].status
            == RequestStatus::Executing
    }

    /// Well-formedness: offsets are unique among live requests, so each
    /// in-flight computation has a collision-free identity, while requests
    /// under different offsets proceed independently.
    pub open spec fn wf(self) -> bool {
        forall|i: int, j: int|
            0 <= i < self.reqs().len() && 0 <= j < self.reqs().len() && i != j && !is_terminal(
                #[trigger] self.reqs()[i].status,
            ) && !is_terminal(#[trigger] self.reqs()[j].status) ==> self.reqs()[i].offset
                != self.reqs()[j].offset
    }

    /// Offsets are unique among concurrently live requests: under `wf()` an
    /// offset names at most one live request.
    pub proof fn lemma_live_offset_unique(self, offset: u64, i: int, j: int)
        requires
            self.wf(),
            self.live_at(offset, i),
            self.live_at(offset, j),
        ensures
            i == j,
    {
    }

    /// An empty queue.
    pub fn new() -> (q: ComputationRequestQueue)
        ensures
            q.wf(),
            q.reqs() == Seq::<ComputationRequest>::empty(),
    {
        ComputationRequestQueue { requests: Vec::new() }
    }

    fn find_live(&self, offset: u64) -> (r: Option<usize>)
        ensures
            r matches Some(i) ==> self.live_at(offset, i as int),
            r is None ==> !self.has_live(offset),
    {
        let n = self.requests.len();
        for i in 0..n
            invariant
                n == self.reqs().len(),
                forall|j: int| 0 <= j < i ==> !self.live_at(offset, j),
        {
            let candidate = self.requests[i].offset == offset;
            let live = match self.requests[i].status {
                RequestStatus::Queued => true,
                RequestStatus::Executing => true,
                RequestStatus::Completed => false,
                RequestStatus::Aborted => false,
            };
            if candidate && live {
                return Some(i);
            }
        }
        None
    }

    /// Admits a request under `offset`, in state `Queued`. The referenced
    /// circuit must resolve to a completed registration (else
    /// `UnregisteredDefinition`, checked first), and `offset` must not name a
    /// live request (else `DuplicateOffset`); on either failure nothing is
    /// admitted. Requests already terminal do not block their offset.
    pub fn queue(
        &mut self,
        registry: &ComputationDefinitionRegistry,
        offset: u64,
        circuit_id: u32,
        encoded_args: Vec<u8>,
        callback: CallbackSpec,
    ) -> (r: Result<(), ErrorCode>)
        requires
            old(self).wf(),
        ensures
            final(self).wf(),
            r == Err::<(), ErrorCode>(ErrorCode::UnregisteredDefinition) <==> !registry.spec_is_registered(
                circuit_id,
            ),
            r == Err::<(), ErrorCode>(ErrorCode::DuplicateOffset) <==> registry.spec_is_registered(
                circuit_id,
            ) && old(self).has_live(offset),
            r is Ok <==> registry.spec_is_registered(circuit_id) && !old(self).has_live(offset),
            r is Err ==> final(self).reqs() == old(self).reqs(),
            r is Ok ==> final(self).reqs() == old(self).reqs().push(
                (ComputationRequest {
                    offset,
                    circuit_id,
                    encoded_args,
                    callback,
                    status: RequestStatus::Queued,
                }),
            ),
            r is Ok ==> final(self).has_live(offset),
    {
        if !registry.is_registered(circuit_id) {
            return Err(ErrorCode::UnregisteredDefinition);
        }
        if self.find_live(offset).is_some() {
            return Err(ErrorCode::DuplicateOffset);
        }
        let request = ComputationRequest {
            offset,
            circuit_id,
            encoded_args,
            callback,
            status: RequestStatus::Queued,
        };
        self.requests.push(request);
        proof {
            let k = self.reqs().len() - 1;
            assert(self.live_at(offset, k));
            assert forall|i: int, j: int|
                0 <= i < self.reqs().len() && 0 <= j < self.reqs().len() && i != j && !is_terminal(
                    #[trigger] self.reqs()[i].status,
                ) && !is_terminal(#[trigger] self.reqs()[j].status) implies self.reqs()[i].offset
                != self.reqs()[j].offset by {
                if i == k {
                    assert(!old(self).has_live(offset));
                    assert(!old(self).live_at(offset, j));
                } else if j == k {
                    assert(!old(self).live_at(offset, i));
                }
            }
        }
        Ok(())
    }

    /// The hand-off to the external cluster: records that the cluster has
    /// taken the live `Queued` request named by `offset` into execution. Any
    /// other offset — unknown, already executing, or terminal — is rejected
    /// with `InvalidRequestState` and nothing changes.
    pub fn mark_executing(&mut self, offset: u64) -> (r: Result<(), ErrorCode>)
        requires
            old(self).wf(),
        ensures
            final(self).wf(),
            r is Ok <==> old(self).has_live(offset) && old(self).reqs()[old(self).live_index(
                offset,
            )].status == RequestStatus::Queued,
            r is Err ==> r == Err::<(), ErrorCode>(ErrorCode::InvalidRequestState)
                && final(self).reqs() == old(self).reqs(),
            r is Ok ==> ({
                let i = old(self).live_index(offset);
                &&& final(self).reqs() == old(self).reqs().update(
                    i,
                    (ComputationRequest {
                        status: RequestStatus::Executing,
                        ..old(self).reqs()[i]
                    }),
                )
                &&& allowed_step(old(self).reqs()[i].status, final(self).reqs()[i].status)
            }),
    {
        let found = self.find_live(offset);
        match found {
            None => Err(ErrorCode::InvalidRequestState),
            Some(i) => {
                proof {
                    old(self).lemma_live_offset_unique(
                        offset,
                        i as int,
                        old(self).live_index(offset),
                    );
                }
                let queued = match self.requests[i].status {
                    RequestStatus::Queued => true,
                    RequestStatus::Executing => false,
                    RequestStatus::Completed => false,
                    RequestStatus::Aborted => false,
                };
                if !queued {
                    return Err(ErrorCode::InvalidRequestState);
                }
                let mut request = self.requests.remove(i);
                request.status = RequestStatus::Executing;
                self.requests.insert(i, request);
                proof {
                    assert(self.reqs() =~= old(self).reqs().update(
                        i as int,
                        (ComputationRequest {
                            status: RequestStatus::Executing,
                            ..old(self).reqs()[i as int]
                        }),
                    ));
                    self.lemma_update_preserves_wf(*old(self), i as int);
                }
                Ok(())
            },
        }
    }

    /// Delivery of a verification outcome: the callback dispatcher. The
    /// request named by `offset` must be live and `Executing`; a second
    /// delivery after a terminal state, like any other offset with no request
    /// awaiting delivery, is rejected with `InvalidRequestState`, not
    /// re-processed, and no event is emitted for it. On `Verified` the
    /// request is completed and the one `SpinEvent` for it is returned,
    /// carrying the payload's first ciphertext slot; on `VerificationFailed`
    /// the request is aborted and `AbortedComputation` surfaces to the
    /// caller.
    pub fn deliver(&mut self, offset: u64, outcome: VerifyResult) -> (r: Result<
        SpinEvent,
        ErrorCode,
    >)
        requires
            old(self).wf(),
            outcome matches VerifyResult::Verified { payload } ==> payload@.len() >= 1,
        ensures
            final(self).wf(),
            !old(self).deliverable(offset) ==> r == Err::<SpinEvent, ErrorCode>(
                ErrorCode::InvalidRequestState,
            ) && final(self).reqs() == old(self).reqs(),
            outcome matches VerifyResult::Verified { payload } ==> (old(self).deliverable(offset)
                ==> ({
                let i = old(self).live_index(offset);
                &&& final(self).reqs() == old(self).reqs().update(
                    i,
                    (ComputationRequest {
                        status: RequestStatus::Completed,
                        ..old(self).reqs()[i]
                    }),
                )
                &&& allowed_step(old(self).reqs()[i].status, final(self).reqs()[i].status)
                &&& r matches Ok(ev) && ev.offset == offset && ev.result@ == payload@[0]@
            })),
            old(self).deliverable(offset) && outcome is VerificationFailed ==> ({
                let i = old(self).live_index(offset);
                &&& final(self).reqs() == old(self).reqs().update(
                    i,
                    (ComputationRequest { status: RequestStatus::Aborted, ..old(self).reqs()[i] }),
                )
                &&& allowed_step(old(self).reqs()[i].status, final(self).reqs()[i].status)
                &&& r == Err::<SpinEvent, ErrorCode>(ErrorCode::AbortedComputation)
            }),
            old(self).deliverable(offset) ==> !final(self).has_live(offset)
                && !final(self).deliverable(offset),
    {
        let found = self.find_live(offset);
        match found {
            None => Err(ErrorCode::InvalidRequestState),
            Some(i) => {
                proof {
                    old(self).lemma_live_offset_unique(
                        offset,
                        i as int,
                        old(self).live_index(offset),
                    );
                }
                let executing = match self.requests[i].status {
                    RequestStatus::Queued => false,
                    RequestStatus::Executing => true,
                    RequestStatus::Completed => false,
                    RequestStatus::Aborted => false,
                };
                if !executing {
                    return Err(ErrorCode::InvalidRequestState);
                }
                match outcome {
                    VerifyResult::Verified { payload } => {
                        let mut request = self.requests.remove(i);
                        request.status = RequestStatus::Completed;
                        self.requests.insert(i, request);
                        proof {
                            assert(self.reqs() =~= old(self).reqs().update(
                                i as int,
                                (ComputationRequest {
                                    status: RequestStatus::Completed,
                                    ..old(self).reqs()[i as int]
                                }),
                            ));
                            self.lemma_update_preserves_wf(*old(self), i as int);
                            self.lemma_terminal_ends_liveness(*old(self), offset, i as int);
                        }
                        let result = clone_bytes(&payload[0]);
                        Ok(SpinEvent { offset, result })
                    },
                    VerifyResult::VerificationFailed => {
                        let mut request = self.requests.remove(i);
                        request.status = RequestStatus::Aborted;
                        self.requests.insert(i, request);
                        proof {
                            assert(self.reqs() =~= old(self).reqs().update(
                                i as int,
                                (ComputationRequest {
                                    status: RequestStatus::Aborted,
                                    ..old(self).reqs()[i as int]
                                }),
                            ));
                            self.lemma_update_preserves_wf(*old(self), i as int);
                            self.lemma_terminal_ends_liveness(*old(self), offset, i as int);
                        }
                        Err(ErrorCode::AbortedComputation)
                    },
                }
            },
        }
    }

    /// Delivery is idempotent per offset: once the one live request an offset
    /// named has reached a terminal state, the offset names no live request
    /// any more, so nothing under it can be delivered — or re-delivered —
    /// until a caller admits a fresh request.
    proof fn lemma_terminal_ends_liveness(
        self,
        before: ComputationRequestQueue,
        offset: u64,
        k: int,
    )
        requires
            before.wf(),
            before.live_at(offset, k),
            self.reqs().len() == before.reqs().len(),
            forall|i: int|
                0 <= i < self.reqs().len() && i != k ==> self.reqs()[i] == before.reqs()[i],
            is_terminal(self.reqs()[k].status),
        ensures
            !self.has_live(offset),
            !self.deliverable(offset),
    {
        assert forall|j: int| !self.live_at(offset, j) by {
            if self.live_at(offset, j) {
                assert(j != k);
                assert(before.live_at(offset, j));
                before.lemma_live_offset_unique(offset, j, k);
            }
        }
    }

    /// A status change at one index, with the offset kept, preserves
    /// well-formedness when the index advanced out of `Queued` or into a
    /// terminal state: the set of live offsets never grows.
    proof fn lemma_update_preserves_wf(self, before: ComputationRequestQueue, k: int)
        requires
            before.wf(),
            0 <= k < before.reqs().len(),
            self.reqs().len() == before.reqs().len(),
            forall|i: int|
                0 <= i < self.reqs().len() && i != k ==> self.reqs()[i] == before.reqs()[i],
            self.reqs()[k].offset == before.reqs()[k].offset,
            !is_terminal(before.reqs()[k].status),
        ensures
            self.wf(),
    {
        assert forall|i: int, j: int|
            0 <= i < self.reqs().len() && 0 <= j < self.reqs().len() && i != j && !is_terminal(
                #[trigger] self.reqs()[i].status,
            ) && !is_terminal(#[trigger] self.reqs()[j].status) implies self.reqs()[i].offset
            != self.reqs()[j].offset by {
            assert(!is_terminal(before.reqs()[i].status));
            assert(!is_terminal(before.reqs()[j].status));
        }
    }

    /// How many requests the queue has ever admitted.
    pub fn request_count(&self) -> (n: usize)
        ensures
            n == self.reqs().len(),
    {
        self.requests.len()
    }

    /// The status of the request at admission index `i`.
    pub fn status_at(&self, i: usize) -> (s: RequestStatus)
        requires
            i < self.reqs().len(),
        ensures
            s == self.reqs()[i as int].status,
    {
        self.requests[i].status
    }

    /// The offset of the request at admission index `i`.
    pub fn offset_at(&self, i: usize) -> (o: u64)
        requires
            i < self.reqs().len(),
        ensures
            o == self.reqs()[i as int].offset,
    {
        self.requests[i].offset
    }

    /// The encoded argument bytes of the request at admission index `i`.
    pub fn encoded_args_at(&self, i: usize) -> (a: &Vec<u8>)
        requires
            i < self.reqs().len(),
        ensures
            a@ == self.reqs()[i as int].encoded_args@,
    {
        &self.requests[i].encoded_args
    }
}

} // verus!
