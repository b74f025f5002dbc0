use vstd::prelude::*;

use crate::circuits::spin_param_types;
use crate::cluster::{accepts, verify, views_of, ClusterConfig, SignedOutput, VerifyResult};
use crate::encoder::{encode, encoded_args, Scalar};
use crate::errors::ErrorCode;
use crate::queue::{CallbackSpec, ComputationRequest, ComputationRequestQueue, SpinEvent};
use crate::registry::{CircuitSource, ComputationDefinitionRegistry};
use crate::status::RequestStatus;

verus! {

/// Registers the wheel-spin computation definition under `circuit_id`, with
/// off-chain source storage: the cluster fetches the circuit from its
/// published address. The expected content hash is recorded as all zeroes —
/// left unset, so the fetched bytes are not authenticated by it.
pub fn init_spin_comp_def(registry: &mut ComputationDefinitionRegistry, circuit_id: u32) -> (r:
    Result<(), ErrorCode>)
    requires
        old(registry).wf(),
    ensures
        final(registry).wf(),
        old(registry).contains_id(circuit_id) ==> r == Err::<(), ErrorCode>(
            ErrorCode::AlreadyRegistered,
        ) && final(registry).defs_seq() == old(registry).defs_seq(),
        !old(registry).contains_id(circuit_id) ==> r is Ok && final(registry).defs_seq().len()
            == old(registry).defs_seq().len() + 1 && ({
            let d = final(registry).defs_seq().last();
            &&& d.circuit_id == circuit_id
            &&& d.registered
            &&& d.source matches CircuitSource::OffChain { url, content_hash } && url@
                == "https://raw.githubusercontent.com/TOBY0001/arcis-circuits/main/spin.arcis"@
                && content_hash@.len() == 32 && (forall|i: int|
                0 <= i < 32 ==> content_hash@[i] == 0u8)
        }),
        final(registry).spec_is_registered(circuit_id),
{
    let url = String::from_str(
        "https://raw.githubusercontent.com/TOBY0001/arcis-circuits/main/spin.arcis",
    );
    let mut content_hash: Vec<u8> = Vec::new();
    let mut k: usize = 0;
    while k < 32
        invariant
            k <= 32,
            content_hash@.len() == k,
            forall|i: int| 0 <= i < k ==> content_hash@[i] == 0u8,
        decreases 32 - k,
    {
        content_hash.push(0u8);
        k = k + 1;
    }
    registry.register(circuit_id, CircuitSource::OffChain { url, content_hash })
}

/// Submits one wheel-spin request. The cluster configuration must resolve
/// (else `ClusterNotSet`, before anything is queued); the arguments are then
/// encoded in the layout the spin circuit declares — public key, nonce, one
/// 8-bit segment count — and the request is admitted under
/// `computation_offset` with the spin callback attached.
pub fn spin(
    queue: &mut ComputationRequestQueue,
    registry: &ComputationDefinitionRegistry,
    cluster: Option<&ClusterConfig>,
    circuit_id: u32,
    computation_offset: u64,
    num_segments: u8,
    pub_key: &Vec<u8>,
    nonce: u128,
) -> (r: Result<(), ErrorCode>)
    requires
        old(queue).wf(),
        pub_key@.len() == 32,
    ensures
        final(queue).wf(),
        cluster is None ==> r == Err::<(), ErrorCode>(ErrorCode::ClusterNotSet)
            && final(queue).reqs() == old(queue).reqs(),
        cluster is Some ==> ({
            &&& (r == Err::<(), ErrorCode>(ErrorCode::UnregisteredDefinition)
                <==> !registry.spec_is_registered(circuit_id))
            &&& (r == Err::<(), ErrorCode>(ErrorCode::DuplicateOffset)
                <==> registry.spec_is_registered(circuit_id) && old(queue).has_live(
                computation_offset,
            ))
            &&& (r is Ok <==> registry.spec_is_registered(circuit_id) && !old(queue).has_live(
                computation_offset,
            ))
            &&& (r is Err ==> final(queue).reqs() == old(queue).reqs())
            &&& (r is Ok ==> ({
                let n = final(queue).reqs().len();
                let req = final(queue).reqs().last();
                &&& n == old(queue).reqs().len() + 1
                &&& (forall|j: int| 0 <= j < n - 1 ==> final(queue).reqs()[j] == old(queue).reqs()[j])
                &&& req.offset == computation_offset
                &&& req.circuit_id == circuit_id
                &&& req.callback == (CallbackSpec { circuit_id })
                &&& req.status == RequestStatus::Queued
                &&& req.encoded_args@ == encoded_args(
                    pub_key@,
                    nonce,
                    seq![Scalar::U8(num_segments)],
                )
                &&& final(queue).has_live(computation_offset)
            }))
        }),
{
    if cluster.is_none() {
        return Err(ErrorCode::ClusterNotSet);
    }
    let mut params: Vec<Scalar> = Vec::new();
    params.push(Scalar::U8(num_segments));
    let expected = spin_param_types();
    proof {
        assert(params@ =~= seq![Scalar::U8(num_segments)]);
    }
    let encoded = match encode(pub_key, nonce, &params, &expected) {
        Ok(bytes) => bytes,
        Err(e) => {
            return Err(e);
        },
    };
    queue.queue(registry, computation_offset, circuit_id, encoded, CallbackSpec { circuit_id })
}

/// Handles the cluster's signed output for the request named by
/// `computation_offset`: the output is first verified against the configured
/// quorum, and the outcome is then dispatched. A verified output completes
/// the request and yields its one `SpinEvent`, carrying the first ciphertext
/// slot of the payload — still encrypted; the requester decrypts it off this
/// protocol's path. A failed verification aborts the request and surfaces
/// `AbortedComputation`; an offset with no request awaiting delivery is
/// rejected with `InvalidRequestState`, and nothing changes.
pub fn spin_callback(
    queue: &mut ComputationRequestQueue,
    cluster: &ClusterConfig,
    computation_offset: u64,
    output: &SignedOutput,
) -> (r: Result<SpinEvent, ErrorCode>)
    requires
        old(queue).wf(),
    ensures
        final(queue).wf(),
        !old(queue).deliverable(computation_offset) ==> r == Err::<SpinEvent, ErrorCode>(
            ErrorCode::InvalidRequestState,
        ) && final(queue).reqs() == old(queue).reqs(),
        old(queue).deliverable(computation_offset) && accepts(*output, *cluster, computation_offset)
            ==> ({
            let i = old(queue).live_index(computation_offset);
            &&& final(queue).reqs() == old(queue).reqs().update(
                i,
                (ComputationRequest { status: RequestStatus::Completed, ..old(queue).reqs()[i] }),
            )
            &&& r matches Ok(ev) && ev.offset == computation_offset && ev.result@
                == output.payload@[0]@ && ev.result@.len() == 32
        }),
        old(queue).deliverable(computation_offset) && !accepts(
            *output,
            *cluster,
            computation_offset,
        ) ==> ({
            let i = old(queue).live_index(computation_offset);
            &&& final(queue).reqs() == old(queue).reqs().update(
                i,
                (ComputationRequest { status: RequestStatus::Aborted, ..old(queue).reqs()[i] }),
            )
            &&& r == Err::<SpinEvent, ErrorCode>(ErrorCode::AbortedComputation)
        }),
        old(queue).deliverable(computation_offset) ==> !final(queue).has_live(computation_offset)
            && !final(queue).deliverable(computation_offset),
{
    let outcome = verify(output, cluster, computation_offset);
    let ghost go = outcome;
    let r = queue.deliver(computation_offset, outcome);
    proof {
        match go {
            VerifyResult::Verified { payload } => {
                assert(views_of(payload@)[0] == payload@[0]@);
                assert(views_of(output.payload@)[0] == output.payload@[0]@);
            },
            VerifyResult::VerificationFailed => {},
        }
    }
    r
}

} // verus!
