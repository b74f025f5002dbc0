use vstd::bytes::*;
use vstd::prelude::*;

use crate::bytes_util::{append_bytes, bytes_eq, clone_bytes, contains_u64};

verus! {

/// The cluster's current signer set: the authorized signer identities, the
/// number of distinct authorized signatures an output needs, and the
/// configuration epoch. Owned by the cluster coordination layer and read-only
/// to this protocol.
pub struct ClusterConfig {
    pub signers: Vec<u64>,
    pub threshold: usize,
    pub epoch: u64,
}

impl ClusterConfig {
    /// A sound configuration: at least one signature is demanded, the demand
    /// can be met by the authorized set, and no signer is listed twice.
    pub open spec fn wf(self) -> bool {
        &&& 1 <= self.threshold <= self.signers@.len()
        &&& self.signers@.no_duplicates()
    }
}

/// One signer's signature over a cluster output: the signer's identity and
/// the exact message the signature covers. The cryptographic binding between
/// the two is the cluster's threshold-signing scheme, outside this core; at
/// this interface a signature is trusted exactly when it restates the message
/// the protocol expects the cluster to have signed.
pub struct Attestation {
    pub signer: u64,
    pub message: Vec<u8>,
}

/// A cluster-produced output: the result payload (one fixed-size ciphertext
/// per circuit output), the signature material, and the cluster epoch the
/// output was computed under.
pub struct SignedOutput {
    pub epoch: u64,
    pub payload: Vec<Vec<u8>>,
    pub attestations: Vec<Attestation>,
}

/// The outcome of checking a cluster output against the configured quorum.
/// Callers must branch on it explicitly; an output never enters the result
/// path without `Verified`.
pub enum VerifyResult {
    Verified { payload: Vec<Vec<u8>> },
    VerificationFailed,
}

/// The byte views of a payload's ciphertext slots.
pub open spec fn views_of(p: Seq<Vec<u8>>) -> Seq<Seq<u8>> {
    p.map_values(|v: Vec<u8>| v@)
}

/// The concatenated bytes of a payload, slot after slot.
pub open spec fn payload_bytes(payload: Seq<Seq<u8>>) -> Seq<u8>
    decreases payload.len(),
{
    if payload.len() == 0 {
        Seq::empty()
    } else {
        payload_bytes(payload.drop_last()) + payload.last()
    }
}

/// The message the cluster signs for one computation: the epoch, the
/// request's offset, and the payload bytes, in that order. Binding the offset
/// into the message ties an output to the one request it answers.
pub open spec fn signed_message(epoch: u64, request_offset: u64, payload: Seq<Seq<u8>>) -> Seq<
    u8,
> {
    spec_u64_to_le_bytes(epoch) + spec_u64_to_le_bytes(request_offset) + payload_bytes(payload)
}

/// Whether one attestation counts toward the quorum for message `msg`: its
/// signer is authorized and its signature covers exactly `msg`.
pub open spec fn attestation_valid(a: Attestation, authorized: Seq<u64>, msg: Seq<u8>) -> bool {
    authorized.contains(a.signer) && a.message@ == msg
}

/// The set of distinct authorized signers with a valid attestation for `msg`.
pub open spec fn valid_signers(atts: Seq<Attestation>, authorized: Seq<u64>, msg: Seq<u8>) -> Set<
    u64,
>
    decreases atts.len(),
{
    if atts.len() == 0 {
        Set::empty()
    } else {
        let rest = valid_signers(atts.drop_last(), authorized, msg);
        if attestation_valid(atts.last(), authorized, msg) {
            rest.insert(atts.last().signer)
        } else {
            rest
        }
    }
}

pub proof fn lemma_valid_signers_finite(atts: Seq<Attestation>, authorized: Seq<u64>, msg: Seq<u8>)
    ensures
        valid_signers(atts, authorized, msg).finite(),
    decreases atts.len(),
{
    if atts.len() > 0 {
        lemma_valid_signers_finite(atts.drop_last(), authorized, msg);
    }
}

/// When an output is accepted: it was computed under the configured epoch,
/// it carries at least one 32-byte ciphertext slot, and distinct authorized
/// signers meeting the configured threshold signed exactly the message that
/// binds this epoch, this request's offset and this payload.
pub open spec fn accepts(output: SignedOutput, cfg: ClusterConfig, request_offset: u64) -> bool {
    &&& output.epoch == cfg.epoch
    &&& output.payload@.len() >= 1
    &&& (forall|i: int| 0 <= i < output.payload@.len() ==> output.payload@[i]@.len() == 32)
    &&& valid_signers(
        output.attestations@,
        cfg.signers@,
        signed_message(output.epoch, request_offset, views_of(output.payload@)),
    ).len() >= cfg.threshold
}

/// Builds the exact byte message the cluster is expected to have signed for
/// this output and offset.
fn expected_message(output: &SignedOutput, request_offset: u64) -> (msg: Vec<u8>)
    ensures
        msg@ == signed_message(output.epoch, request_offset, views_of(output.payload@)),
{
    let mut msg = u64_to_le_bytes(output.epoch);
    let mut offset_bytes = u64_to_le_bytes(request_offset);
    msg.append(&mut offset_bytes);
    let ghost header: Seq<u8> = spec_u64_to_le_bytes(output.epoch) + spec_u64_to_le_bytes(
        request_offset,
    );
    assert(msg@ =~= header);
    let n = output.payload.len();
    for i in 0..n
        invariant
            n == output.payload@.len(),
            msg@ == header + payload_bytes(views_of(output.payload@).take(i as int)),
    {
        append_bytes(&mut msg, &output.payload[i]);
        proof {
            let views = views_of(output.payload@);
            assert(views.take(i + 1).drop_last() =~= views.take(i as int));
            assert(views.take(i + 1).last() == output.payload@[i as int]@);
            assert(msg@ =~= header + payload_bytes(views.take(i + 1)));
        }
    }
    proof {
        let views = views_of(output.payload@);
        assert(views.take(n as int) =~= views);
    }
    msg
}

/// Validates a cluster-produced output against the cluster's current signer
/// set before it is trusted: the sole trust boundary of the protocol.
/// Returns `Verified` carrying the output's payload exactly when a quorum of
/// distinct authorized signers, meeting the configured threshold, signed this
/// epoch, this request's offset and this payload; every other output yields
/// the typed failure `VerificationFailed`.
pub fn verify(output: &SignedOutput, cfg: &ClusterConfig, request_offset: u64) -> (r: VerifyResult)
    ensures
        r is Verified <==> accepts(*output, *cfg, request_offset),
        r matches VerifyResult::Verified { payload } ==> views_of(payload@) == views_of(
            output.payload@,
        ) && payload@.len() == output.payload@.len(),
{
    if output.epoch != cfg.epoch {
        return VerifyResult::VerificationFailed;
    }
    if output.payload.len() == 0 {
        return VerifyResult::VerificationFailed;
    }
    let slots = output.payload.len();
    for i in 0..slots
        invariant
            slots == output.payload@.len(),
            forall|j: int| 0 <= j < i ==> output.payload@[j]@.len() == 32,
    {
        if output.payload[i].len() != 32 {
            return VerifyResult::VerificationFailed;
        }
    }
    let msg = expected_message(output, request_offset);
    let ghost gmsg = msg@;
    let n = output.attestations.len();
    let mut seen: Vec<u64> = Vec::new();
    for i in 0..n
        invariant
            n == output.attestations@.len(),
            msg@ == gmsg,
            seen@.no_duplicates(),
            seen@.to_set() == valid_signers(output.attestations@.take(i as int), cfg.signers@, gmsg),
    {
        let ghost prefix = output.attestations@.take(i as int);
        let ghost prev_seen = seen@;
        let a = &output.attestations[i];
        let authorized = contains_u64(&cfg.signers, a.signer);
        let signs_msg = bytes_eq(&a.message, &msg);
        proof {
            assert(output.attestations@.take(i + 1).drop_last() =~= prefix);
            assert(output.attestations@.take(i + 1).last() == output.attestations@[i as int]);
        }
        if authorized && signs_msg {
            let fresh = !contains_u64(&seen, a.signer);
            if fresh {
                seen.push(a.signer);
                proof {
                    assert(seen@.to_set() =~= prev_seen.to_set().insert(a.signer)) by {
                        assert forall|x: u64| seen@.contains(x) implies prev_seen.contains(x) || x
                            == a.signer by {
                            let k = choose|k: int| 0 <= k < seen@.len() && seen@[k] == x;
                            if k < prev_seen.len() {
                                assert(prev_seen[k] == x);
                            }
                        }
                        assert forall|x: u64|
                            prev_seen.contains(x) || x == a.signer implies seen@.contains(
                            x,
                        ) by {
                            if prev_seen.contains(x) {
                                let k = choose|k: int|
                                    0 <= k < prev_seen.len() && prev_seen[k] == x;
                                assert(seen@[k] == x);
                            } else {
                                assert(seen@[prev_seen.len() as int] == a.signer);
                            }
                        }
                    }
                    assert(seen@.no_duplicates()) by {
                        assert(forall|k: int|
                            0 <= k < prev_seen.len() ==> seen@[k] == prev_seen[k]);
                        assert(seen@[prev_seen.len() as int] == a.signer);
                        assert(!prev_seen.contains(a.signer));
                    }
                }
            } else {
                proof {
                    assert(seen@.to_set().contains(a.signer));
                    assert(prev_seen.to_set().insert(a.signer) =~= prev_seen.to_set());
                }
            }
        }
    }
    proof {
        assert(output.attestations@.take(n as int) =~= output.attestations@);
        seen@.unique_seq_to_set();
    }
    if seen.len() >= cfg.threshold {
        let payload = clone_payload(&output.payload);
        VerifyResult::Verified { payload }
    } else {
        VerifyResult::VerificationFailed
    }
}

/// A copy of a payload, slot by slot.
fn clone_payload(p: &Vec<Vec<u8>>) -> (r: Vec<Vec<u8>>)
    ensures
        r@.len() == p@.len(),
        views_of(r@) == views_of(p@),
{
    let mut r: Vec<Vec<u8>> = Vec::new();
    let n = p.len();
    for i in 0..n
        invariant
            n == p@.len(),
            r@.len() == i,
            forall|j: int| 0 <= j < i ==> r@[j]@ == p@[j]@,
    {
        r.push(clone_bytes(&p[i]));
    }
    proof {
        assert(views_of(r@) =~= views_of(p@));
    }
    r
}

/// No attestation that fails `attestation_valid` ever counts: an output in
/// which every attestation either names an unauthorized signer or restates a
/// different message — a tampered payload or a tampered signature — is
/// rejected by every sound configuration, whatever its payload holds.
pub proof fn lemma_no_valid_attestation_rejected(
    output: SignedOutput,
    cfg: ClusterConfig,
    request_offset: u64,
)
    requires
        cfg.wf(),
        forall|i: int|
            0 <= i < output.attestations@.len() ==> !attestation_valid(
                output.attestations@[i],
                cfg.signers@,
                signed_message(cfg.epoch, request_offset, views_of(output.payload@)),
            ),
    ensures
        !accepts(output, cfg, request_offset),
{
    if output.epoch == cfg.epoch {
        lemma_all_invalid_empty(
            output.attestations@,
            cfg.signers@,
            signed_message(cfg.epoch, request_offset, views_of(output.payload@)),
        );
    }
}

proof fn lemma_all_invalid_empty(atts: Seq<Attestation>, authorized: Seq<u64>, msg: Seq<u8>)
    requires
        forall|i: int| 0 <= i < atts.len() ==> !attestation_valid(atts[i], authorized, msg),
    ensures
        valid_signers(atts, authorized, msg) == Set::<u64>::empty(),
    decreases atts.len(),
{
    if atts.len() > 0 {
        assert(forall|i: int|
            0 <= i < atts.drop_last().len() ==> atts.drop_last()[i] == atts[i]);
        lemma_all_invalid_empty(atts.drop_last(), authorized, msg);
        assert(!attestation_valid(atts.last(), authorized, msg));
    }
}

} // verus!
