use encrypted_wheel::circuits::spin;
use encrypted_wheel::cluster::{Attestation, ClusterConfig, SignedOutput};
use encrypted_wheel::errors::ErrorCode;
use encrypted_wheel::queue::ComputationRequestQueue;
use encrypted_wheel::registry::{CircuitSource, ComputationDefinitionRegistry};
use encrypted_wheel::status::RequestStatus;
use encrypted_wheel::wheel::{init_spin_comp_def, spin as submit_spin, spin_callback};

fn signed_message_bytes(epoch: u64, offset: u64, payload: &[Vec<u8>]) -> Vec<u8> {
    let mut m = epoch.to_le_bytes().to_vec();
    m.extend_from_slice(&offset.to_le_bytes());
    for slot in payload {
        m.extend_from_slice(slot);
    }
    m
}

fn test_config() -> ClusterConfig {
    ClusterConfig { signers: vec![10, 20, 30], threshold: 2, epoch: 7 }
}

fn ciphertext_with_first_byte(b: u8) -> Vec<u8> {
    let mut ct = vec![0xabu8; 32];
    ct[0] = b;
    ct
}

#[test]
fn spin_maps_zero_to_one() {
    assert_eq!(spin(0, 6), 1);
}

#[test]
fn spin_wraps_past_segment_count() {
    assert_eq!(spin(7, 6), 2);
}

#[test]
fn spin_maps_last_draw_to_last_segment() {
    assert_eq!(spin(5, 6), 6);
}

#[test]
fn spin_single_segment_always_one() {
    let mut r: u8 = 0;
    while r <= 7 {
        assert_eq!(spin(r, 1), 1);
        r += 1;
    }
}

#[test]
fn spin_stays_in_range_for_every_draw() {
    let mut seg: u8 = 1;
    while seg <= 8 {
        let mut r: u8 = 0;
        while r <= 7 {
            let outcome = spin(r, seg);
            assert!(1 <= outcome && outcome <= seg);
            assert_eq!(outcome, r % seg + 1);
            r += 1;
        }
        seg += 1;
    }
}

#[test]
fn round_trip_six_segments() {
    let mut registry = ComputationDefinitionRegistry::new();
    assert!(init_spin_comp_def(&mut registry, 1).is_ok());

    let mut queue = ComputationRequestQueue::new();
    let cfg = test_config();
    let pub_key = vec![5u8; 32];
    let nonce: u128 = 0x0123_4567_89ab_cdef;

    let submitted =
        submit_spin(&mut queue, &registry, Some(&cfg), 1, 42, 6, &pub_key, nonce);
    assert!(submitted.is_ok());
    assert_eq!(queue.status_at(0), RequestStatus::Queued);

    assert!(queue.mark_executing(42).is_ok());
    assert_eq!(queue.status_at(0), RequestStatus::Executing);

    // The cluster draws r = 7 and evaluates the circuit over it.
    let plaintext = spin(7, 6);
    assert_eq!(plaintext, 2);
    let ct = ciphertext_with_first_byte(plaintext);
    let payload = vec![ct.clone()];
    let msg = signed_message_bytes(7, 42, &payload);
    let output = SignedOutput {
        epoch: 7,
        payload,
        attestations: vec![
            Attestation { signer: 10, message: msg.clone() },
            Attestation { signer: 30, message: msg.clone() },
        ],
    };

    let delivered = spin_callback(&mut queue, &cfg, 42, &output);
    let event = match delivered {
        Ok(ev) => ev,
        Err(e) => panic!("delivery failed: {:?}", e),
    };
    assert_eq!(event.offset, 42);
    assert_eq!(event.result, ct);
    assert_eq!(queue.status_at(0), RequestStatus::Completed);

    // The requester decrypts off this path; here the stand-in cipher keeps
    // the plaintext in the first byte.
    let decoded = event.result[0];
    assert_eq!(decoded, (7 % 6) + 1);
    assert!(1 <= decoded && decoded <= 6);
}

#[test]
fn second_delivery_is_rejected_and_emits_nothing() {
    let mut registry = ComputationDefinitionRegistry::new();
    init_spin_comp_def(&mut registry, 1).unwrap();
    let mut queue = ComputationRequestQueue::new();
    let cfg = test_config();
    let pub_key = vec![1u8; 32];
    submit_spin(&mut queue, &registry, Some(&cfg), 1, 9, 6, &pub_key, 77).unwrap();
    queue.mark_executing(9).unwrap();

    let payload = vec![ciphertext_with_first_byte(3)];
    let msg = signed_message_bytes(7, 9, &payload);
    let output = SignedOutput {
        epoch: 7,
        payload,
        attestations: vec![
            Attestation { signer: 10, message: msg.clone() },
            Attestation { signer: 20, message: msg.clone() },
        ],
    };

    assert!(spin_callback(&mut queue, &cfg, 9, &output).is_ok());
    assert_eq!(queue.status_at(0), RequestStatus::Completed);

    // A second delivery of the same verified output is rejected, not
    // re-processed: no second event.
    let again = spin_callback(&mut queue, &cfg, 9, &output);
    match again {
        Ok(_) => panic!("second delivery must not emit another event"),
        Err(e) => assert_eq!(e, ErrorCode::InvalidRequestState),
    }
    assert_eq!(queue.status_at(0), RequestStatus::Completed);
}

#[test]
fn failed_verification_aborts_and_emits_nothing() {
    let mut registry = ComputationDefinitionRegistry::new();
    init_spin_comp_def(&mut registry, 1).unwrap();
    let mut queue = ComputationRequestQueue::new();
    let cfg = test_config();
    let pub_key = vec![2u8; 32];
    submit_spin(&mut queue, &registry, Some(&cfg), 1, 5, 6, &pub_key, 3).unwrap();
    queue.mark_executing(5).unwrap();

    let payload = vec![ciphertext_with_first_byte(4)];
    let mut msg = signed_message_bytes(7, 5, &payload);
    msg[0] ^= 0xff;
    let output = SignedOutput {
        epoch: 7,
        payload,
        attestations: vec![
            Attestation { signer: 10, message: msg.clone() },
            Attestation { signer: 20, message: msg.clone() },
        ],
    };

    let delivered = spin_callback(&mut queue, &cfg, 5, &output);
    match delivered {
        Ok(_) => panic!("an unverified output must never emit an event"),
        Err(e) => assert_eq!(e, ErrorCode::AbortedComputation),
    }
    assert_eq!(queue.status_at(0), RequestStatus::Aborted);

    // The aborted request stays terminal: another attempt is rejected.
    let again = spin_callback(&mut queue, &cfg, 5, &output);
    match again {
        Ok(_) => panic!("delivery after abort must be rejected"),
        Err(e) => assert_eq!(e, ErrorCode::InvalidRequestState),
    }
}

#[test]
fn init_records_offchain_source_with_unset_hash() {
    let mut registry = ComputationDefinitionRegistry::new();
    init_spin_comp_def(&mut registry, 1).unwrap();
    let def = match registry.lookup(1) {
        Ok(d) => d,
        Err(e) => panic!("registered definition must resolve: {:?}", e),
    };
    assert_eq!(def.circuit_id, 1);
    assert!(def.registered);
    match &def.source {
        CircuitSource::OffChain { url, content_hash } => {
            assert_eq!(
                url,
                "https://raw.githubusercontent.com/TOBY0001/arcis-circuits/main/spin.arcis"
            );
            assert_eq!(content_hash, &vec![0u8; 32]);
        },
        CircuitSource::Inline { .. } => panic!("the spin circuit is stored off-chain"),
    }

    // Registration happens once; a second attempt is rejected.
    assert_eq!(
        init_spin_comp_def(&mut registry, 1),
        Err(ErrorCode::AlreadyRegistered)
    );
}

#[test]
fn spin_without_cluster_config_fails_before_queuing() {
    let mut registry = ComputationDefinitionRegistry::new();
    init_spin_comp_def(&mut registry, 1).unwrap();
    let mut queue = ComputationRequestQueue::new();
    let pub_key = vec![0u8; 32];
    let r = submit_spin(&mut queue, &registry, None, 1, 1, 6, &pub_key, 0);
    assert_eq!(r, Err(ErrorCode::ClusterNotSet));
    assert_eq!(queue.request_count(), 0);
}
