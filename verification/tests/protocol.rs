use encrypted_wheel::cluster::VerifyResult;
use encrypted_wheel::errors::ErrorCode;
use encrypted_wheel::queue::{CallbackSpec, ComputationRequestQueue};
use encrypted_wheel::registry::{CircuitSource, ComputationDefinitionRegistry};
use encrypted_wheel::status::RequestStatus;

fn registry_with(id: u32) -> ComputationDefinitionRegistry {
    let mut registry = ComputationDefinitionRegistry::new();
    registry
        .register(id, CircuitSource::Inline { bytes: vec![1, 2, 3] })
        .unwrap();
    registry
}

#[test]
fn register_then_lookup() {
    let registry = registry_with(4);
    match registry.lookup(4) {
        Ok(d) => {
            assert_eq!(d.circuit_id, 4);
            assert!(d.registered);
        },
        Err(e) => panic!("lookup of a registered definition failed: {:?}", e),
    }
}

#[test]
fn lookup_of_absent_definition_fails() {
    let registry = registry_with(4);
    match registry.lookup(5) {
        Ok(_) => panic!("an absent definition must not resolve"),
        Err(e) => assert_eq!(e, ErrorCode::UnregisteredDefinition),
    }
}

#[test]
fn reregistration_is_rejected() {
    let mut registry = registry_with(4);
    let r = registry.register(4, CircuitSource::Inline { bytes: vec![9] });
    assert_eq!(r, Err(ErrorCode::AlreadyRegistered));
}

#[test]
fn queueing_needs_a_registered_definition() {
    let registry = registry_with(4);
    let mut queue = ComputationRequestQueue::new();
    let r = queue.queue(&registry, 1, 99, vec![], CallbackSpec { circuit_id: 99 });
    assert_eq!(r, Err(ErrorCode::UnregisteredDefinition));
    assert_eq!(queue.request_count(), 0);
}

#[test]
fn duplicate_live_offset_is_rejected() {
    let registry = registry_with(4);
    let mut queue = ComputationRequestQueue::new();
    assert!(queue.queue(&registry, 7, 4, vec![1], CallbackSpec { circuit_id: 4 }).is_ok());
    let r = queue.queue(&registry, 7, 4, vec![2], CallbackSpec { circuit_id: 4 });
    assert_eq!(r, Err(ErrorCode::DuplicateOffset));
    assert_eq!(queue.request_count(), 1);

    // A different offset proceeds independently.
    assert!(queue.queue(&registry, 8, 4, vec![2], CallbackSpec { circuit_id: 4 }).is_ok());
    assert_eq!(queue.request_count(), 2);
    assert_eq!(queue.offset_at(0), 7);
    assert_eq!(queue.offset_at(1), 8);
}

#[test]
fn terminal_offset_may_be_reused() {
    let registry = registry_with(4);
    let mut queue = ComputationRequestQueue::new();
    queue.queue(&registry, 7, 4, vec![], CallbackSpec { circuit_id: 4 }).unwrap();
    queue.mark_executing(7).unwrap();
    let aborted = queue.deliver(7, VerifyResult::VerificationFailed);
    assert_eq!(aborted, Err(ErrorCode::AbortedComputation));
    assert_eq!(queue.status_at(0), RequestStatus::Aborted);

    // The old request is terminal, so its offset no longer blocks admission.
    assert!(queue.queue(&registry, 7, 4, vec![], CallbackSpec { circuit_id: 4 }).is_ok());
    assert_eq!(queue.request_count(), 2);
    assert_eq!(queue.status_at(1), RequestStatus::Queued);
}

#[test]
fn status_advances_forward_only() {
    let registry = registry_with(4);
    let mut queue = ComputationRequestQueue::new();
    queue.queue(&registry, 3, 4, vec![], CallbackSpec { circuit_id: 4 }).unwrap();
    assert_eq!(queue.status_at(0), RequestStatus::Queued);

    // Delivery before the cluster has taken the request is rejected.
    let early = queue.deliver(3, VerifyResult::VerificationFailed);
    assert_eq!(early, Err(ErrorCode::InvalidRequestState));
    assert_eq!(queue.status_at(0), RequestStatus::Queued);

    queue.mark_executing(3).unwrap();
    assert_eq!(queue.status_at(0), RequestStatus::Executing);

    // The hand-off happens once: a second take is rejected.
    let again = queue.mark_executing(3);
    assert_eq!(again, Err(ErrorCode::InvalidRequestState));
    assert_eq!(queue.status_at(0), RequestStatus::Executing);

    let done = queue.deliver(3, VerifyResult::Verified { payload: vec![vec![0u8; 32]] });
    assert!(done.is_ok());
    assert_eq!(queue.status_at(0), RequestStatus::Completed);

    // Nothing moves a terminal request, forward or backward.
    assert_eq!(queue.mark_executing(3), Err(ErrorCode::InvalidRequestState));
    assert_eq!(queue.status_at(0), RequestStatus::Completed);
}

#[test]
fn delivery_to_unknown_offset_is_rejected() {
    let mut queue = ComputationRequestQueue::new();
    let r = queue.deliver(11, VerifyResult::VerificationFailed);
    assert_eq!(r, Err(ErrorCode::InvalidRequestState));
}

#[test]
fn verified_delivery_hands_out_first_payload_slot() {
    let registry = registry_with(4);
    let mut queue = ComputationRequestQueue::new();
    queue.queue(&registry, 6, 4, vec![], CallbackSpec { circuit_id: 4 }).unwrap();
    queue.mark_executing(6).unwrap();
    let first = vec![0x11u8; 32];
    let second = vec![0x22u8; 32];
    let payload = vec![first.clone(), second];
    let ev = queue.deliver(6, VerifyResult::Verified { payload }).unwrap();
    assert_eq!(ev.offset, 6);
    assert_eq!(ev.result, first);
}
