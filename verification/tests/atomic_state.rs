use mentorminds::atomic_state::{all_checkpoints_passed, is_transition_expired, transition_proof_preimage, StateTransitionContext};
use mentorminds::common::Hash32;

fn context(passed: u32, total: u32) -> StateTransitionContext {
    StateTransitionContext {
        transition_id: Hash32 { w0: 0, w1: 0, w2: 0, w3: 0 },
        entity_id: 1,
        pre_state: 10,
        post_state: 11,
        started_at: 1000,
        timeout_at: 2000,
        checkpoints_passed: passed,
        total_checkpoints: total,
        lock_holder: 7,
        rollback_initiated: false,
    }
}

#[test]
fn test_checkpoint_validation() {
    let c = context(5, 5);
    assert!(all_checkpoints_passed(&c));
    assert!(!all_checkpoints_passed(&context(4, 5)));
}

#[test]
fn test_transition_timeout_check() {
    let c = context(0, 5);
    assert!(!is_transition_expired(&c, 1500));
    assert!(is_transition_expired(&c, 2100));
    assert!(is_transition_expired(&c, 2000));
}

#[test]
fn proof_preimage_layout() {
    let bytes = transition_proof_preimage(10, 11, 0x0102_0304_0506_0708);
    assert_eq!(bytes.len(), 40);
    assert_eq!(&bytes[0..16], b"state_transition");
    assert_eq!(&bytes[16..32], b"state_transition");
    assert_eq!(&bytes[32..40], &0x0102_0304_0506_0708u64.to_le_bytes());
}

#[test]
fn transition_proof_hash_is_sha256_of_preimage() {
    let h = mentorminds::atomic_state::compute_transition_proof_hash(10, 11, 0x0102_0304_0506_0708);
    assert_eq!(
        h,
        Hash32 { w0: 0x940d0788eb9ea4fa, w1: 0xc7cee91fad202890, w2: 0xf302884148b14535, w3: 0x9b79a8fc68624aaf }
    );
    // The states do not enter the preimage.
    assert_eq!(mentorminds::atomic_state::compute_transition_proof_hash(1, 2, 0x0102_0304_0506_0708), h);
    let other = mentorminds::atomic_state::compute_transition_proof_hash(10, 11, 1000);
    assert_eq!(
        other,
        Hash32 { w0: 0x1f9d45e03eefd36c, w1: 0x0b0806dfb3c4a0c0, w2: 0x00d4c8c334c059a7, w3: 0x2dfb90428b381309 }
    );
}

#[test]
fn digest_words_are_big_endian() {
    let bytes: Vec<u8> = (1..=32).collect();
    let h = mentorminds::atomic_state::digest_words(&bytes);
    assert_eq!(h.w0, 0x0102_0304_0506_0708);
    assert_eq!(h.w3, 0x191a_1b1c_1d1e_1f20);
}
